//! Yes/no prompt outcome: the one decision the user-notification
//! collaborator feeds back into the program.

use vstd::prelude::*;

verus! {

/// The user's answer to a blocking yes/no prompt.
#[derive(Clone, Copy, PartialEq, Eq, Structural, Debug)]
pub enum PromptChoice {
    Yes,
    No,
    Cancel,
}

/// Reduces a prompt's outcome to a plain answer: true exactly when the
/// prompt was presented successfully and the user chose yes; false on any
/// presentation failure or non-affirmative choice.
pub fn yesno_outcome(outcome: Option<PromptChoice>) -> (r: bool)
    ensures
        r <==> outcome == Some(PromptChoice::Yes),
{
    match outcome {
        Some(PromptChoice::Yes) => true,
        _ => false,
    }
}

} // verus!
