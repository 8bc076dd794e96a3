//! Verified core of a splitscreen game launcher's compositor-session
//! lifecycle: building the nested-compositor command line, and the
//! decision logic of the script load/start/unload protocol.

pub mod controller;
pub mod launcher;
pub mod prompt;
pub mod text;

use vstd::prelude::*;

verus! {

/// The flag that triggers session launching; it must never survive into
/// the command line re-issued inside the nested session.
pub fn session_flag() -> (r: &'static str)
    ensures
        r@ == "--kwin"@,
{
    "--kwin"
}

} // verus!
