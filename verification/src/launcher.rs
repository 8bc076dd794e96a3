//! Session launcher: derives the nested-compositor command line from the
//! target monitor's geometry and the original process's argument list.

use crate::text::{decimal_of, join_with_spaces, joined_with_spaces, quote_arg, quoted,
    u32_to_decimal};
use vstd::prelude::*;

verus! {

/// The one failure the launcher can report before touching the system:
/// no monitor descriptor is available to size the session from.
#[derive(Clone, Copy, PartialEq, Eq, Structural, Debug)]
pub enum LaunchError {
    NoMonitor,
}

/// Geometry of one monitor, in pixels. Both dimensions must be positive.
#[derive(Clone, Copy, PartialEq, Eq, Structural, Debug)]
pub struct Monitor {
    pub width: u32,
    pub height: u32,
}

impl Monitor {
    /// A monitor descriptor is well formed when both dimensions are positive.
    pub open spec fn wf(self) -> bool {
        self.width > 0 && self.height > 0
    }

    pub fn new(width: u32, height: u32) -> (r: Monitor)
        requires
            width > 0,
            height > 0,
        ensures
            r.width == width,
            r.height == height,
            r.wf(),
    {
        Monitor { width, height }
    }

    pub fn width(&self) -> (r: u32)
        ensures
            r == self.width,
    {
        self.width
    }

    pub fn height(&self) -> (r: u32)
        ensures
            r == self.height,
    {
        self.height
    }
}

/// The nested compositor binary that the session command is for.
pub fn compositor_binary() -> (r: &'static str)
    ensures
        r@ == "kwin_wayland"@,
{
    "kwin_wayland"
}

/// An argument is kept in the re-issued command line exactly when it is
/// not the session-launch flag.
pub open spec fn keeps_arg(a: Seq<char>) -> bool {
    a != "--kwin"@
}

/// The argument list with every occurrence of the session-launch flag
/// removed, order and duplicates of the rest kept.
pub open spec fn strip_flag(args: Seq<Seq<char>>) -> Seq<Seq<char>> {
    args.filter(|a: Seq<char>| keeps_arg(a))
}

/// Removes the session-launch flag from the original argument list, so the
/// nested session can never recurse into launching another session.
pub fn strip_session_flag(args: &Vec<String>) -> (r: Vec<String>)
    ensures
        r.deep_view() == strip_flag(args.deep_view()),
{
    let flag = String::from_str(crate::session_flag());
    let mut out: Vec<String> = Vec::new();
    let n = args.len();
    let mut i: usize = 0;
    proof {
        reveal(Seq::filter);
        assert(out.deep_view() =~= strip_flag(args.deep_view().take(0)));
    }
    while i < n
        invariant
            n == args@.len(),
            i <= n,
            flag@ == "--kwin"@,
            out.deep_view() == strip_flag(args.deep_view().take(i as int)),
        decreases n - i,
    {
        let a = &args[i];
        let ghost pre = out.deep_view();
        if *a != flag {
            out.push(a.clone());
            proof {
                assert(out.deep_view() =~= pre.push(args.deep_view()[i as int]));
            }
        }
        proof {
            reveal(Seq::filter);
            let dv = args.deep_view();
            let t1 = dv.take(i + 1);
            assert(t1.drop_last() =~= dv.take(i as int));
            assert(t1.last() == dv[i as int]);
            assert(out.deep_view() =~= strip_flag(t1));
        }
        i = i + 1;
    }
    proof {
        assert(args.deep_view().take(n as int) =~= args.deep_view());
    }
    out
}

/// Every argument, defensively wrapped in double quotes.
pub open spec fn quoted_all(args: Seq<Seq<char>>) -> Seq<Seq<char>> {
    args.map_values(|a: Seq<char>| quoted(a))
}

/// Quotes each re-issued argument.
pub fn quote_args(args: &Vec<String>) -> (r: Vec<String>)
    ensures
        r.deep_view() == quoted_all(args.deep_view()),
{
    let mut out: Vec<String> = Vec::new();
    let n = args.len();
    let mut i: usize = 0;
    proof {
        assert(out.deep_view() =~= quoted_all(args.deep_view().take(0)));
    }
    while i < n
        invariant
            n == args@.len(),
            i <= n,
            out.deep_view() == quoted_all(args.deep_view().take(i as int)),
        decreases n - i,
    {
        let ghost pre = out.deep_view();
        out.push(quote_arg(args[i].as_str()));
        proof {
            let dv = args.deep_view();
            assert(out.deep_view() =~= pre.push(quoted(dv[i as int])));
            assert(out.deep_view() =~= quoted_all(dv.take(i + 1)));
        }
        i = i + 1;
    }
    proof {
        assert(args.deep_view().take(n as int) =~= args.deep_view());
    }
    out
}

/// The full argument list for the nested compositor: run an X-compatibility
/// layer, size the session to the monitor, end it with the inner session,
/// and re-issue the original invocation (flag stripped, each argument
/// quoted, space-joined) as the command to run inside.
pub open spec fn session_command(m: Monitor, args: Seq<Seq<char>>) -> Seq<Seq<char>> {
    seq![
        "--xwayland"@,
        "--width"@,
        decimal_of(m.width as nat),
        "--height"@,
        decimal_of(m.height as nat),
        "--exit-with-session"@,
        joined_with_spaces(quoted_all(strip_flag(args))),
    ]
}

/// Builds the nested-compositor command line. Geometry is taken from the
/// first monitor alone; an empty monitor list is rejected rather than
/// dereferenced.
pub fn build_session_command(monitors: &Vec<Monitor>, args: &Vec<String>) -> (r: Result<
    Vec<String>,
    LaunchError,
>)
    ensures
        r is Ok <==> monitors@.len() > 0,
        monitors@.len() == 0 ==> r == Err::<Vec<String>, LaunchError>(LaunchError::NoMonitor),
        monitors@.len() > 0 ==> (r matches Ok(cmd) && cmd.deep_view() == session_command(
            monitors@[0],
            args.deep_view(),
        )),
{
    if monitors.len() == 0 {
        return Err(LaunchError::NoMonitor);
    }
    let m = monitors[0];
    let mut cmd: Vec<String> = Vec::new();
    cmd.push(String::from_str("--xwayland"));
    cmd.push(String::from_str("--width"));
    cmd.push(u32_to_decimal(m.width()));
    cmd.push(String::from_str("--height"));
    cmd.push(u32_to_decimal(m.height()));
    cmd.push(String::from_str("--exit-with-session"));
    let stripped = strip_session_flag(args);
    let qargs = quote_args(&stripped);
    cmd.push(join_with_spaces(&qargs));
    proof {
        assert(cmd.deep_view() =~= session_command(monitors@[0], args.deep_view()));
    }
    Ok(cmd)
}

/// Law: the width and height of the session command are derived from the
/// first monitor alone; any two non-empty monitor lists that agree on
/// their first entry yield the same command.
pub proof fn lemma_command_from_first_monitor_only(
    m1: Seq<Monitor>,
    m2: Seq<Monitor>,
    args: Seq<Seq<char>>,
)
    requires
        m1.len() > 0,
        m2.len() > 0,
        m1[0] == m2[0],
    ensures
        session_command(m1[0], args) == session_command(m2[0], args),
{
}

/// Law: launching a session is not re-entrant — whatever the original
/// argument list, no argument equal to the session-launch flag survives
/// into the list that is re-issued inside the nested session.
pub proof fn lemma_session_flag_stripped(args: Seq<Seq<char>>)
    ensures
        forall|i: int| 0 <= i < strip_flag(args).len() ==> strip_flag(args)[i] != "--kwin"@,
{
    assert forall|i: int| 0 <= i < strip_flag(args).len() implies strip_flag(args)[i]
        != "--kwin"@ by {
        args.lemma_filter_pred(|a: Seq<char>| keeps_arg(a), i);
    }
}

} // verus!
