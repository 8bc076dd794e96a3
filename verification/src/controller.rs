//! Script controller: the decision logic of the load/start and unload
//! protocols spoken to the compositor's scripting interface.
//!
//! Each protocol is a small state machine. The step value names the one
//! outside action that is pending (check the script file, connect to the
//! session bus, build the remote proxy, issue a remote call); the caller
//! performs that action and feeds the outcome back as an event. All
//! sequencing decisions — fail fast on a missing file, never start a
//! script whose load failed, ignore the unload call's boolean payload —
//! are made here and are verified.

use vstd::prelude::*;

verus! {

/// The fixed destination service of the compositor's scripting subsystem.
pub fn kwin_service() -> (r: &'static str)
    ensures
        r@ == "org.kde.KWin"@,
{
    "org.kde.KWin"
}

/// The fixed object path of the scripting subsystem.
pub fn scripting_object_path() -> (r: &'static str)
    ensures
        r@ == "/Scripting"@,
{
    "/Scripting"
}

/// The fixed interface of the scripting subsystem.
pub fn scripting_interface() -> (r: &'static str)
    ensures
        r@ == "org.kde.kwin.Scripting"@,
{
    "org.kde.kwin.Scripting"
}

/// The well-known logical name under which the splitscreen script is
/// loaded and unloaded.
pub fn script_name() -> (r: &'static str)
    ensures
        r@ == "splitscreen"@,
{
    "splitscreen"
}

/// The remote method that loads a script and returns its identifier.
pub fn load_script_method() -> (r: &'static str)
    ensures
        r@ == "loadScript"@,
{
    "loadScript"
}

/// The remote method that starts the loaded scripts.
pub fn start_method() -> (r: &'static str)
    ensures
        r@ == "start"@,
{
    "start"
}

/// The remote method that unloads a script by its logical name.
pub fn unload_script_method() -> (r: &'static str)
    ensures
        r@ == "unloadScript"@,
{
    "unloadScript"
}

/// The uniform error channel of the script controller.
#[derive(Clone, Copy, PartialEq, Eq, Structural, Debug)]
pub enum ScriptError {
    /// The script file does not exist; no remote call was attempted.
    ScriptFileMissing,
    /// The session bus could not be reached.
    BusConnection,
    /// The remote proxy could not be constructed.
    ProxyCreation,
    /// The compositor rejected or failed a remote call.
    RemoteCall,
}

/// A step of the load/start protocol: either the outside action that is
/// pending, or a terminal outcome.
#[derive(Clone, Copy, PartialEq, Eq, Structural, Debug)]
pub enum LoadStartStep {
    /// Pending action: does the script file exist?
    CheckFile,
    /// Pending action: connect to the session bus.
    Connect,
    /// Pending action: build the proxy for the scripting interface.
    MakeProxy,
    /// Pending action: issue the "loadScript" remote call.
    CallLoadScript,
    /// Pending action: issue the "start" remote call.
    CallStart,
    /// Terminal: the script was loaded and started.
    Succeeded,
    /// Terminal: the operation failed.
    Failed(ScriptError),
}

/// The outcome of one outside action of the load/start protocol.
#[derive(Clone, Copy, PartialEq, Eq, Structural, Debug)]
pub enum LoadStartEvent {
    /// Whether the script file exists.
    FileChecked(bool),
    /// Whether the session bus connection was acquired.
    ConnectFinished(bool),
    /// Whether the remote proxy was constructed.
    ProxyFinished(bool),
    /// The script identifier returned by "loadScript", or None if the
    /// remote call failed.
    LoadFinished(Option<i32>),
    /// Whether the "start" remote call succeeded.
    StartFinished(bool),
}

/// Whether an event reports the outcome of the action that the step asks
/// for. Terminal steps ask for nothing, so no event matches them.
pub open spec fn load_start_matches(s: LoadStartStep, e: LoadStartEvent) -> bool {
    match (s, e) {
        (LoadStartStep::CheckFile, LoadStartEvent::FileChecked(_)) => true,
        (LoadStartStep::Connect, LoadStartEvent::ConnectFinished(_)) => true,
        (LoadStartStep::MakeProxy, LoadStartEvent::ProxyFinished(_)) => true,
        (LoadStartStep::CallLoadScript, LoadStartEvent::LoadFinished(_)) => true,
        (LoadStartStep::CallStart, LoadStartEvent::StartFinished(_)) => true,
        _ => false,
    }
}

/// The transition relation of the load/start protocol. A step with a
/// non-matching event stays where it is; in particular a terminal step
/// absorbs every event.
pub open spec fn load_start_next_spec(s: LoadStartStep, e: LoadStartEvent) -> LoadStartStep {
    match (s, e) {
        (LoadStartStep::CheckFile, LoadStartEvent::FileChecked(exists)) => if exists {
            LoadStartStep::Connect
        } else {
            LoadStartStep::Failed(ScriptError::ScriptFileMissing)
        },
        (LoadStartStep::Connect, LoadStartEvent::ConnectFinished(ok)) => if ok {
            LoadStartStep::MakeProxy
        } else {
            LoadStartStep::Failed(ScriptError::BusConnection)
        },
        (LoadStartStep::MakeProxy, LoadStartEvent::ProxyFinished(ok)) => if ok {
            LoadStartStep::CallLoadScript
        } else {
            LoadStartStep::Failed(ScriptError::ProxyCreation)
        },
        (LoadStartStep::CallLoadScript, LoadStartEvent::LoadFinished(id)) => if id is Some {
            LoadStartStep::CallStart
        } else {
            LoadStartStep::Failed(ScriptError::RemoteCall)
        },
        (LoadStartStep::CallStart, LoadStartEvent::StartFinished(ok)) => if ok {
            LoadStartStep::Succeeded
        } else {
            LoadStartStep::Failed(ScriptError::RemoteCall)
        },
        _ => s,
    }
}

/// The first step of the load/start protocol: the local file check comes
/// before any bus access.
pub fn load_start_initial() -> (r: LoadStartStep)
    ensures
        r == LoadStartStep::CheckFile,
{
    LoadStartStep::CheckFile
}

/// Whether the event matches the pending action, decided at run time for
/// callers that drive the protocol.
pub fn load_start_event_matches(s: LoadStartStep, e: LoadStartEvent) -> (r: bool)
    ensures
        r == load_start_matches(s, e),
{
    match (s, e) {
        (LoadStartStep::CheckFile, LoadStartEvent::FileChecked(_)) => true,
        (LoadStartStep::Connect, LoadStartEvent::ConnectFinished(_)) => true,
        (LoadStartStep::MakeProxy, LoadStartEvent::ProxyFinished(_)) => true,
        (LoadStartStep::CallLoadScript, LoadStartEvent::LoadFinished(_)) => true,
        (LoadStartStep::CallStart, LoadStartEvent::StartFinished(_)) => true,
        _ => false,
    }
}

/// Advances the load/start protocol by one observed outcome.
pub fn load_start_next(s: LoadStartStep, e: LoadStartEvent) -> (r: LoadStartStep)
    requires
        load_start_matches(s, e),
    ensures
        r == load_start_next_spec(s, e),
{
    match (s, e) {
        (LoadStartStep::CheckFile, LoadStartEvent::FileChecked(exists)) => if exists {
            LoadStartStep::Connect
        } else {
            LoadStartStep::Failed(ScriptError::ScriptFileMissing)
        },
        (LoadStartStep::Connect, LoadStartEvent::ConnectFinished(ok)) => if ok {
            LoadStartStep::MakeProxy
        } else {
            LoadStartStep::Failed(ScriptError::BusConnection)
        },
        (LoadStartStep::MakeProxy, LoadStartEvent::ProxyFinished(ok)) => if ok {
            LoadStartStep::CallLoadScript
        } else {
            LoadStartStep::Failed(ScriptError::ProxyCreation)
        },
        (LoadStartStep::CallLoadScript, LoadStartEvent::LoadFinished(id)) => if id.is_some() {
            LoadStartStep::CallStart
        } else {
            LoadStartStep::Failed(ScriptError::RemoteCall)
        },
        (LoadStartStep::CallStart, LoadStartEvent::StartFinished(ok)) => if ok {
            LoadStartStep::Succeeded
        } else {
            LoadStartStep::Failed(ScriptError::RemoteCall)
        },
        _ => s,
    }
}

/// Whether a step is terminal: the protocol asks for no further action.
pub open spec fn load_start_done(s: LoadStartStep) -> bool {
    s is Succeeded || s is Failed
}

/// Whether a step's pending action touches the session bus.
pub open spec fn load_start_bus_step(s: LoadStartStep) -> bool {
    s is Connect || s is MakeProxy || s is CallLoadScript || s is CallStart
}

/// Whether the load/start protocol is done and how it ended.
pub fn load_start_outcome(s: LoadStartStep) -> (r: Option<Result<(), ScriptError>>)
    ensures
        s is Succeeded ==> r == Some(Ok::<(), ScriptError>(())),
        s matches LoadStartStep::Failed(e) ==> r == Some(Err::<(), ScriptError>(e)),
        !load_start_done(s) ==> r is None,
{
    match s {
        LoadStartStep::Succeeded => Some(Ok(())),
        LoadStartStep::Failed(e) => Some(Err(e)),
        _ => None,
    }
}

/// The step reached from the start of the load/start protocol after the
/// given outcomes, in order.
pub open spec fn load_start_run(events: Seq<LoadStartEvent>) -> LoadStartStep
    decreases events.len(),
{
    if events.len() == 0 {
        LoadStartStep::CheckFile
    } else {
        load_start_next_spec(load_start_run(events.drop_last()), events.last())
    }
}

/// Whether each outcome in a run answers the action that was pending when
/// it arrived.
pub open spec fn load_start_valid_run(events: Seq<LoadStartEvent>) -> bool
    decreases events.len(),
{
    if events.len() == 0 {
        true
    } else {
        load_start_valid_run(events.drop_last()) && load_start_matches(
            load_start_run(events.drop_last()),
            events.last(),
        )
    }
}

/// Law: a missing script file short-circuits the whole operation. If the
/// very first outcome reports that the file does not exist, then after any
/// further outcomes whatsoever the protocol stands at the missing-file
/// failure — in particular no run with that first outcome ever reaches a
/// step that touches the session bus.
pub proof fn lemma_missing_file_short_circuits(events: Seq<LoadStartEvent>)
    requires
        events.len() > 0,
        events[0] == LoadStartEvent::FileChecked(false),
    ensures
        load_start_run(events) == LoadStartStep::Failed(ScriptError::ScriptFileMissing),
        !load_start_bus_step(load_start_run(events)),
    decreases events.len(),
{
    if events.len() == 1 {
        assert(events.drop_last().len() == 0);
    } else {
        assert(events.drop_last()[0] == events[0]);
        lemma_missing_file_short_circuits(events.drop_last());
    }
}

/// A step of the unload protocol: either the outside action that is
/// pending, or a terminal outcome. There is no local precondition check;
/// unloading when nothing is loaded is the compositor's concern.
#[derive(Clone, Copy, PartialEq, Eq, Structural, Debug)]
pub enum UnloadStep {
    /// Pending action: connect to the session bus.
    Connect,
    /// Pending action: build the proxy for the scripting interface.
    MakeProxy,
    /// Pending action: issue the "unloadScript" remote call.
    CallUnload,
    /// Terminal: the round trip completed.
    Succeeded,
    /// Terminal: the operation failed.
    Failed(ScriptError),
}

/// The outcome of one outside action of the unload protocol.
#[derive(Clone, Copy, PartialEq, Eq, Structural, Debug)]
pub enum UnloadEvent {
    /// Whether the session bus connection was acquired.
    ConnectFinished(bool),
    /// Whether the remote proxy was constructed.
    ProxyFinished(bool),
    /// The boolean payload returned by "unloadScript", or None if the
    /// round trip itself failed.
    UnloadFinished(Option<bool>),
}

/// Whether an event reports the outcome of the action that the step asks
/// for.
pub open spec fn unload_matches(s: UnloadStep, e: UnloadEvent) -> bool {
    match (s, e) {
        (UnloadStep::Connect, UnloadEvent::ConnectFinished(_)) => true,
        (UnloadStep::MakeProxy, UnloadEvent::ProxyFinished(_)) => true,
        (UnloadStep::CallUnload, UnloadEvent::UnloadFinished(_)) => true,
        _ => false,
    }
}

/// The transition relation of the unload protocol. Any completed round
/// trip of the "unloadScript" call counts as success — its boolean payload
/// is not inspected — while any transport failure is a failure.
pub open spec fn unload_next_spec(s: UnloadStep, e: UnloadEvent) -> UnloadStep {
    match (s, e) {
        (UnloadStep::Connect, UnloadEvent::ConnectFinished(ok)) => if ok {
            UnloadStep::MakeProxy
        } else {
            UnloadStep::Failed(ScriptError::BusConnection)
        },
        (UnloadStep::MakeProxy, UnloadEvent::ProxyFinished(ok)) => if ok {
            UnloadStep::CallUnload
        } else {
            UnloadStep::Failed(ScriptError::ProxyCreation)
        },
        (UnloadStep::CallUnload, UnloadEvent::UnloadFinished(payload)) => if payload is Some {
            UnloadStep::Succeeded
        } else {
            UnloadStep::Failed(ScriptError::RemoteCall)
        },
        _ => s,
    }
}

/// The first step of the unload protocol.
pub fn unload_initial() -> (r: UnloadStep)
    ensures
        r == UnloadStep::Connect,
{
    UnloadStep::Connect
}

/// Whether the event matches the pending action, decided at run time for
/// callers that drive the protocol.
pub fn unload_event_matches(s: UnloadStep, e: UnloadEvent) -> (r: bool)
    ensures
        r == unload_matches(s, e),
{
    match (s, e) {
        (UnloadStep::Connect, UnloadEvent::ConnectFinished(_)) => true,
        (UnloadStep::MakeProxy, UnloadEvent::ProxyFinished(_)) => true,
        (UnloadStep::CallUnload, UnloadEvent::UnloadFinished(_)) => true,
        _ => false,
    }
}

/// Advances the unload protocol by one observed outcome.
pub fn unload_next(s: UnloadStep, e: UnloadEvent) -> (r: UnloadStep)
    requires
        unload_matches(s, e),
    ensures
        r == unload_next_spec(s, e),
{
    match (s, e) {
        (UnloadStep::Connect, UnloadEvent::ConnectFinished(ok)) => if ok {
            UnloadStep::MakeProxy
        } else {
            UnloadStep::Failed(ScriptError::BusConnection)
        },
        (UnloadStep::MakeProxy, UnloadEvent::ProxyFinished(ok)) => if ok {
            UnloadStep::CallUnload
        } else {
            UnloadStep::Failed(ScriptError::ProxyCreation)
        },
        (UnloadStep::CallUnload, UnloadEvent::UnloadFinished(payload)) => if payload.is_some() {
            UnloadStep::Succeeded
        } else {
            UnloadStep::Failed(ScriptError::RemoteCall)
        },
        _ => s,
    }
}

/// Whether a step is terminal.
pub open spec fn unload_done(s: UnloadStep) -> bool {
    s is Succeeded || s is Failed
}

/// Whether the unload protocol is done and how it ended.
pub fn unload_outcome(s: UnloadStep) -> (r: Option<Result<(), ScriptError>>)
    ensures
        s is Succeeded ==> r == Some(Ok::<(), ScriptError>(())),
        s matches UnloadStep::Failed(e) ==> r == Some(Err::<(), ScriptError>(e)),
        !unload_done(s) ==> r is None,
{
    match s {
        UnloadStep::Succeeded => Some(Ok(())),
        UnloadStep::Failed(e) => Some(Err(e)),
        _ => None,
    }
}

/// Law: the payload of a completed "unloadScript" round trip is never
/// inspected — a reply of false succeeds exactly as a reply of true does —
/// while a failed round trip fails the operation.
pub proof fn lemma_unload_payload_not_inspected(payload: bool)
    ensures
        unload_next_spec(UnloadStep::CallUnload, UnloadEvent::UnloadFinished(Some(payload)))
            == UnloadStep::Succeeded,
        unload_next_spec(UnloadStep::CallUnload, UnloadEvent::UnloadFinished(None))
            == UnloadStep::Failed(ScriptError::RemoteCall),
{
}

/// Law: every transport failure fails the unload operation — no step of
/// the unload protocol absorbs a failed outcome.
pub proof fn lemma_unload_transport_error_fails()
    ensures
        unload_next_spec(UnloadStep::Connect, UnloadEvent::ConnectFinished(false))
            == UnloadStep::Failed(ScriptError::BusConnection),
        unload_next_spec(UnloadStep::MakeProxy, UnloadEvent::ProxyFinished(false))
            == UnloadStep::Failed(ScriptError::ProxyCreation),
        unload_next_spec(UnloadStep::CallUnload, UnloadEvent::UnloadFinished(None))
            == UnloadStep::Failed(ScriptError::RemoteCall),
{
}

/// The step reached from the start of the unload protocol after the given
/// outcomes, in order.
pub open spec fn unload_run(events: Seq<UnloadEvent>) -> UnloadStep
    decreases events.len(),
{
    if events.len() == 0 {
        UnloadStep::Connect
    } else {
        unload_next_spec(unload_run(events.drop_last()), events.last())
    }
}

/// Whether each outcome in a run answers the action that was pending when
/// it arrived.
pub open spec fn unload_valid_run(events: Seq<UnloadEvent>) -> bool
    decreases events.len(),
{
    if events.len() == 0 {
        true
    } else {
        unload_valid_run(events.drop_last()) && unload_matches(
            unload_run(events.drop_last()),
            events.last(),
        )
    }
}

/// Unfolds a non-empty valid unload run by one step.
proof fn lemma_unload_run_unfold(events: Seq<UnloadEvent>)
    requires
        unload_valid_run(events),
        events.len() > 0,
    ensures
        unload_valid_run(events.drop_last()),
        unload_matches(unload_run(events.drop_last()), events.last()),
        unload_run(events) == unload_next_spec(unload_run(events.drop_last()), events.last()),
{
}

/// Law: an unload succeeds exactly through a complete round trip — the bus
/// was reached, the proxy was built, and the "unloadScript" call came back
/// with some boolean payload. No transport failure appears anywhere in a
/// successful run, and which payload came back plays no part.
pub proof fn lemma_unload_success_is_a_round_trip(events: Seq<UnloadEvent>)
    requires
        unload_valid_run(events),
        unload_run(events) == UnloadStep::Succeeded,
    ensures
        events.len() == 3,
        events[0] == UnloadEvent::ConnectFinished(true),
        events[1] == UnloadEvent::ProxyFinished(true),
        exists|payload: bool| events[2] == UnloadEvent::UnloadFinished(Some(payload)),
{
    if events.len() == 0 {
        assert(false);
    }
    lemma_unload_run_unfold(events);
    let e2 = events.drop_last();
    assert(unload_run(e2) == UnloadStep::CallUnload);
    match events.last() {
        UnloadEvent::UnloadFinished(payload) => {
            assert(payload is Some);
            assert(events.last() == UnloadEvent::UnloadFinished(Some(payload->0)));
        },
        _ => {
            assert(false);
        },
    }
    if e2.len() == 0 {
        assert(false);
    }
    lemma_unload_run_unfold(e2);
    let e1 = e2.drop_last();
    assert(unload_run(e1) == UnloadStep::MakeProxy);
    assert(e2.last() == UnloadEvent::ProxyFinished(true));
    if e1.len() == 0 {
        assert(false);
    }
    lemma_unload_run_unfold(e1);
    let e0 = e1.drop_last();
    assert(unload_run(e0) == UnloadStep::Connect);
    assert(e1.last() == UnloadEvent::ConnectFinished(true));
    if e0.len() > 0 {
        lemma_unload_run_unfold(e0);
        assert(false);
    }
    assert(events.len() == 3);
    assert(events[2] == events.last());
    assert(events[1] == e2.last());
    assert(events[0] == e1.last());
}

/// Unfolds a non-empty valid run by one step.
proof fn lemma_run_unfold(events: Seq<LoadStartEvent>)
    requires
        load_start_valid_run(events),
        events.len() > 0,
    ensures
        load_start_valid_run(events.drop_last()),
        load_start_matches(load_start_run(events.drop_last()), events.last()),
        load_start_run(events) == load_start_next_spec(
            load_start_run(events.drop_last()),
            events.last(),
        ),
{
}

/// In a valid run, every non-initial step is the result of a matching
/// transition, so the initial step is reached only by the empty run.
proof fn lemma_check_file_only_initially(events: Seq<LoadStartEvent>)
    requires
        load_start_valid_run(events),
        load_start_run(events) == LoadStartStep::CheckFile,
    ensures
        events.len() == 0,
{
    if events.len() > 0 {
        lemma_run_unfold(events);
        assert(false);
    }
}

/// Law: the "start" call is only ever pending right after a successful
/// "loadScript" call. In any run whose outcomes each answer the pending
/// action, reaching the start step means the last outcome was a load that
/// returned a script identifier.
pub proof fn lemma_start_only_after_successful_load(events: Seq<LoadStartEvent>)
    requires
        load_start_valid_run(events),
        load_start_run(events) == LoadStartStep::CallStart,
    ensures
        events.len() > 0,
        load_start_run(events.drop_last()) == LoadStartStep::CallLoadScript,
        exists|id: i32| events.last() == LoadStartEvent::LoadFinished(Some(id)),
{
    if events.len() == 0 {
        assert(false);
    }
    lemma_run_unfold(events);
    let prev = load_start_run(events.drop_last());
    let e = events.last();
    match (prev, e) {
        (LoadStartStep::CallLoadScript, LoadStartEvent::LoadFinished(id)) => {
            assert(id is Some);
            assert(e == LoadStartEvent::LoadFinished(Some(id->0)));
        },
        _ => {
            assert(false);
        },
    }
}

/// Law: the only way the load/start protocol succeeds is the full,
/// in-order protocol — the file existed, the bus was reached, the proxy
/// was built, "loadScript" returned an identifier, and "start" succeeded.
pub proof fn lemma_success_needs_full_protocol(events: Seq<LoadStartEvent>)
    requires
        load_start_valid_run(events),
        load_start_run(events) == LoadStartStep::Succeeded,
    ensures
        events.len() == 5,
        events[0] == LoadStartEvent::FileChecked(true),
        events[1] == LoadStartEvent::ConnectFinished(true),
        events[2] == LoadStartEvent::ProxyFinished(true),
        exists|id: i32| events[3] == LoadStartEvent::LoadFinished(Some(id)),
        events[4] == LoadStartEvent::StartFinished(true),
{
    if events.len() == 0 {
        assert(false);
    }
    lemma_run_unfold(events);
    let e4 = events.drop_last();
    assert(load_start_run(e4) == LoadStartStep::CallStart);
    assert(events.last() == LoadStartEvent::StartFinished(true));
    lemma_start_only_after_successful_load(e4);
    let e3 = e4.drop_last();
    lemma_run_unfold(e4);
    assert(load_start_run(e3) == LoadStartStep::CallLoadScript);
    if e3.len() == 0 {
        assert(false);
    }
    lemma_run_unfold(e3);
    let e2 = e3.drop_last();
    assert(load_start_run(e2) == LoadStartStep::MakeProxy);
    assert(e3.last() == LoadStartEvent::ProxyFinished(true));
    if e2.len() == 0 {
        assert(false);
    }
    lemma_run_unfold(e2);
    let e1 = e2.drop_last();
    assert(load_start_run(e1) == LoadStartStep::Connect);
    assert(e2.last() == LoadStartEvent::ConnectFinished(true));
    if e1.len() == 0 {
        assert(false);
    }
    lemma_run_unfold(e1);
    let e0 = e1.drop_last();
    assert(load_start_run(e0) == LoadStartStep::CheckFile);
    assert(e1.last() == LoadStartEvent::FileChecked(true));
    lemma_check_file_only_initially(e0);
    assert(events.len() == 5);
    assert(events[4] == events.last());
    assert(events[3] == e4.last());
    assert(events[2] == e3.last());
    assert(events[1] == e2.last());
    assert(events[0] == e1.last());
}

} // verus!
