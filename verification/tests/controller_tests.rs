use partydeck::controller::{
    kwin_service, load_script_method, load_start_event_matches, load_start_initial,
    load_start_next, load_start_outcome, script_name, scripting_interface, scripting_object_path,
    start_method, unload_event_matches, unload_initial, unload_next, unload_outcome,
    unload_script_method, LoadStartEvent, LoadStartStep, ScriptError, UnloadEvent, UnloadStep,
};

#[test]
fn missing_script_file_fails_before_any_bus_step() {
    let s0 = load_start_initial();
    assert_eq!(s0, LoadStartStep::CheckFile);
    assert_eq!(load_start_outcome(s0), None);
    let s1 = load_start_next(s0, LoadStartEvent::FileChecked(false));
    assert_eq!(s1, LoadStartStep::Failed(ScriptError::ScriptFileMissing));
    assert_eq!(
        load_start_outcome(s1),
        Some(Err(ScriptError::ScriptFileMissing))
    );
    // the protocol is finished: no event answers a terminal step
    assert!(!load_start_event_matches(
        s1,
        LoadStartEvent::ConnectFinished(true)
    ));
    assert!(!load_start_event_matches(
        s1,
        LoadStartEvent::LoadFinished(Some(1))
    ));
}

#[test]
fn successful_load_and_start() {
    let mut s = load_start_initial();
    s = load_start_next(s, LoadStartEvent::FileChecked(true));
    assert_eq!(s, LoadStartStep::Connect);
    s = load_start_next(s, LoadStartEvent::ConnectFinished(true));
    assert_eq!(s, LoadStartStep::MakeProxy);
    s = load_start_next(s, LoadStartEvent::ProxyFinished(true));
    assert_eq!(s, LoadStartStep::CallLoadScript);
    s = load_start_next(s, LoadStartEvent::LoadFinished(Some(7)));
    assert_eq!(s, LoadStartStep::CallStart);
    s = load_start_next(s, LoadStartEvent::StartFinished(true));
    assert_eq!(s, LoadStartStep::Succeeded);
    assert_eq!(load_start_outcome(s), Some(Ok(())));
}

#[test]
fn failed_load_never_reaches_start() {
    let mut s = load_start_initial();
    s = load_start_next(s, LoadStartEvent::FileChecked(true));
    s = load_start_next(s, LoadStartEvent::ConnectFinished(true));
    s = load_start_next(s, LoadStartEvent::ProxyFinished(true));
    s = load_start_next(s, LoadStartEvent::LoadFinished(None));
    assert_eq!(s, LoadStartStep::Failed(ScriptError::RemoteCall));
    assert_ne!(s, LoadStartStep::CallStart);
    assert!(!load_start_event_matches(
        s,
        LoadStartEvent::StartFinished(true)
    ));
}

#[test]
fn bus_connection_failure_fails_load_and_start() {
    let mut s = load_start_initial();
    s = load_start_next(s, LoadStartEvent::FileChecked(true));
    s = load_start_next(s, LoadStartEvent::ConnectFinished(false));
    assert_eq!(s, LoadStartStep::Failed(ScriptError::BusConnection));
}

#[test]
fn proxy_failure_fails_load_and_start() {
    let mut s = load_start_initial();
    s = load_start_next(s, LoadStartEvent::FileChecked(true));
    s = load_start_next(s, LoadStartEvent::ConnectFinished(true));
    s = load_start_next(s, LoadStartEvent::ProxyFinished(false));
    assert_eq!(s, LoadStartStep::Failed(ScriptError::ProxyCreation));
}

#[test]
fn failed_start_call_fails_the_operation() {
    let mut s = load_start_initial();
    s = load_start_next(s, LoadStartEvent::FileChecked(true));
    s = load_start_next(s, LoadStartEvent::ConnectFinished(true));
    s = load_start_next(s, LoadStartEvent::ProxyFinished(true));
    s = load_start_next(s, LoadStartEvent::LoadFinished(Some(3)));
    s = load_start_next(s, LoadStartEvent::StartFinished(false));
    assert_eq!(s, LoadStartStep::Failed(ScriptError::RemoteCall));
}

#[test]
fn unload_false_payload_still_succeeds() {
    let mut s = unload_initial();
    s = unload_next(s, UnloadEvent::ConnectFinished(true));
    s = unload_next(s, UnloadEvent::ProxyFinished(true));
    assert_eq!(s, UnloadStep::CallUnload);
    s = unload_next(s, UnloadEvent::UnloadFinished(Some(false)));
    assert_eq!(s, UnloadStep::Succeeded);
    assert_eq!(unload_outcome(s), Some(Ok(())));
}

#[test]
fn unload_true_payload_succeeds_the_same_way() {
    let mut s = unload_initial();
    s = unload_next(s, UnloadEvent::ConnectFinished(true));
    s = unload_next(s, UnloadEvent::ProxyFinished(true));
    s = unload_next(s, UnloadEvent::UnloadFinished(Some(true)));
    assert_eq!(s, UnloadStep::Succeeded);
}

#[test]
fn unload_transport_errors_fail() {
    let s = unload_next(unload_initial(), UnloadEvent::ConnectFinished(false));
    assert_eq!(s, UnloadStep::Failed(ScriptError::BusConnection));

    let mut t = unload_initial();
    t = unload_next(t, UnloadEvent::ConnectFinished(true));
    t = unload_next(t, UnloadEvent::ProxyFinished(false));
    assert_eq!(t, UnloadStep::Failed(ScriptError::ProxyCreation));

    let mut u = unload_initial();
    u = unload_next(u, UnloadEvent::ConnectFinished(true));
    u = unload_next(u, UnloadEvent::ProxyFinished(true));
    u = unload_next(u, UnloadEvent::UnloadFinished(None));
    assert_eq!(u, UnloadStep::Failed(ScriptError::RemoteCall));
    assert_eq!(unload_outcome(u), Some(Err(ScriptError::RemoteCall)));
}

#[test]
fn event_matching_is_per_pending_action() {
    assert!(load_start_event_matches(
        LoadStartStep::CheckFile,
        LoadStartEvent::FileChecked(true)
    ));
    assert!(!load_start_event_matches(
        LoadStartStep::CheckFile,
        LoadStartEvent::StartFinished(true)
    ));
    assert!(unload_event_matches(
        UnloadStep::CallUnload,
        UnloadEvent::UnloadFinished(None)
    ));
    assert!(!unload_event_matches(
        UnloadStep::Connect,
        UnloadEvent::UnloadFinished(None)
    ));
}

#[test]
fn fixed_protocol_identity() {
    assert_eq!(kwin_service(), "org.kde.KWin");
    assert_eq!(scripting_object_path(), "/Scripting");
    assert_eq!(scripting_interface(), "org.kde.kwin.Scripting");
    assert_eq!(script_name(), "splitscreen");
    assert_eq!(load_script_method(), "loadScript");
    assert_eq!(start_method(), "start");
    assert_eq!(unload_script_method(), "unloadScript");
}
