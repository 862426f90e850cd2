use bluetooth::session::{ScanAction, ScanEvent, ScanFault, ScanLog, ScanPhase, ScanSession};

fn run(events: Vec<ScanEvent>) -> (ScanSession, Vec<ScanLog>, Vec<ScanAction>) {
    let (mut session, first) = ScanSession::start();
    let mut logs = Vec::new();
    let mut actions = vec![first];
    for e in events {
        assert!(session.accepts(&e), "event {e:?} in phase {:?}", session.phase);
        let step = session.step(e);
        logs.extend(step.logs);
        actions.push(step.action);
    }
    (session, logs, actions)
}

#[test]
fn no_adapters_finishes_ok() {
    let (s, logs, actions) = run(vec![ScanEvent::ManagerReady, ScanEvent::AdaptersFound(0)]);
    assert_eq!(s.phase, ScanPhase::Finished);
    assert_eq!(logs, vec![ScanLog::NoAdapters]);
    assert_eq!(
        actions,
        vec![ScanAction::CreateManager, ScanAction::ListAdapters, ScanAction::Finish(Ok(()))]
    );
}

#[test]
fn adapter_without_peripherals_scans_ten_seconds() {
    let (s, logs, actions) = run(vec![
        ScanEvent::ManagerReady,
        ScanEvent::AdaptersFound(1),
        ScanEvent::AdapterInfo("hci0".to_string()),
        ScanEvent::ScanStarted,
        ScanEvent::Slept,
        ScanEvent::PeripheralsFound(0),
    ]);
    assert_eq!(s.phase, ScanPhase::Finished);
    assert_eq!(logs, vec![ScanLog::StartingScan("hci0".to_string()), ScanLog::NoPeripherals]);
    assert_eq!(
        actions,
        vec![
            ScanAction::CreateManager,
            ScanAction::ListAdapters,
            ScanAction::QueryAdapterInfo { adapter: 0 },
            ScanAction::StartScan { adapter: 0 },
            ScanAction::Wait { seconds: 10 },
            ScanAction::ListPeripherals { adapter: 0 },
            ScanAction::Finish(Ok(())),
        ]
    );
}

#[test]
fn disconnected_peripheral_is_connected_then_disconnected() {
    let (s, logs, actions) = run(vec![
        ScanEvent::ManagerReady,
        ScanEvent::AdaptersFound(1),
        ScanEvent::AdapterInfo("hci0".to_string()),
        ScanEvent::ScanStarted,
        ScanEvent::Slept,
        ScanEvent::PeripheralsFound(1),
        ScanEvent::Properties(Some(Some("Band".to_string()))),
        ScanEvent::Connected(false),
        ScanEvent::ConnectDone,
        ScanEvent::Connected(true),
        ScanEvent::ServicesDiscovered,
        ScanEvent::ServicesReported,
        ScanEvent::DisconnectDone,
    ]);
    assert_eq!(s.phase, ScanPhase::Finished);
    let name = "Band".to_string();
    assert_eq!(
        logs,
        vec![
            ScanLog::StartingScan("hci0".to_string()),
            ScanLog::PeripheralState { name: name.clone(), connected: false },
            ScanLog::Connecting(name.clone()),
            ScanLog::NowConnected { connected: true, name: name.clone() },
            ScanLog::DiscoveringServices(name.clone()),
            ScanLog::Disconnecting(name),
        ]
    );
    assert_eq!(
        &actions[6..],
        &[
            ScanAction::QueryProperties { adapter: 0, peripheral: 0 },
            ScanAction::QueryConnection { adapter: 0, peripheral: 0 },
            ScanAction::Connect { adapter: 0, peripheral: 0 },
            ScanAction::QueryConnection { adapter: 0, peripheral: 0 },
            ScanAction::DiscoverServices { adapter: 0, peripheral: 0 },
            ScanAction::ReportServices { adapter: 0, peripheral: 0 },
            ScanAction::Disconnect { adapter: 0, peripheral: 0 },
            ScanAction::Finish(Ok(())),
        ]
    );
}

#[test]
fn failed_connection_skips_to_the_next_peripheral() {
    let (_, logs, actions) = run(vec![
        ScanEvent::ManagerReady,
        ScanEvent::AdaptersFound(1),
        ScanEvent::AdapterInfo("hci0".to_string()),
        ScanEvent::ScanStarted,
        ScanEvent::Slept,
        ScanEvent::PeripheralsFound(2),
        ScanEvent::Properties(Some(None)),
        ScanEvent::Connected(false),
        ScanEvent::ConnectFailed("timeout".to_string()),
    ]);
    assert_eq!(logs[1], ScanLog::PeripheralState {
        name: "(peripheral name unknown)".to_string(),
        connected: false
    });
    assert_eq!(logs.last(), Some(&ScanLog::ConnectError("timeout".to_string())));
    assert_eq!(actions.last(), Some(&ScanAction::QueryProperties { adapter: 0, peripheral: 1 }));
}

#[test]
fn connected_peripheral_is_not_reconnected_but_is_disconnected() {
    let (_, logs, actions) = run(vec![
        ScanEvent::ManagerReady,
        ScanEvent::AdaptersFound(2),
        ScanEvent::AdapterInfo("hci0".to_string()),
        ScanEvent::ScanStarted,
        ScanEvent::Slept,
        ScanEvent::PeripheralsFound(1),
        ScanEvent::Properties(Some(Some("Pad".to_string()))),
        ScanEvent::Connected(true),
        ScanEvent::Connected(true),
        ScanEvent::ServicesDiscovered,
        ScanEvent::ServicesReported,
        ScanEvent::DisconnectDone,
    ]);
    assert!(!actions.iter().any(|a| matches!(a, ScanAction::Connect { .. })));
    assert!(logs.contains(&ScanLog::Disconnecting("Pad".to_string())));
    assert_eq!(actions.last(), Some(&ScanAction::QueryAdapterInfo { adapter: 1 }));
}

#[test]
fn peripheral_still_disconnected_is_left_alone() {
    let (s, _, actions) = run(vec![
        ScanEvent::ManagerReady,
        ScanEvent::AdaptersFound(1),
        ScanEvent::AdapterInfo("hci0".to_string()),
        ScanEvent::ScanStarted,
        ScanEvent::Slept,
        ScanEvent::PeripheralsFound(1),
        ScanEvent::Properties(Some(Some("Tag".to_string()))),
        ScanEvent::Connected(false),
        ScanEvent::ConnectDone,
        ScanEvent::Connected(false),
        ScanEvent::ServicesDiscovered,
        ScanEvent::ServicesReported,
    ]);
    assert_eq!(s.phase, ScanPhase::Finished);
    assert!(!actions.iter().any(|a| matches!(a, ScanAction::Disconnect { .. })));
    assert_eq!(actions.last(), Some(&ScanAction::Finish(Ok(()))));
}

#[test]
fn failures_end_the_run_with_their_error() {
    let (s, logs, actions) = run(vec![ScanEvent::Failed("no manager".to_string())]);
    assert_eq!(s.phase, ScanPhase::Finished);
    assert!(logs.is_empty());
    assert_eq!(actions.last(), Some(&ScanAction::Finish(Err("no manager".to_string()))));

    let (_, _, actions) = run(vec![
        ScanEvent::ManagerReady,
        ScanEvent::AdaptersFound(1),
        ScanEvent::AdapterInfo("hci0".to_string()),
        ScanEvent::ScanStarted,
        ScanEvent::Slept,
        ScanEvent::PeripheralsFound(1),
        ScanEvent::Properties(Some(None)),
        ScanEvent::Failed("gone".to_string()),
    ]);
    assert_eq!(actions.last(), Some(&ScanAction::Finish(Err("gone".to_string()))));
}

#[test]
fn faults_abort_the_run() {
    let (s, _, actions) = run(vec![
        ScanEvent::ManagerReady,
        ScanEvent::AdaptersFound(1),
        ScanEvent::AdapterInfo("hci0".to_string()),
        ScanEvent::ScanStartFailed,
    ]);
    assert_eq!(s.phase, ScanPhase::Finished);
    assert_eq!(actions.last(), Some(&ScanAction::Abort(ScanFault::ScanStart)));

    let (_, _, actions) = run(vec![
        ScanEvent::ManagerReady,
        ScanEvent::AdaptersFound(1),
        ScanEvent::AdapterInfo("hci0".to_string()),
        ScanEvent::ScanStarted,
        ScanEvent::Slept,
        ScanEvent::PeripheralsFound(1),
        ScanEvent::Properties(None),
        ScanEvent::Connected(true),
    ]);
    assert_eq!(actions.last(), Some(&ScanAction::Abort(ScanFault::MissingProperties)));

    let (_, _, actions) = run(vec![
        ScanEvent::ManagerReady,
        ScanEvent::AdaptersFound(1),
        ScanEvent::AdapterInfo("hci0".to_string()),
        ScanEvent::ScanStarted,
        ScanEvent::Slept,
        ScanEvent::PeripheralsFound(1),
        ScanEvent::Properties(Some(None)),
        ScanEvent::Connected(true),
        ScanEvent::Connected(true),
        ScanEvent::ServicesDiscovered,
        ScanEvent::ServicesReported,
        ScanEvent::DisconnectFailed,
    ]);
    assert_eq!(actions.last(), Some(&ScanAction::Abort(ScanFault::Disconnect)));
}

#[test]
fn finished_session_accepts_nothing() {
    let (s, _, _) = run(vec![ScanEvent::ManagerReady, ScanEvent::AdaptersFound(0)]);
    assert!(!s.accepts(&ScanEvent::ManagerReady));
    assert!(!s.accepts(&ScanEvent::Failed("x".to_string())));
    let (fresh, _) = ScanSession::start();
    assert!(!fresh.accepts(&ScanEvent::Slept));
    assert!(fresh.accepts(&ScanEvent::ManagerReady));
}

#[test]
fn two_adapters_visit_every_peripheral_in_order() {
    let (s, logs, actions) = run(vec![
        ScanEvent::ManagerReady,
        ScanEvent::AdaptersFound(2),
        ScanEvent::AdapterInfo("hci0".to_string()),
        ScanEvent::ScanStarted,
        ScanEvent::Slept,
        ScanEvent::PeripheralsFound(2),
        ScanEvent::Properties(Some(Some("A".to_string()))),
        ScanEvent::Connected(true),
        ScanEvent::Connected(true),
        ScanEvent::ServicesDiscovered,
        ScanEvent::ServicesReported,
        ScanEvent::DisconnectDone,
        ScanEvent::Properties(Some(Some("B".to_string()))),
        ScanEvent::Connected(false),
        ScanEvent::ConnectFailed("refused".to_string()),
        ScanEvent::AdapterInfo("hci1".to_string()),
        ScanEvent::ScanStarted,
        ScanEvent::Slept,
        ScanEvent::PeripheralsFound(0),
    ]);
    assert_eq!(s.phase, ScanPhase::Finished);
    assert_eq!(actions.last(), Some(&ScanAction::Finish(Ok(()))));
    assert!(logs.contains(&ScanLog::StartingScan("hci1".to_string())));
    assert!(logs.contains(&ScanLog::ConnectError("refused".to_string())));
    let counts_per_adapter = [2usize, 0];
    for a in &actions {
        match a {
            ScanAction::QueryAdapterInfo { adapter }
            | ScanAction::StartScan { adapter }
            | ScanAction::ListPeripherals { adapter } => assert!(*adapter < 2),
            ScanAction::QueryProperties { adapter, peripheral }
            | ScanAction::QueryConnection { adapter, peripheral }
            | ScanAction::Connect { adapter, peripheral }
            | ScanAction::DiscoverServices { adapter, peripheral }
            | ScanAction::ReportServices { adapter, peripheral }
            | ScanAction::Disconnect { adapter, peripheral } => {
                assert!(*adapter < 2);
                assert!(*peripheral < counts_per_adapter[*adapter]);
            }
            _ => {}
        }
    }
    let properties: Vec<usize> = actions
        .iter()
        .filter_map(|a| match a {
            ScanAction::QueryProperties { peripheral, .. } => Some(*peripheral),
            _ => None,
        })
        .collect();
    assert_eq!(properties, vec![0, 1]);
}
