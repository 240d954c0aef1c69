use tunnel_supervisor::bridge::{ends_stream, republish, route, Emission, OutputRecord};
use tunnel_supervisor::codec::Command;
use tunnel_supervisor::registry::Registry;
use tunnel_supervisor::supervisor::{command_line, server_args, started_event, WorkerKind};

fn out(line: &str) -> OutputRecord {
    OutputRecord::Stdout(line.to_string())
}

fn actions(emissions: &[Emission]) -> Vec<String> {
    emissions
        .iter()
        .map(|e| match e {
            Emission::Status(s) => s.action.clone(),
            Emission::Diagnostic(d) => format!("diag:{d}"),
            Emission::Terminated => "terminated".to_string(),
        })
        .collect()
}

#[test]
fn records_keep_their_order() {
    let records = vec![
        out("{\"action\":\"R1\"}"),
        out("{\"action\":\"R2\"}"),
        out("{\"action\":\"R3\"}"),
    ];
    assert_eq!(actions(&republish(&records)), vec!["R1", "R2", "R3"]);
}

#[test]
fn undecodable_lines_are_dropped() {
    let records = vec![out("noise"), out("{\"action\":\"R1\"}"), out("{\"x\":1}"), out("{\"action\":\"R2\"}")];
    assert_eq!(actions(&republish(&records)), vec!["R1", "R2"]);
}

#[test]
fn stderr_is_diagnostic_only() {
    let records = vec![OutputRecord::Stderr("warn".to_string()), out("{\"action\":\"R1\"}")];
    assert_eq!(actions(&republish(&records)), vec!["diag:warn", "R1"]);
}

#[test]
fn bridge_stops_at_termination() {
    let records = vec![
        out("{\"action\":\"R1\"}"),
        OutputRecord::Terminated(Some(0)),
        out("{\"action\":\"R2\"}"),
    ];
    assert_eq!(actions(&republish(&records)), vec!["R1", "terminated"]);
    assert!(ends_stream(&OutputRecord::Terminated(None)));
    assert!(!ends_stream(&out("x")));
}

#[test]
fn route_single_records() {
    assert!(route(&out("garbage")).is_none());
    assert!(matches!(route(&OutputRecord::Terminated(Some(1))), Some(Emission::Terminated)));
    match route(&out("{\"action\":\"LIST\",\"sessions\":[\"a\"]}")) {
        Some(Emission::Status(e)) => assert_eq!(e.sessions, Some(vec!["a".to_string()])),
        _ => panic!("expected a status event"),
    }
}

// A worker that prints one started record and exits 0: the caller gets the process id,
// observers see the start and then the end, and the slot stays occupied by the dead
// worker until an explicit stop, so a later command still finds a handle to write to.
#[test]
fn server_start_then_worker_exit() {
    assert_eq!(server_args(8080, "mesh-1"), vec!["--port", "8080", "--network", "mesh-1"]);
    let pid: u32 = 123;
    let mut registry: Registry<u32> = Registry::new();
    let started = started_event(pid, WorkerKind::Server);
    assert_eq!(started.started_info.as_ref().map(|i| i.process_id.as_str()), Some("123"));
    registry.install(pid);
    let records = vec![
        out("{\"action\":\"BACKEND_STARTED\",\"started_info\":{\"process_id\":\"123\",\"process_type\":\"server\"}}"),
        OutputRecord::Terminated(Some(0)),
    ];
    let emitted = republish(&records);
    assert_eq!(actions(&emitted), vec!["BACKEND_STARTED", "terminated"]);
    assert!(registry.is_running());
    let line = command_line(&registry, &Command::Disconnect { session_id: "abc".to_string() });
    assert_eq!(line.unwrap(), "{\"action\":\"DISCONNECT\",\"session_id\":\"abc\"}\n");
}
