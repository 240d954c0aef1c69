use vstd::prelude::*;

use crate::codec::{
    encode, encoded, texts_of, Command, StartedInfo, StartedInfoView, StatusEvent, StatusEventView,
};
use crate::registry::Registry;

verus! {

/// What a worker was started as.
#[derive(Clone, Copy, Debug, PartialEq, Eq, Structural)]
pub enum WorkerKind {
    Server,
    Client,
}

/// How a supervisor operation failed.
#[derive(Debug)]
pub enum SupervisorError {
    /// The worker binary could not be launched; the text says why.
    SpawnFailed(String),
    /// No worker is installed.
    NoActiveWorker,
    /// Writing a command to the worker's input failed; the text says why.
    WriteFailed(String),
    /// Terminating the worker failed; the text says why.
    KillFailed(String),
}

pub open spec fn message_of(e: SupervisorError) -> Seq<char> {
    match e {
        SupervisorError::SpawnFailed(d) => "Failed to spawn server process: "@ + d@,
        SupervisorError::NoActiveWorker => "Process not found"@,
        SupervisorError::WriteFailed(d) => "Failed to write to stdin: "@ + d@,
        SupervisorError::KillFailed(d) => "Failed to kill process: "@ + d@,
    }
}

impl SupervisorError {
    /// The text shown to the caller.
    pub fn message(&self) -> (r: String)
        ensures
            r@ == message_of(*self),
    {
        let (head, detail): (&str, &str) = match self {
            SupervisorError::SpawnFailed(d) => {
                proof {
                    reveal_strlit("Failed to spawn server process: ");
                }
                ("Failed to spawn server process: ", d.as_str())
            },
            SupervisorError::NoActiveWorker => {
                proof {
                    reveal_strlit("Process not found");
                    reveal_strlit("");
                }
                ("Process not found", "")
            },
            SupervisorError::WriteFailed(d) => {
                proof {
                    reveal_strlit("Failed to write to stdin: ");
                }
                ("Failed to write to stdin: ", d.as_str())
            },
            SupervisorError::KillFailed(d) => {
                proof {
                    reveal_strlit("Failed to kill process: ");
                }
                ("Failed to kill process: ", d.as_str())
            },
        };
        let mut r = String::from_str(head);
        r.append(detail);
        proof {
            if self is NoActiveWorker {
                assert(r@ =~= message_of(*self));
            }
        }
        r
    }
}

pub open spec fn digit_char(d: nat) -> char {
    seq!['0', '1', '2', '3', '4', '5', '6', '7', '8', '9'][d as int]
}

/// The decimal numeral of a number, without sign or leading zeros.
pub open spec fn decimal(n: nat) -> Seq<char>
    decreases n,
{
    if n < 10 {
        seq![digit_char(n)]
    } else {
        decimal(n / 10).push(digit_char(n % 10))
    }
}

/// Relies on `u64`'s `Display` through `ToString`: the decimal numeral of the number.
#[verifier::external_body]
fn decimal_text(n: u64) -> (r: String)
    ensures
        r@ == decimal(n as nat),
{
    n.to_string()
}

/// The worker's arguments in server mode.
pub open spec fn server_args_spec(port: u16, network: Seq<char>) -> Seq<Seq<char>> {
    seq!["--port"@, decimal(port as nat), "--network"@, network]
}

/// The worker's arguments in client mode; port 0 lets the worker choose.
pub open spec fn client_args_spec(token: Seq<char>, port: Option<u16>) -> Seq<Seq<char>> {
    let p: u16 = match port {
        Some(p) => p,
        None => 0,
    };
    seq!["--token"@, token, "--port"@, decimal(p as nat)]
}

/// The command line for a worker that listens on `port` in the network `network`.
pub fn server_args(port: u16, network: &str) -> (r: Vec<String>)
    ensures
        texts_of(r@) == server_args_spec(port, network@),
{
    proof {
        reveal_strlit("--port");
        reveal_strlit("--network");
    }
    let mut r: Vec<String> = Vec::new();
    r.push(String::from_str("--port"));
    r.push(decimal_text(port as u64));
    r.push(String::from_str("--network"));
    r.push(String::from_str(network));
    assert(texts_of(r@) =~= server_args_spec(port, network@));
    r
}

/// The command line for a worker that joins with `token`, on `port` or, if none is
/// given, on a port of its own choosing.
pub fn client_args(token: &str, port: Option<u16>) -> (r: Vec<String>)
    ensures
        texts_of(r@) == client_args_spec(token@, port),
{
    proof {
        reveal_strlit("--token");
        reveal_strlit("--port");
    }
    let p: u16 = match port {
        Some(p) => p,
        None => 0,
    };
    let mut r: Vec<String> = Vec::new();
    r.push(String::from_str("--token"));
    r.push(String::from_str(token));
    r.push(String::from_str("--port"));
    r.push(decimal_text(p as u64));
    assert(texts_of(r@) =~= client_args_spec(token@, port));
    r
}

/// The kind a started event announces: a server is announced as the host.
pub open spec fn announced_kind(kind: WorkerKind) -> Seq<char> {
    match kind {
        WorkerKind::Server => "host"@,
        WorkerKind::Client => "client"@,
    }
}

pub open spec fn started_spec(pid: u32, kind: WorkerKind) -> StatusEventView {
    StatusEventView {
        action: "BACKEND_STARTED"@,
        session_id: None,
        sessions: None,
        token: None,
        started_info: Some(
            StartedInfoView { process_id: decimal(pid as nat), process_type: announced_kind(kind) },
        ),
        error: None,
        port: None,
        addr: None,
    }
}

/// The event published when a worker with process id `pid` has started.
pub fn started_event(pid: u32, kind: WorkerKind) -> (r: StatusEvent)
    ensures
        r@ == started_spec(pid, kind),
{
    proof {
        reveal_strlit("BACKEND_STARTED");
        reveal_strlit("host");
        reveal_strlit("client");
    }
    let process_type = match kind {
        WorkerKind::Server => String::from_str("host"),
        WorkerKind::Client => String::from_str("client"),
    };
    let info = StartedInfo { process_id: decimal_text(pid as u64), process_type };
    StatusEvent {
        action: String::from_str("BACKEND_STARTED"),
        session_id: None,
        sessions: None,
        token: None,
        started_info: Some(info),
        error: None,
        port: None,
        addr: None,
    }
}

/// The line to write to the installed worker for a command: its encoding and a line
/// break. Fails with `NoActiveWorker`, and nothing else, when no worker is installed.
pub fn command_line<H>(registry: &Registry<H>, command: &Command) -> (r: Result<
    String,
    SupervisorError,
>)
    ensures
        registry@ is None <==> r is Err,
        r is Err ==> r->Err_0 is NoActiveWorker,
        r is Ok ==> r->Ok_0@ == encoded(*command).push('\n'),
{
    if !registry.is_running() {
        return Err(SupervisorError::NoActiveWorker);
    }
    let mut line = encode(command);
    line.append("\n");
    proof {
        reveal_strlit("\n");
        assert(line@ =~= encoded(*command).push('\n'));
    }
    Ok(line)
}

/// Takes the worker's handle out for termination. With no worker installed this fails
/// with `NoActiveWorker` and leaves the slot as it was: empty.
pub fn stop<H>(registry: &mut Registry<H>) -> (r: Result<H, SupervisorError>)
    ensures
        final(registry)@ is None,
        old(registry)@ is None <==> r is Err,
        r is Err ==> r->Err_0 is NoActiveWorker,
        r is Ok ==> old(registry)@ == Some(r->Ok_0),
{
    match registry.take() {
        Some(h) => Ok(h),
        None => Err(SupervisorError::NoActiveWorker),
    }
}

} // verus!
