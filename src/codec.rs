use vstd::prelude::*;

use crate::json::{
    json_array, json_is_null, json_member, json_parsed, json_quoted, json_str, json_u64,
    member, parse_json, quote_json,
};

verus! {

/// A control command written to the worker's standard input.
#[derive(Debug)]
pub enum Command {
    /// Ask the worker to drop one session.
    Disconnect { session_id: String },
    /// Ask the worker to report its sessions; it answers on its output stream.
    List,
}

pub open spec fn action_text(c: Command) -> Seq<char> {
    match c {
        Command::Disconnect { .. } => "DISCONNECT"@,
        Command::List => "LIST"@,
    }
}

pub open spec fn session_text(c: Command) -> Seq<char> {
    match c {
        Command::Disconnect { session_id } => session_id@,
        Command::List => Seq::empty(),
    }
}

/// The wire form of a command: one JSON object with the members `action` and `session_id`.
pub open spec fn encoded(c: Command) -> Seq<char> {
    "{\"action\":"@ + json_quoted(action_text(c)) + ",\"session_id\":"@ + json_quoted(
        session_text(c),
    ) + "}"@
}

pub open spec fn has_no_newline(s: Seq<char>) -> bool {
    forall|i: int| 0 <= i < s.len() ==> s[i] != '\n'
}

/// Serialises a command as one line of JSON, without the line terminator.
pub fn encode(command: &Command) -> (line: String)
    ensures
        line@ == encoded(*command),
        has_no_newline(line@),
{
    let (action, session): (&str, &str) = match command {
        Command::Disconnect { session_id } => {
            proof {
                reveal_strlit("DISCONNECT");
            }
            ("DISCONNECT", session_id.as_str())
        },
        Command::List => {
            proof {
                reveal_strlit("LIST");
                reveal_strlit("");
            }
            ("LIST", "")
        },
    };
    assert(action@ == action_text(*command) && session@ == session_text(*command));
    let qa = quote_json(action);
    let qs = quote_json(session);
    let mut line = String::from_str("{\"action\":");
    line.append(qa.as_str());
    line.append(",\"session_id\":");
    line.append(qs.as_str());
    line.append("}");
    proof {
        reveal_strlit("{\"action\":");
        reveal_strlit(",\"session_id\":");
        reveal_strlit("}");
        assert(has_no_newline(line@));
    }
    line
}

} // verus!

verus! {

/// The `started_info` record: which process came up, and as what.
#[derive(Debug)]
pub struct StartedInfo {
    pub process_id: String,
    pub process_type: String,
}

/// One record of the worker's output stream, or the event the supervisor itself
/// publishes when a worker starts. Members the record does not carry are `None`.
#[derive(Debug)]
pub struct StatusEvent {
    pub action: String,
    pub session_id: Option<String>,
    pub sessions: Option<Vec<String>>,
    pub token: Option<String>,
    pub started_info: Option<StartedInfo>,
    pub error: Option<String>,
    pub port: Option<u16>,
    pub addr: Option<String>,
}

pub struct StartedInfoView {
    pub process_id: Seq<char>,
    pub process_type: Seq<char>,
}

pub struct StatusEventView {
    pub action: Seq<char>,
    pub session_id: Option<Seq<char>>,
    pub sessions: Option<Seq<Seq<char>>>,
    pub token: Option<Seq<char>>,
    pub started_info: Option<StartedInfoView>,
    pub error: Option<Seq<char>>,
    pub port: Option<u16>,
    pub addr: Option<Seq<char>>,
}

pub open spec fn text_of(o: Option<String>) -> Option<Seq<char>> {
    match o {
        Some(s) => Some(s@),
        None => None,
    }
}

pub open spec fn texts_of(v: Seq<String>) -> Seq<Seq<char>> {
    v.map_values(|s: String| s@)
}

impl View for StartedInfo {
    type V = StartedInfoView;

    open spec fn view(&self) -> StartedInfoView {
        StartedInfoView { process_id: self.process_id@, process_type: self.process_type@ }
    }
}

impl View for StatusEvent {
    type V = StatusEventView;

    open spec fn view(&self) -> StatusEventView {
        StatusEventView {
            action: self.action@,
            session_id: text_of(self.session_id),
            sessions: match self.sessions {
                Some(v) => Some(texts_of(v@)),
                None => None,
            },
            token: text_of(self.token),
            started_info: match self.started_info {
                Some(i) => Some(i@),
                None => None,
            },
            error: text_of(self.error),
            port: self.port,
            addr: text_of(self.addr),
        }
    }
}

/// A member that must be a JSON string.
pub open spec fn required_text(v: serde_json::Value, key: Seq<char>) -> Option<Seq<char>> {
    match json_member(v, key) {
        Some(m) => json_str(m),
        None => None,
    }
}

/// A member that may be absent or null. The outer `None` means the member has the wrong
/// type, which rejects the whole record.
pub open spec fn optional_text(v: serde_json::Value, key: Seq<char>) -> Option<Option<Seq<char>>> {
    match json_member(v, key) {
        None => Some(None),
        Some(m) => if json_is_null(m) {
            Some(None)
        } else {
            match json_str(m) {
                Some(s) => Some(Some(s)),
                None => None,
            }
        },
    }
}

/// The strings of an array whose every element is a JSON string.
pub open spec fn all_texts(items: Seq<serde_json::Value>) -> Option<Seq<Seq<char>>> {
    if forall|i: int| 0 <= i < items.len() ==> (#[trigger] json_str(items[i])) is Some {
        Some(items.map_values(|x: serde_json::Value| json_str(x).unwrap()))
    } else {
        None
    }
}

pub open spec fn optional_texts(v: serde_json::Value, key: Seq<char>) -> Option<
    Option<Seq<Seq<char>>>,
> {
    match json_member(v, key) {
        None => Some(None),
        Some(m) => if json_is_null(m) {
            Some(None)
        } else {
            match json_array(m) {
                Some(items) => match all_texts(items) {
                    Some(t) => Some(Some(t)),
                    None => None,
                },
                None => None,
            }
        },
    }
}

pub open spec fn optional_port(v: serde_json::Value, key: Seq<char>) -> Option<Option<u16>> {
    match json_member(v, key) {
        None => Some(None),
        Some(m) => if json_is_null(m) {
            Some(None)
        } else {
            match json_u64(m) {
                Some(n) => if n <= u16::MAX {
                    Some(Some(n as u16))
                } else {
                    None
                },
                None => None,
            }
        },
    }
}

pub open spec fn optional_started(v: serde_json::Value, key: Seq<char>) -> Option<
    Option<StartedInfoView>,
> {
    match json_member(v, key) {
        None => Some(None),
        Some(m) => if json_is_null(m) {
            Some(None)
        } else {
            match (required_text(m, "process_id"@), required_text(m, "process_type"@)) {
                (Some(id), Some(kind)) => Some(
                    Some(StartedInfoView { process_id: id, process_type: kind }),
                ),
                _ => None,
            }
        },
    }
}

/// The status event a JSON value describes: `action` must be a string, every other
/// known member absent, null, or of its type; unknown members are ignored.
pub open spec fn event_of(v: serde_json::Value) -> Option<StatusEventView> {
    match (
        required_text(v, "action"@),
        optional_text(v, "session_id"@),
        optional_texts(v, "sessions"@),
        optional_text(v, "token"@),
        optional_started(v, "started_info"@),
        optional_text(v, "error"@),
        optional_port(v, "port"@),
        optional_text(v, "addr"@),
    ) {
        (
            Some(action),
            Some(session_id),
            Some(sessions),
            Some(token),
            Some(started_info),
            Some(error),
            Some(port),
            Some(addr),
        ) => Some(
            StatusEventView {
                action,
                session_id,
                sessions,
                token,
                started_info,
                error,
                port,
                addr,
            },
        ),
        _ => None,
    }
}

/// The status event a line of worker output carries, if any.
pub open spec fn decoded(line: Seq<char>) -> Option<StatusEventView> {
    match json_parsed(line) {
        Some(v) => event_of(v),
        None => None,
    }
}

fn read_required_text(v: &serde_json::Value, key: &str) -> (r: Option<String>)
    ensures
        text_of(r) == required_text(*v, key@),
{
    match member(v, key) {
        Some(m) => match m.as_str() {
            Some(s) => Some(String::from_str(s)),
            None => None,
        },
        None => None,
    }
}

fn read_optional_text(v: &serde_json::Value, key: &str) -> (r: Option<Option<String>>)
    ensures
        match r {
            Some(o) => optional_text(*v, key@) == Some(text_of(o)),
            None => optional_text(*v, key@) is None,
        },
{
    match member(v, key) {
        None => Some(None),
        Some(m) => if m.is_null() {
            Some(None)
        } else {
            match m.as_str() {
                Some(s) => Some(Some(String::from_str(s))),
                None => None,
            }
        },
    }
}

fn read_texts(items: &Vec<serde_json::Value>) -> (r: Option<Vec<String>>)
    ensures
        match r {
            Some(t) => all_texts(items@) == Some(texts_of(t@)),
            None => all_texts(items@) is None,
        },
{
    let mut out: Vec<String> = Vec::new();
    let mut i: usize = 0;
    while i < items.len()
        invariant
            i <= items.len(),
            out@.len() == i,
            forall|j: int| 0 <= j < i ==> (#[trigger] json_str(items@[j])) == Some(out@[j]@),
        decreases items.len() - i,
    {
        match items[i].as_str() {
            Some(s) => out.push(String::from_str(s)),
            None => return None,
        }
        i = i + 1;
    }
    assert(texts_of(out@) =~= items@.map_values(|x: serde_json::Value| json_str(x).unwrap()));
    Some(out)
}

fn read_optional_texts(v: &serde_json::Value, key: &str) -> (r: Option<Option<Vec<String>>>)
    ensures
        match r {
            Some(Some(t)) => optional_texts(*v, key@) == Some(Some(texts_of(t@))),
            Some(None) => optional_texts(*v, key@) == Some(None::<Seq<Seq<char>>>),
            None => optional_texts(*v, key@) is None,
        },
{
    match member(v, key) {
        None => Some(None),
        Some(m) => if m.is_null() {
            Some(None)
        } else {
            match m.as_array() {
                Some(items) => match read_texts(items) {
                    Some(t) => Some(Some(t)),
                    None => None,
                },
                None => None,
            }
        },
    }
}

fn read_optional_port(v: &serde_json::Value, key: &str) -> (r: Option<Option<u16>>)
    ensures
        r == optional_port(*v, key@),
{
    match member(v, key) {
        None => Some(None),
        Some(m) => if m.is_null() {
            Some(None)
        } else {
            match m.as_u64() {
                Some(n) => if n <= 65535 {
                    Some(Some(n as u16))
                } else {
                    None
                },
                None => None,
            }
        },
    }
}

fn read_optional_started(v: &serde_json::Value, key: &str) -> (r: Option<Option<StartedInfo>>)
    ensures
        match r {
            Some(Some(i)) => optional_started(*v, key@) == Some(Some(i@)),
            Some(None) => optional_started(*v, key@) == Some(None::<StartedInfoView>),
            None => optional_started(*v, key@) is None,
        },
{
    match member(v, key) {
        None => Some(None),
        Some(m) => if m.is_null() {
            Some(None)
        } else {
            proof {
                reveal_strlit("process_id");
                reveal_strlit("process_type");
            }
            match (read_required_text(m, "process_id"), read_required_text(m, "process_type")) {
                (Some(process_id), Some(process_type)) => Some(
                    Some(StartedInfo { process_id, process_type }),
                ),
                _ => None,
            }
        },
    }
}

/// Reads one line of worker output as a status event. A line that is not JSON, or
/// whose JSON is not an object with a string `action` and well-typed known members,
/// gives `None`; that is an ordinary outcome, not an error.
pub fn decode(line: &str) -> (r: Option<StatusEvent>)
    ensures
        match r {
            Some(e) => decoded(line@) == Some(e@),
            None => decoded(line@) is None,
        },
{
    let v = match parse_json(line) {
        Some(v) => v,
        None => return None,
    };
    proof {
        reveal_strlit("action");
        reveal_strlit("session_id");
        reveal_strlit("sessions");
        reveal_strlit("token");
        reveal_strlit("started_info");
        reveal_strlit("error");
        reveal_strlit("port");
        reveal_strlit("addr");
    }
    let action = match read_required_text(&v, "action") {
        Some(a) => a,
        None => return None,
    };
    let session_id = match read_optional_text(&v, "session_id") {
        Some(x) => x,
        None => return None,
    };
    let sessions = match read_optional_texts(&v, "sessions") {
        Some(x) => x,
        None => return None,
    };
    let token = match read_optional_text(&v, "token") {
        Some(x) => x,
        None => return None,
    };
    let started_info = match read_optional_started(&v, "started_info") {
        Some(x) => x,
        None => return None,
    };
    let error = match read_optional_text(&v, "error") {
        Some(x) => x,
        None => return None,
    };
    let port = match read_optional_port(&v, "port") {
        Some(x) => x,
        None => return None,
    };
    let addr = match read_optional_text(&v, "addr") {
        Some(x) => x,
        None => return None,
    };
    let e = StatusEvent { action, session_id, sessions, token, started_info, error, port, addr };
    Some(e)
}

} // verus!

verus! {

/// A line that is not JSON, or JSON without an `action` member, carries no event.
pub proof fn lemma_decode_rejects(line: Seq<char>)
    requires
        json_parsed(line) is None || json_member(json_parsed(line).unwrap(), "action"@) is None,
    ensures
        decoded(line) is None,
{
}

} // verus!
