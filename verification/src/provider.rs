//! The settings-daemon client: the socket path a handle owns, the
//! exchange of one request with the daemon, and the reading of its reply.

use vstd::prelude::*;

use crate::error::{ErrorKind, ProviderError};
use crate::json::{
    field_bool, field_str, find_key, float_free, json_document, json_text, parse_json_line,
    write_json, JsonEntry, JsonNumber, JsonValue,
};
use crate::types::{hardware_of, hardware_view, or_default, os_of, section, Hardware, Os};

verus! {

/// Default daemon socket path (mirrors the daemon default).
pub const DEFAULT_SOCKET_PATH: &'static str = "/run/tontoo-settings.sock";

/// Socket read timeout per request, in seconds.
pub const REQUEST_TIMEOUT_SECS: u64 = 10;

/// The id every request frame carries.
pub const REQUEST_ID: u64 = 1;

/// Client handle for the settings daemon. All facts come from the daemon
/// over its unix socket; a missing daemon surfaces as an error.
#[derive(Debug)]
pub struct SettingsProvider {
    socket_path: String,
}

impl View for SettingsProvider {
    type V = Seq<char>;

    closed spec fn view(&self) -> Seq<char> {
        self.socket_path@
    }
}

impl Clone for SettingsProvider {
    /// A handle on the same socket path.
    fn clone(&self) -> (r: SettingsProvider)
        ensures
            r@ == self@,
    {
        SettingsProvider { socket_path: self.socket_path.clone() }
    }
}

impl Default for SettingsProvider {
    fn default() -> (r: SettingsProvider)
        ensures
            r@ == DEFAULT_SOCKET_PATH@,
    {
        SettingsProvider::new()
    }
}

impl SettingsProvider {
    /// A handle on the default socket path.
    pub fn new() -> (r: SettingsProvider)
        ensures
            r@ == DEFAULT_SOCKET_PATH@,
    {
        SettingsProvider { socket_path: DEFAULT_SOCKET_PATH.to_owned() }
    }

    /// A handle on an explicit socket path.
    pub fn with_socket(path: &str) -> (r: SettingsProvider)
        ensures
            r@ == path@,
    {
        SettingsProvider { socket_path: path.to_owned() }
    }

    /// A handle on the path the `SETTINGS_SOCKET` setting gives; an unset
    /// or empty setting falls back to the default path.
    pub fn from_env_value(value: Option<&str>) -> (r: SettingsProvider)
        ensures
            r@ == (match value {
                Some(v) => if v@.len() > 0 {
                    v@
                } else {
                    DEFAULT_SOCKET_PATH@
                },
                None => DEFAULT_SOCKET_PATH@,
            }),
    {
        match value {
            Some(v) => if v.unicode_len() > 0 {
                SettingsProvider::with_socket(v)
            } else {
                SettingsProvider::new()
            },
            None => SettingsProvider::new(),
        }
    }

    pub fn socket_path(&self) -> (r: &str)
        ensures
            r@ == self@,
    {
        self.socket_path.as_str()
    }
}

// ---------------------------------------------------------------------------
// One request exchange with the daemon
// ---------------------------------------------------------------------------

/// Whether `frame` is the request frame `{"id": 1, "op": op}`.
pub open spec fn is_request_frame(frame: JsonValue, op: Seq<char>) -> bool {
    &&& frame matches JsonValue::Object(entries)
    &&& entries@.len() == 2
    &&& entries@[0].key@ == "id"@
    &&& entries@[0].value == JsonValue::Number(JsonNumber::PosInt(REQUEST_ID))
    &&& entries@[1].key@ == "op"@
    &&& entries@[1].value matches JsonValue::Str(o)
    &&& o@ == op
}

/// The request frame for `op`: `{"id": 1, "op": op}`.
pub fn request_frame(op: &str) -> (r: JsonValue)
    ensures
        is_request_frame(r, op@),
        float_free(r),
{
    let mut entries: Vec<JsonEntry> = Vec::new();
    entries.push(
        JsonEntry {
            key: "id".to_owned(),
            value: JsonValue::Number(JsonNumber::PosInt(REQUEST_ID)),
        },
    );
    entries.push(JsonEntry { key: "op".to_owned(), value: JsonValue::Str(op.to_owned()) });
    assert(float_free(entries@[0].value) && float_free(entries@[1].value));
    let r = JsonValue::Object(entries);
    assert(float_free(r)) by {
        assert forall|i: int| 0 <= i < entries.len() implies float_free(
            #[trigger] entries[i].value,
        ) by {
            assert(entries[i] == entries@[i]);
        }
    }
    r
}

/// Whether the daemon accepted the request: its reply frame says `ok: true`.
pub open spec fn reply_accepted(frame: JsonValue) -> bool {
    field_bool(frame, "ok"@) == Some(true)
}

/// The daemon's message in a refusing reply frame, or `unknown error`.
pub open spec fn refusal_message(frame: JsonValue) -> Seq<char> {
    or_default(field_str(frame, "error"@), "unknown error"@)
}

/// Whether `outcome` is what the reply frame `frame` gives: its `result`
/// (or `null`) when the daemon accepted the request, a server error with
/// its message when it did not.
pub open spec fn frame_gives(frame: JsonValue, outcome: Result<JsonValue, ProviderError>) -> bool {
    if reply_accepted(frame) {
        outcome == Ok::<JsonValue, ProviderError>(section(frame, "result"@))
    } else {
        outcome matches Err(e) && e@ == (ErrorKind::Server, refusal_message(frame))
    }
}

/// Reads a reply frame: `ok: true` gives its `result` (or `null`), any
/// other frame is a server error carrying the daemon's `error` message.
pub fn reply_outcome(frame: JsonValue) -> (r: Result<JsonValue, ProviderError>)
    ensures
        frame_gives(frame, r),
{
    let accepted = match frame.field_bool("ok") {
        Some(b) => b,
        None => false,
    };
    if accepted {
        match frame {
            JsonValue::Object(mut entries) => match find_key(&entries, "result") {
                Some(i) => Ok(entries.remove(i).value),
                None => Ok(JsonValue::Null),
            },
            _ => Ok(JsonValue::Null),
        }
    } else {
        let message = match frame.field_str("error") {
            Some(m) => m,
            None => "unknown error".to_owned(),
        };
        Err(ProviderError::Server(message))
    }
}

/// What the caller observed when it did what an exchange asked for.
#[derive(Debug)]
pub enum Event {
    /// Whether the socket path exists.
    Probed { exists: bool },
    /// Connecting (with the read timeout set) succeeded, or why not.
    Connected { result: Result<(), String> },
    /// Writing the request line succeeded, or why not.
    Sent { result: Result<(), String> },
    /// The reply line that was read, or why reading failed.
    Received { line: Result<String, String> },
}

/// One request to the daemon, as the next thing to do: check that the
/// socket exists, connect, send `line` (the request frame's JSON text and
/// a line feed), receive one reply line; or done, with the outcome.
#[derive(Debug)]
pub enum Exchange {
    Probe { path: String, op: String },
    Connect { path: String, op: String, timeout_secs: u64 },
    Send { frame: JsonValue, line: String },
    Receive,
    Done { outcome: Result<JsonValue, ProviderError> },
}

impl Exchange {
    /// Whether `event` answers what this exchange asked for.
    pub open spec fn expects(self, event: Event) -> bool {
        match self {
            Exchange::Probe { .. } => event is Probed,
            Exchange::Connect { .. } => event is Connected,
            Exchange::Send { .. } => event is Sent,
            Exchange::Receive => event is Received,
            Exchange::Done { .. } => false,
        }
    }

    /// Whether the exchange moves on to `next` when `event` answers it.
    pub open spec fn step_to(self, event: Event, next: Exchange) -> bool {
        match self {
            Exchange::Probe { path, op } => match event {
                Event::Probed { exists } => if exists {
                    next == Exchange::Connect { path, op, timeout_secs: REQUEST_TIMEOUT_SECS }
                } else {
                    next == Exchange::Done { outcome: Err(ProviderError::SocketMissing(path)) }
                },
                _ => false,
            },
            Exchange::Connect { op, .. } => match event {
                Event::Connected { result } => match result {
                    Ok(_) => next matches Exchange::Send { frame, line } && is_request_frame(
                        frame,
                        op@,
                    ) && line@ == json_text(frame) + seq!['\n'],
                    Err(e) => next == Exchange::Done {
                        outcome: Err(ProviderError::Connection(e)),
                    },
                },
                _ => false,
            },
            Exchange::Send { .. } => match event {
                Event::Sent { result } => match result {
                    Ok(_) => next == Exchange::Receive,
                    Err(e) => next == Exchange::Done {
                        outcome: Err(ProviderError::Connection(e)),
                    },
                },
                _ => false,
            },
            Exchange::Receive => match event {
                Event::Received { line } => match line {
                    Ok(text) => match json_document(text@) {
                        Some(f) => next matches Exchange::Done { outcome } && frame_gives(
                            f,
                            outcome,
                        ),
                        None => next matches Exchange::Done { outcome } && outcome matches Err(e)
                            && e@.0 == ErrorKind::Protocol,
                    },
                    Err(e) => next == Exchange::Done {
                        outcome: Err(ProviderError::Connection(e)),
                    },
                },
                _ => false,
            },
            Exchange::Done { .. } => false,
        }
    }

    /// How many more steps the exchange takes at most.
    pub open spec fn steps_left(self) -> nat {
        match self {
            Exchange::Probe { .. } => 4,
            Exchange::Connect { .. } => 3,
            Exchange::Send { .. } => 2,
            Exchange::Receive => 1,
            Exchange::Done { .. } => 0,
        }
    }

    /// Whether `event` answers what this exchange asked for.
    pub fn accepts(&self, event: &Event) -> (r: bool)
        ensures
            r == self.expects(*event),
    {
        match self {
            Exchange::Probe { .. } => matches!(event, Event::Probed { .. }),
            Exchange::Connect { .. } => matches!(event, Event::Connected { .. }),
            Exchange::Send { .. } => matches!(event, Event::Sent { .. }),
            Exchange::Receive => matches!(event, Event::Received { .. }),
            Exchange::Done { .. } => false,
        }
    }

    /// Moves the exchange on by what the caller observed: a missing socket
    /// fails with `SocketMissing`, transport failures with `Connection`, a
    /// reply that is not JSON with `Protocol`, and a reply frame gives its
    /// result or the daemon's refusal.
    pub fn advance(self, event: Event) -> (next: Exchange)
        requires
            self.expects(event),
        ensures
            self.step_to(event, next),
    {
        match self {
            Exchange::Probe { path, op } => match event {
                Event::Probed { exists } => if exists {
                    Exchange::Connect { path, op, timeout_secs: REQUEST_TIMEOUT_SECS }
                } else {
                    Exchange::Done { outcome: Err(ProviderError::SocketMissing(path)) }
                },
                _ => Exchange::Probe { path, op },
            },
            Exchange::Connect { path, op, timeout_secs } => match event {
                Event::Connected { result } => match result {
                    Ok(_) => {
                        let frame = request_frame(op.as_str());
                        let mut line = write_json(&frame);
                        line.append("\n");
                        proof {
                            reveal_strlit("\n");
                        }
                        assert(line@ =~= json_text(frame) + seq!['\n']);
                        Exchange::Send { frame, line }
                    },
                    Err(e) => Exchange::Done { outcome: Err(ProviderError::Connection(e)) },
                },
                _ => Exchange::Connect { path, op, timeout_secs },
            },
            Exchange::Send { frame, line } => match event {
                Event::Sent { result } => match result {
                    Ok(_) => Exchange::Receive,
                    Err(e) => Exchange::Done { outcome: Err(ProviderError::Connection(e)) },
                },
                _ => Exchange::Send { frame, line },
            },
            Exchange::Receive => match event {
                Event::Received { line } => match line {
                    Ok(text) => match parse_json_line(text.as_str()) {
                        Ok(f) => Exchange::Done { outcome: reply_outcome(f) },
                        Err(e) => Exchange::Done { outcome: Err(ProviderError::Protocol(e)) },
                    },
                    Err(e) => Exchange::Done { outcome: Err(ProviderError::Connection(e)) },
                },
                _ => Exchange::Receive,
            },
            Exchange::Done { outcome } => Exchange::Done { outcome },
        }
    }

    /// The outcome, once the exchange is done.
    pub fn into_outcome(self) -> (r: Option<Result<JsonValue, ProviderError>>)
        ensures
            match self {
                Exchange::Done { outcome } => r == Some(outcome),
                _ => r is None,
            },
    {
        match self {
            Exchange::Done { outcome } => Some(outcome),
            _ => None,
        }
    }
}

/// Every step brings an exchange closer to done: a request ends after at
/// most four steps, and a done exchange expects nothing more.
pub proof fn lemma_exchange_progresses(ex: Exchange, event: Event, next: Exchange)
    requires
        ex.step_to(event, next),
    ensures
        next.steps_left() < ex.steps_left(),
        ex.steps_left() <= 4,
        next is Done <==> next.steps_left() == 0,
        !next.expects(event) || !(next is Done),
{
}

/// A missing socket ends the exchange with `SocketMissing` carrying the
/// socket path: no request is sent and no data comes back.
pub proof fn lemma_missing_socket_fails(path: String, op: String, next: Exchange)
    requires
        (Exchange::Probe { path, op }).step_to(Event::Probed { exists: false }, next),
    ensures
        next matches Exchange::Done { outcome } && outcome matches Err(e) && e@ == (
            ErrorKind::SocketMissing,
            path@,
        ),
{
}

/// An exchange ends with data only from a reply frame in which the daemon
/// accepted the request, and the data is that frame's `result`.
pub proof fn lemma_data_only_from_accepted_reply(ex: Exchange, event: Event, next: Exchange)
    requires
        ex.step_to(event, next),
        next matches Exchange::Done { outcome } && outcome is Ok,
    ensures
        ex is Receive,
        match event {
            Event::Received { line: Ok(text) } => json_document(text@) matches Some(f)
                && reply_accepted(f) && next == Exchange::Done {
                outcome: Ok(section(f, "result"@)),
            },
            _ => false,
        },
{
}

// ---------------------------------------------------------------------------
// Requests and what their replies give
// ---------------------------------------------------------------------------

/// The detail of the `Parse` error a `ping` result without a boolean
/// `pong` gives.
pub const MISSING_PONG: &'static str = "reply has no boolean pong";

/// Whether `r` is what a `ping` gives for the response `response`: the
/// boolean `pong` of the result; a `Parse` error when the result has none;
/// the request's error when it failed.
pub open spec fn ping_gives(
    response: Result<JsonValue, ProviderError>,
    r: Result<bool, ProviderError>,
) -> bool {
    match response {
        Ok(v) => match field_bool(v, "pong"@) {
            Some(b) => r == Ok::<bool, ProviderError>(b),
            None => r matches Err(e) && e@ == (ErrorKind::Parse, MISSING_PONG@),
        },
        Err(e) => r == Err::<bool, ProviderError>(e),
    }
}

impl SettingsProvider {
    /// Starts the exchange of the request `op` with the daemon at this
    /// handle's socket; the caller performs each step it asks for.
    pub fn request(&self, op: &str) -> (r: Exchange)
        ensures
            r matches Exchange::Probe { path, op: o } && path@ == self@ && o@ == op@,
    {
        Exchange::Probe { path: self.socket_path.clone(), op: op.to_owned() }
    }

    /// Reads the response to a `ping` request: the reply's boolean `pong`;
    /// a `Parse` error when the reply has none (unusable content, never a
    /// silent `false`); the error, when the request failed.
    pub fn ping(&self, response: Result<JsonValue, ProviderError>) -> (r: Result<bool, ProviderError>)
        ensures
            ping_gives(response, r),
    {
        match response {
            Ok(v) => match v.field_bool("pong") {
                Some(b) => Ok(b),
                None => Err(ProviderError::Parse(MISSING_PONG.to_owned())),
            },
            Err(e) => Err(e),
        }
    }

    /// Reads the response to a `get_hardware` request. `detailed = false`
    /// gives the basis view, `detailed = true` everything the daemon
    /// collected; the error, when the request failed.
    pub fn hardware(&self, detailed: bool, response: Result<JsonValue, ProviderError>) -> (r:
        Result<Hardware, ProviderError>)
        ensures
            match response {
                Ok(v) => r matches Ok(h) && h@ == hardware_view(detailed, v),
                Err(e) => r == Err::<Hardware, ProviderError>(e),
            },
    {
        match response {
            Ok(v) => {
                let hardware = Hardware::from_json(&v);
                if detailed {
                    Ok(hardware)
                } else {
                    Ok(hardware.without_details())
                }
            },
            Err(e) => Err(e),
        }
    }

    /// Reads the response to a `get_os` request; missing fields fall back
    /// to the compiled defaults. The error, when the request failed.
    pub fn os(&self, response: Result<JsonValue, ProviderError>) -> (r: Result<Os, ProviderError>)
        ensures
            match response {
                Ok(v) => r matches Ok(o) && o@ == os_of(v),
                Err(e) => r == Err::<Os, ProviderError>(e),
            },
    {
        match response {
            Ok(v) => Ok(Os::from_json(&v)),
            Err(e) => Err(e),
        }
    }
}

} // verus!
