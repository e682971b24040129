use coresettings::error::ErrorKind;
use coresettings::json::{JsonEntry, JsonNumber, JsonValue};
use coresettings::lang::{locale_from_settings, t, Locale};
use coresettings::provider::{
    reply_outcome, request_frame, Event, Exchange, MISSING_PONG, REQUEST_TIMEOUT_SECS,
};
use coresettings::{
    hardware, os, ping, ProviderError, SettingsProvider, DEFAULT_SOCKET_PATH, OP_GET_HARDWARE,
    OP_GET_OS, OP_PING,
};

fn obj(entries: Vec<(&str, JsonValue)>) -> JsonValue {
    JsonValue::Object(
        entries
            .into_iter()
            .map(|(k, v)| JsonEntry { key: k.to_string(), value: v })
            .collect(),
    )
}

fn text(s: &str) -> JsonValue {
    JsonValue::Str(s.to_string())
}

/// Drives an exchange to its end with the given observations.
fn run(mut exchange: Exchange, mut events: Vec<Event>) -> Result<JsonValue, ProviderError> {
    events.reverse();
    loop {
        if let Exchange::Done { .. } = exchange {
            return exchange.into_outcome().unwrap();
        }
        let event = events.pop().expect("an event for every step");
        assert!(exchange.accepts(&event));
        exchange = exchange.advance(event);
    }
}

fn answered(line: &str) -> Vec<Event> {
    vec![
        Event::Probed { exists: true },
        Event::Connected { result: Ok(()) },
        Event::Sent { result: Ok(()) },
        Event::Received { line: Ok(line.to_string()) },
    ]
}

#[test]
fn missing_socket_errors() {
    let provider = SettingsProvider::with_socket("/nonexistent/tontoo-settings-test.sock");
    let exists = std::path::Path::new(provider.socket_path()).exists();
    let outcome = run(provider.request(OP_PING), vec![Event::Probed { exists }]);
    let err = provider.ping(outcome).unwrap_err();
    assert!(matches!(err, ProviderError::SocketMissing(_)));
    for locale in [Locale::EnUs, Locale::DeDe] {
        assert!(err.to_string_in(locale).contains("/nonexistent/tontoo-settings-test.sock"));
    }
}

#[test]
fn from_env_default() {
    assert_eq!(SettingsProvider::from_env_value(None).socket_path(), DEFAULT_SOCKET_PATH);
}

#[test]
fn from_env_empty_is_ignored() {
    assert_eq!(SettingsProvider::from_env_value(Some("")).socket_path(), DEFAULT_SOCKET_PATH);
    assert_eq!(SettingsProvider::from_env_value(Some("/tmp/s.sock")).socket_path(), "/tmp/s.sock");
}

#[test]
fn constructors_store_paths() {
    assert_eq!(SettingsProvider::new().socket_path(), "/run/tontoo-settings.sock");
    assert_eq!(SettingsProvider::default().socket_path(), DEFAULT_SOCKET_PATH);
    assert_eq!(SettingsProvider::with_socket("/tmp/x").socket_path(), "/tmp/x");
}

#[test]
fn exchange_steps_in_order() {
    let provider = SettingsProvider::with_socket("/tmp/tontoo.sock");
    let exchange = provider.request(OP_GET_OS);
    match &exchange {
        Exchange::Probe { path, op } => {
            assert_eq!(path, "/tmp/tontoo.sock");
            assert_eq!(op, "get_os");
        }
        other => panic!("unexpected {:?}", other),
    }
    assert!(!exchange.accepts(&Event::Sent { result: Ok(()) }));
    let exchange = exchange.advance(Event::Probed { exists: true });
    match &exchange {
        Exchange::Connect { path, timeout_secs, .. } => {
            assert_eq!(path, "/tmp/tontoo.sock");
            assert_eq!(*timeout_secs, REQUEST_TIMEOUT_SECS);
            assert_eq!(*timeout_secs, 10);
        }
        other => panic!("unexpected {:?}", other),
    }
    let exchange = exchange.advance(Event::Connected { result: Ok(()) });
    match &exchange {
        Exchange::Send { frame: JsonValue::Object(entries), line } => {
            assert_eq!(line, "{\"id\":1,\"op\":\"get_os\"}\n");
            assert_eq!(entries.len(), 2);
            assert_eq!(entries[0].key, "id");
            assert!(matches!(entries[0].value, JsonValue::Number(JsonNumber::PosInt(1))));
            assert_eq!(entries[1].key, "op");
            assert!(matches!(&entries[1].value, JsonValue::Str(s) if s == "get_os"));
        }
        other => panic!("unexpected {:?}", other),
    }
    let exchange = exchange.advance(Event::Sent { result: Ok(()) });
    assert!(matches!(exchange, Exchange::Receive));
}

#[test]
fn transport_failures_are_connection_errors() {
    let p = SettingsProvider::new();
    let refused = run(
        p.request(OP_PING),
        vec![Event::Probed { exists: true }, Event::Connected { result: Err("refused".into()) }],
    );
    assert!(matches!(refused, Err(ProviderError::Connection(ref d)) if d == "refused"));
    let reset = run(
        p.request(OP_PING),
        vec![
            Event::Probed { exists: true },
            Event::Connected { result: Ok(()) },
            Event::Sent { result: Err("reset".into()) },
        ],
    );
    assert!(matches!(reset, Err(ProviderError::Connection(ref d)) if d == "reset"));
    let timed_out = run(
        p.request(OP_PING),
        vec![
            Event::Probed { exists: true },
            Event::Connected { result: Ok(()) },
            Event::Sent { result: Ok(()) },
            Event::Received { line: Err("timed out".into()) },
        ],
    );
    assert!(matches!(timed_out, Err(ProviderError::Connection(ref d)) if d == "timed out"));
}

#[test]
fn malformed_reply_is_protocol_error() {
    let p = SettingsProvider::new();
    let outcome = run(
        p.request(OP_PING),
        vec![
            Event::Probed { exists: true },
            Event::Connected { result: Ok(()) },
            Event::Sent { result: Ok(()) },
            Event::Received { line: Ok("{\"ok\": tru".into()) },
        ],
    );
    let err = outcome.unwrap_err();
    assert!(matches!(err, ProviderError::Protocol(ref d) if !d.is_empty()));
    assert!(err.to_string_in(Locale::EnUs).starts_with("Settings daemon protocol error: "));
    assert!(err.to_string_in(Locale::DeDe).starts_with("Settings-Daemon-Protokollfehler: "));
    let empty = run(p.request(OP_PING), answered(""));
    assert!(matches!(empty, Err(ProviderError::Protocol(_))));
}

#[test]
fn refused_request_is_server_error() {
    let refused = reply_outcome(obj(vec![
        ("ok", JsonValue::Bool(false)),
        ("error", text("no such file: os.fico")),
    ]));
    assert!(matches!(refused, Err(ProviderError::Server(ref d)) if d == "no such file: os.fico"));
    let silent = reply_outcome(obj(vec![("result", obj(vec![]))]));
    assert!(matches!(silent, Err(ProviderError::Server(ref d)) if d == "unknown error"));
    let not_object = reply_outcome(text("ok"));
    assert!(matches!(not_object, Err(ProviderError::Server(ref d)) if d == "unknown error"));
}

#[test]
fn accepted_request_gives_its_result() {
    let outcome = reply_outcome(obj(vec![
        ("ok", JsonValue::Bool(true)),
        ("result", obj(vec![("pong", JsonValue::Bool(true))])),
    ]));
    assert!(matches!(ping(outcome), Ok(true)));
    let no_result = reply_outcome(obj(vec![("ok", JsonValue::Bool(true))]));
    assert!(matches!(no_result, Ok(JsonValue::Null)));
    assert!(matches!(ping(no_result), Err(ProviderError::Parse(ref d)) if d == MISSING_PONG));
}

#[test]
fn ping_reads_pong() {
    let provider = SettingsProvider::new();
    let yes = r#"{"ok": true, "result": {"pong": true}}"#;
    assert!(matches!(provider.ping(run(provider.request(OP_PING), answered(yes))), Ok(true)));
    let no = r#"{"ok": true, "result": {"pong": false}}"#;
    assert!(matches!(provider.ping(run(provider.request(OP_PING), answered(no))), Ok(false)));
    let err = ProviderError::Server("x".into());
    assert!(matches!(provider.ping(Err(err)), Err(ProviderError::Server(_))));
}

#[test]
fn ping_without_pong_is_parse_error() {
    let provider = SettingsProvider::new();
    for line in [
        r#"{"ok": true, "result": {}}"#,
        r#"{"ok": true}"#,
        r#"{"ok": true, "result": {"pong": "true"}}"#,
    ] {
        let err = provider.ping(run(provider.request(OP_PING), answered(line))).unwrap_err();
        assert!(matches!(err, ProviderError::Parse(ref d) if d == MISSING_PONG));
        assert_eq!(err.key(), "parse_error");
    }
}

#[test]
fn refusal_line_is_server_error() {
    let provider = SettingsProvider::new();
    let line = r#"{"ok": false, "error": "unknown op: get_os"}"#;
    let err = provider.os(run(provider.request(OP_GET_OS), answered(line))).unwrap_err();
    assert!(matches!(err, ProviderError::Server(ref d) if d == "unknown op: get_os"));
}

#[test]
fn reply_numbers_keep_their_form() {
    let provider = SettingsProvider::new();
    let line = r#"{"ok": true, "result": {"ram": {"total_gb": 31.5, "total_mb": -1, "slots_used": 2}}}"#;
    let facts = provider.hardware(true, run(provider.request(OP_GET_HARDWARE), answered(line))).unwrap();
    assert_eq!(facts.ram.total_gb, JsonNumber::FloatBits(31.5f64.to_bits()));
    assert_eq!(facts.ram.total_mb, 0);
    assert_eq!(facts.ram.slots_used, Some(2));
}

#[test]
fn cloned_handle_keeps_path() {
    let provider = SettingsProvider::with_socket("/tmp/a.sock");
    assert_eq!(provider.clone().socket_path(), "/tmp/a.sock");
}

#[test]
fn hardware_and_os_pass_errors_through() {
    assert!(matches!(hardware(true, Err(ProviderError::Parse("bad".into()))), Err(ProviderError::Parse(_))));
    assert!(matches!(os(Err(ProviderError::Connection("c".into()))), Err(ProviderError::Connection(_))));
}

#[test]
fn hardware_basis_view_follows_flag() {
    let provider = SettingsProvider::new();
    let reply = || {
        r#"{"ok": true, "result": {"gpu0": {"name": "GPU", "vendor_id": "0x1"}, "ram": {"type": "ddr4", "slots_used": 2}}}"#
    };
    let detailed = provider
        .hardware(true, run(provider.request(OP_GET_HARDWARE), answered(reply())))
        .unwrap();
    let basis = provider
        .hardware(false, run(provider.request(OP_GET_HARDWARE), answered(reply())))
        .unwrap();
    assert_eq!(detailed.gpus[0].name.as_deref(), Some("GPU"));
    assert_eq!(detailed.ram.slots_used, Some(2));
    assert_eq!(detailed.ram.ram_type.as_str(), "DDR4");
    assert_eq!(basis.gpus[0].name, None);
    assert_eq!(basis.gpus[0].vendor_id.as_deref(), Some("0x1"));
    assert_eq!(basis.ram.ram_type.as_str(), "unknown");
    assert_eq!(basis.ram.slots_used, None);
    let stripped = detailed.without_details();
    assert_eq!(stripped.gpus[0].name, basis.gpus[0].name);
    assert_eq!(stripped.ram.ram_type, basis.ram.ram_type);
}

#[test]
fn os_reply_falls_back_to_defaults() {
    let provider = SettingsProvider::new();
    let reply = r#"{"ok": true, "result": {"os": {"codename": "Walrus"}}}"#;
    let facts = provider.os(run(provider.request(OP_GET_OS), answered(reply))).unwrap();
    assert_eq!(facts.codename, "Walrus");
    assert_eq!(facts.version, "26.1.0");
    assert_eq!(facts.name, "TontooOS");
}

#[test]
fn request_frame_names_op() {
    match request_frame("ping") {
        JsonValue::Object(entries) => {
            assert_eq!(entries.len(), 2);
            assert_eq!(entries[0].key, "id");
            assert_eq!(entries[1].key, "op");
            assert!(matches!(&entries[1].value, JsonValue::Str(s) if s == "ping"));
        }
        other => panic!("unexpected {:?}", other),
    }
}

#[test]
fn error_keys_and_details() {
    let e = ProviderError::SocketMissing("/run/x.sock".into());
    assert_eq!(e.key(), "socket_missing");
    assert_eq!(e.detail(), "/run/x.sock");
    assert_eq!(e.to_string_in(Locale::EnUs), "Settings daemon socket not found: /run/x.sock");
    assert_eq!(
        e.to_string_in(Locale::DeDe),
        "Settings-Daemon-Socket nicht gefunden: /run/x.sock"
    );
    assert_eq!(ProviderError::Connection(String::new()).key(), "connection_failed");
    assert_eq!(ProviderError::Server(String::new()).key(), "server_error");
    assert_eq!(ProviderError::Parse("p".into()).to_string_in(Locale::EnUs), "Failed to parse the settings daemon reply: p");
    let _ = ErrorKind::Parse;
}

#[test]
fn locale_choice() {
    assert_eq!(locale_from_settings(None, None, Some("de_DE.UTF-8")), Locale::DeDe);
    assert_eq!(locale_from_settings(Some("en_US.UTF-8"), None, Some("de_DE.UTF-8")), Locale::EnUs);
    assert_eq!(locale_from_settings(Some(""), Some("de_AT"), None), Locale::DeDe);
    assert_eq!(locale_from_settings(None, None, None), Locale::EnUs);
    assert_eq!(locale_from_settings(None, None, Some("d")), Locale::EnUs);
    assert_eq!(Locale::DeDe.code(), "de_de");
    assert_eq!(Locale::EnUs.code(), "en_us");
}

#[test]
fn messages_fall_back_to_key() {
    assert_eq!(t(Locale::EnUs, "server_error"), "Settings daemon reported an error");
    assert_eq!(t(Locale::DeDe, "server_error"), "Settings-Daemon meldet einen Fehler");
    assert_eq!(t(Locale::DeDe, "connection_failed"), "Verbindung zum Settings-Daemon fehlgeschlagen");
    assert_eq!(t(Locale::EnUs, "no_such_key"), "no_such_key");
}
