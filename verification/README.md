# coresettings

Client library for TontooOS system facts: hardware (`sys.fico`) and OS
identity (`os.fico`) as the settings daemon reports them over its unix
socket. A missing daemon is an error, never fallback data.

## Layout

- `src/` — the verified library.
  - `json.rs`: the JSON values a daemon reply is made of, their lookups,
    and reading and writing JSON text through serde_json.
  - `types.rs`: RAM types, hardware and OS facts, reading them from a reply,
    and the basis view of hardware facts.
  - `provider.rs`: the client handle, the steps of one request exchange
    (probe the socket, connect, send the request line, read the reply
    line),
    and what a reply gives for `ping`, `get_hardware` and `get_os`.
  - `error.rs`, `lang.rs`: request errors and their localized messages.
  - `text.rs`: white space, ASCII case, decimal digits, trimming, and
    the upper-casing the library calls.
- `app/` — the socket work each exchange step asks for, the environment,
  and serde-enabled copies of the fact types.
- `tests/` — tests of the library.
