//! What the operations of the library are for, stated over the members of
//! the daemon's JSON replies and over the results, and proved.

use vstd::prelude::*;

use crate::error::{error_text, ErrorKind, ProviderError};
use crate::json::{
    entries_get, json_document, json_text, member_count, spec_get, JsonEntry, JsonNumber,
    JsonValue,
};
use crate::lang::{first_setting, locale_of, localized, Locale};
use crate::provider::{frame_gives, ping_gives, Event, Exchange};
use crate::text::{all_ascii, ascii_upper, decimal, digit_char, trimmed};
use crate::types::lemma_basis_keeps_cheap_facts;
use crate::types::{
    default_os, hardware_of, hardware_view, indexed_name, lemma_first_gap_found, listed_modules, os_of, present, GpuView,
    RamModuleView, RamType,
};

verus! {

// ---------------------------------------------------------------------------
// The members of a JSON value
// ---------------------------------------------------------------------------

/// The member `key` of `v` when it is a JSON string.
pub open spec fn text_member(v: JsonValue, key: Seq<char>) -> Option<Seq<char>> {
    match spec_get(v, key) {
        Some(JsonValue::Str(s)) => Some(s@),
        _ => None,
    }
}

/// The member `key` of `v` when it is a non-negative JSON integer.
pub open spec fn count_member(v: JsonValue, key: Seq<char>) -> Option<u64> {
    match spec_get(v, key) {
        Some(JsonValue::Number(JsonNumber::PosInt(n))) => Some(n),
        _ => None,
    }
}

/// The member `key` of `v` when it is a JSON boolean.
pub open spec fn flag_member(v: JsonValue, key: Seq<char>) -> Option<bool> {
    match spec_get(v, key) {
        Some(JsonValue::Bool(b)) => Some(b),
        _ => None,
    }
}

/// The items of the member `key` of `v` when it is a JSON array; none
/// otherwise.
pub open spec fn array_member(v: JsonValue, key: Seq<char>) -> Seq<JsonValue> {
    match spec_get(v, key) {
        Some(JsonValue::Array(items)) => items@,
        _ => Seq::empty(),
    }
}

/// Whether `s` is the member `key` of `v`, or `null` when `v` has none.
pub open spec fn member_or_null(v: JsonValue, key: Seq<char>, s: JsonValue) -> bool {
    spec_get(v, key) == Some(s) || (spec_get(v, key) is None && s == JsonValue::Null)
}

/// Whether the member `key` of `v` is missing or `null`.
pub open spec fn absent(v: JsonValue, key: Seq<char>) -> bool {
    spec_get(v, key) is None || spec_get(v, key) == Some(JsonValue::Null)
}

/// An optional count cut to its low 32 bits.
pub open spec fn low_bits(o: Option<u64>) -> Option<u32> {
    match o {
        Some(n) => Some(n as u32),
        None => None,
    }
}

/// Whether `f` holds the GPU facts of the JSON section `g`, member by member.
pub open spec fn gpu_facts_of(f: GpuView, g: JsonValue) -> bool {
    &&& f.name == text_member(g, "name"@)
    &&& f.vendor_id == text_member(g, "vendor_id"@)
    &&& f.device_id == text_member(g, "device_id"@)
    &&& f.vram_mb == count_member(g, "vram_mb"@)
    &&& f.pci_slot == text_member(g, "pci_slot"@)
    &&& f.driver == text_member(g, "driver"@)
    &&& f.subsystem == text_member(g, "subsystem"@)
}

/// Whether `f` holds the RAM module facts of the JSON entry `m`.
pub open spec fn module_facts_of(f: RamModuleView, m: JsonValue) -> bool {
    &&& f.locator == text_member(m, "locator"@)
    &&& f.size_mb == count_member(m, "size_mb"@)
    &&& f.speed_mts == count_member(m, "speed_mts"@)
    &&& f.manufacturer == text_member(m, "manufacturer"@)
    &&& f.part_number == text_member(m, "part_number"@)
}

/// Whether the indexed section `prefix` followed by `i` is present, not
/// `null`, and holds the GPU facts `f`.
pub open spec fn gpu_section_holds(v: JsonValue, prefix: Seq<char>, i: nat, f: GpuView) -> bool {
    match spec_get(v, prefix + decimal(i)) {
        Some(g) => !(g is Null) && gpu_facts_of(f, g),
        None => false,
    }
}

/// Whether the indexed section `prefix` followed by `i` is present, not
/// `null`, and holds the RAM module facts `f`.
pub open spec fn module_section_holds(
    v: JsonValue,
    prefix: Seq<char>,
    i: nat,
    f: RamModuleView,
) -> bool {
    match spec_get(v, prefix + decimal(i)) {
        Some(m) => !(m is Null) && module_facts_of(f, m),
        None => false,
    }
}

// ---------------------------------------------------------------------------
// Looking up a member
// ---------------------------------------------------------------------------

/// Looking up `key` in a list of members gives the value of the first
/// member with that key, and nothing exactly when no member has it.
pub proof fn law_member_lookup(es: Seq<JsonEntry>, key: Seq<char>)
    ensures
        entries_get(es, key) is None <==> forall|i: int|
            0 <= i < es.len() ==> (#[trigger] es[i]).key@ != key,
        forall|i: int|
            0 <= i < es.len() && (#[trigger] es[i]).key@ == key && (forall|j: int|
                0 <= j < i ==> es[j].key@ != key) ==> entries_get(es, key) == Some(es[i].value),
    decreases es.len(),
{
    if es.len() > 0 {
        law_member_lookup(es.drop_first(), key);
        assert forall|i: int| 0 < i < es.len() implies #[trigger] es[i] == es.drop_first()[i - 1] by {
        }
        if entries_get(es, key) is None {
            assert forall|i: int| 0 <= i < es.len() implies (#[trigger] es[i]).key@ != key by {
                if i > 0 {
                    assert(es[i] == es.drop_first()[i - 1]);
                }
            }
        }
        assert forall|i: int|
            0 <= i < es.len() && (#[trigger] es[i]).key@ == key && (forall|j: int|
                0 <= j < i ==> es[j].key@ != key) implies entries_get(es, key) == Some(
            es[i].value,
        ) by {
            if i > 0 {
                assert(es[0].key@ != key);
                assert(es[i] == es.drop_first()[i - 1]);
                assert forall|j: int| 0 <= j < i - 1 implies es.drop_first()[j].key@ != key by {
                    assert(es.drop_first()[j] == es[j + 1]);
                }
            }
        }
    }
}

// ---------------------------------------------------------------------------
// Reading hardware facts
// ---------------------------------------------------------------------------

/// The CPU facts are the members of the `processor` section: each text
/// member when it is a string, each count when it is a non-negative
/// integer (cores and threads cut to 32 bits), and nothing otherwise.
pub proof fn law_cpu_facts(result: JsonValue, p: JsonValue)
    requires
        member_or_null(result, "processor"@, p),
    ensures
        hardware_of(result).cpu.name == text_member(p, "name"@),
        hardware_of(result).cpu.vendor == text_member(p, "vendor"@),
        hardware_of(result).cpu.cores == low_bits(count_member(p, "cores"@)),
        hardware_of(result).cpu.threads == low_bits(count_member(p, "threads"@)),
        hardware_of(result).cpu.mhz == count_member(p, "mhz"@),
{
}

/// The memory facts are the members of the `ram` section: `total_mb` when
/// it is a non-negative integer (0 otherwise), `total_gb` when it is a
/// number (0.0 otherwise), the RAM type its `type` text names (`Unknown`
/// without one), and the slot counts cut to 32 bits.
pub proof fn law_ram_facts(result: JsonValue, ram: JsonValue)
    requires
        member_or_null(result, "ram"@, ram),
    ensures
        hardware_of(result).ram.total_mb == (match count_member(ram, "total_mb"@) {
            Some(n) => n,
            None => 0,
        }),
        hardware_of(result).ram.total_gb == (match spec_get(ram, "total_gb"@) {
            Some(JsonValue::Number(n)) => n,
            _ => JsonNumber::FloatBits(0),
        }),
        hardware_of(result).ram.ram_type == (match text_member(ram, "type"@) {
            Some(t) => RamType::of_raw(t),
            None => RamType::Unknown,
        }),
        hardware_of(result).ram.slots_used == low_bits(count_member(ram, "slots_used"@)),
        hardware_of(result).ram.slots_total == low_bits(count_member(ram, "slots_total"@)),
{
}

/// The GPUs are the sections `gpu0`, `gpu1`, ... in order, each read
/// member by member, up to the first one that is missing or `null`.
pub proof fn law_gpu_facts(result: JsonValue)
    ensures
        forall|i: int|
            0 <= i < hardware_of(result).gpus.len() ==> gpu_section_holds(
                result,
                "gpu"@,
                i as nat,
                #[trigger] hardware_of(result).gpus[i],
            ),
        absent(result, "gpu"@ + decimal(hardware_of(result).gpus.len())),
{
    lemma_first_gap_found(result, "gpu"@);
    let gs = hardware_of(result).gpus;
    assert forall|i: int| 0 <= i < gs.len() implies gpu_section_holds(
        result,
        "gpu"@,
        i as nat,
        #[trigger] gs[i],
    ) by {
        assert(present(result, "gpu"@, i as nat));
        assert(indexed_name("gpu"@, i as nat) == "gpu"@ + decimal(i as nat));
    }
}

/// The RAM modules are the items of the `modules` array of the `ram`
/// section when it has any, else the sections `module0`, `module1`, ... up
/// to the first one that is missing or `null`; each is read member by
/// member.
pub proof fn law_module_facts(result: JsonValue, ram: JsonValue)
    requires
        member_or_null(result, "ram"@, ram),
    ensures
        array_member(ram, "modules"@).len() > 0 ==> {
            &&& hardware_of(result).ram.modules.len() == array_member(ram, "modules"@).len()
            &&& forall|i: int|
                0 <= i < hardware_of(result).ram.modules.len() ==> module_facts_of(
                    #[trigger] hardware_of(result).ram.modules[i],
                    array_member(ram, "modules"@)[i],
                )
        },
        array_member(ram, "modules"@).len() == 0 ==> {
            &&& forall|i: int|
                0 <= i < hardware_of(result).ram.modules.len() ==> module_section_holds(
                    ram,
                    "module"@,
                    i as nat,
                    #[trigger] hardware_of(result).ram.modules[i],
                )
            &&& absent(ram, "module"@ + decimal(hardware_of(result).ram.modules.len()))
        },
{
    lemma_first_gap_found(ram, "module"@);
    let ms = hardware_of(result).ram.modules;
    if array_member(ram, "modules"@).len() == 0 {
        assert(listed_modules(ram).len() == 0);
        assert forall|i: int| 0 <= i < ms.len() implies module_section_holds(
            ram,
            "module"@,
            i as nat,
            #[trigger] ms[i],
        ) by {
            assert(present(ram, "module"@, i as nat));
            assert(indexed_name("module"@, i as nat) == "module"@ + decimal(i as nat));
        }
    }
}

// ---------------------------------------------------------------------------
// Reading OS facts
// ---------------------------------------------------------------------------

/// The OS facts are the members of the `os` section where they are
/// strings (a boolean for `beta`); each missing one is the compiled
/// default: TontooOS, TontooOS Seal, Seal, 26.1.0, not a beta.
pub proof fn law_os_facts(result: JsonValue, o: JsonValue)
    requires
        member_or_null(result, "os"@, o),
    ensures
        os_of(result).name == (match text_member(o, "name"@) {
            Some(s) => s,
            None => "TontooOS"@,
        }),
        os_of(result).display_name == (match text_member(o, "display_name"@) {
            Some(s) => s,
            None => "TontooOS Seal"@,
        }),
        os_of(result).codename == (match text_member(o, "codename"@) {
            Some(s) => s,
            None => "Seal"@,
        }),
        os_of(result).version == (match text_member(o, "version"@) {
            Some(s) => s,
            None => "26.1.0"@,
        }),
        os_of(result).beta == (match flag_member(o, "beta"@) {
            Some(b) => b,
            None => false,
        }),
{
}

// ---------------------------------------------------------------------------
// RAM types
// ---------------------------------------------------------------------------

/// A normalized RAM type text is DDR4 exactly when it reads `DDR4`, DDR5
/// exactly when it reads `DDR5`, and unknown for every other text.
pub proof fn law_ram_type_classes(s: Seq<char>)
    ensures
        (RamType::of_normalized(s) == RamType::Ddr4) == (s == seq!['D', 'D', 'R', '4']),
        (RamType::of_normalized(s) == RamType::Ddr5) == (s == seq!['D', 'D', 'R', '5']),
        (RamType::of_normalized(s) == RamType::Unknown) == (s != seq!['D', 'D', 'R', '4'] && s
            != seq!['D', 'D', 'R', '5']),
{
    reveal_strlit("DDR4");
    reveal_strlit("DDR5");
    assert("DDR4"@ =~= seq!['D', 'D', 'R', '4']);
    assert("DDR5"@ =~= seq!['D', 'D', 'R', '5']);
}

/// An ASCII text reads as DDR4 (DDR5) exactly when, without surrounding
/// white space and upper-cased, it is `DDR4` (`DDR5`).
pub proof fn law_ram_type_of_ascii_text(raw: Seq<char>)
    requires
        all_ascii(raw),
    ensures
        (RamType::of_raw(raw) == RamType::Ddr4) == (ascii_upper(trimmed(raw)) == seq![
            'D',
            'D',
            'R',
            '4',
        ]),
        (RamType::of_raw(raw) == RamType::Ddr5) == (ascii_upper(trimmed(raw)) == seq![
            'D',
            'D',
            'R',
            '5',
        ]),
{
    crate::text::lemma_trimmed_upper_commute(raw);
    law_ram_type_classes(ascii_upper(trimmed(raw)));
}

// ---------------------------------------------------------------------------
// Replies and requests
// ---------------------------------------------------------------------------

/// A reply frame whose `ok` member is `true` gives its `result` member (or
/// `null`), whatever other members it has; any other frame gives a server
/// error with its `error` text, or `unknown error`.
pub proof fn law_reply_outcome(frame: JsonValue, outcome: Result<JsonValue, ProviderError>)
    requires
        frame_gives(frame, outcome),
    ensures
        flag_member(frame, "ok"@) == Some(true) ==> outcome == Ok::<JsonValue, ProviderError>(
            match spec_get(frame, "result"@) {
                Some(x) => x,
                None => JsonValue::Null,
            },
        ),
        flag_member(frame, "ok"@) != Some(true) ==> (outcome matches Err(e) && e@ == (
            ErrorKind::Server,
            match text_member(frame, "error"@) {
                Some(m) => m,
                None => "unknown error"@,
            },
        )),
{
}

/// A ping answers with the reply's boolean `pong` member; a reply without
/// one is a `Parse` error; a failed request stays that failure, never a
/// pong answer.
pub proof fn law_ping(response: Result<JsonValue, ProviderError>, r: Result<bool, ProviderError>)
    requires
        ping_gives(response, r),
    ensures
        response matches Err(e) ==> r == Err::<bool, ProviderError>(e),
        r matches Ok(b) ==> (response matches Ok(v) && flag_member(v, "pong"@) == Some(b)),
        response matches Ok(v) ==> (match flag_member(v, "pong"@) {
            Some(b) => r == Ok::<bool, ProviderError>(b),
            None => (r matches Err(e) && e@.0 == ErrorKind::Parse),
        }),
{
}

/// Reading the reply ends the exchange: a failed read (such as a read
/// timeout) is a `Connection` error with its detail, a line that is not
/// JSON is a `Protocol` error, and a JSON reply gives what its frame gives.
pub proof fn law_exchange_receive(event: Event, next: Exchange)
    requires
        (Exchange::Receive).step_to(event, next),
    ensures
        event matches Event::Received { line: Err(d) } ==> (next == (Exchange::Done {
            outcome: Err(ProviderError::Connection(d)),
        })),
        event matches Event::Received { line: Ok(text) } ==> (match json_document(text@) {
            Some(f) => (next matches Exchange::Done { outcome } && frame_gives(f, outcome)),
            None => (next matches Exchange::Done { outcome } && outcome matches Err(e) && e@.0
                == ErrorKind::Protocol),
        }),
{
}

/// The detailed view is everything read from the reply; the basis view is
/// the detailed view without details, and taking it again changes nothing.
pub proof fn law_hardware_views(result: JsonValue)
    ensures
        hardware_view(true, result) == hardware_of(result),
        hardware_view(false, result) == hardware_view(true, result).basis(),
        hardware_view(false, result).cpu == hardware_of(result).cpu,
        hardware_view(false, result).gpus.len() == hardware_of(result).gpus.len(),
        hardware_view(false, result).ram.total_mb == hardware_of(result).ram.total_mb,
        hardware_view(false, result).ram.ram_type == RamType::Unknown,
        hardware_view(false, result).ram.modules.len() == 0,
{
    lemma_basis_keeps_cheap_facts(hardware_of(result));
}

/// The numeric value of a text of decimal digits.
pub open spec fn digits_value(s: Seq<char>) -> int
    decreases s.len(),
{
    if s.len() == 0 {
        0
    } else {
        digits_value(s.drop_last()) * 10 + (s.last() as int - '0' as int)
    }
}

/// A digit's character stands for that digit.
proof fn lemma_digit_char(d: nat)
    requires
        d < 10,
    ensures
        '0' <= digit_char(d) <= '9',
        digit_char(d) as int - '0' as int == d,
{
}

/// Keys such as `gpu10` carry the index in decimal: only the digits `0` to
/// `9`, no leading zero, and read back as the index.
pub proof fn law_decimal(n: nat)
    ensures
        digits_value(decimal(n)) == n,
        forall|i: int| 0 <= i < decimal(n).len() ==> '0' <= #[trigger] decimal(n)[i] <= '9',
        decimal(n).len() > 1 ==> decimal(n)[0] != '0',
    decreases n,
{
    if n < 10 {
        lemma_digit_char(n);
        let s = decimal(n);
        assert(s.drop_last() =~= Seq::<char>::empty());
        assert(digits_value(s.drop_last()) == 0);
        assert(s.last() == digit_char(n));
    } else {
        law_decimal(n / 10);
        lemma_digit_char(n % 10);
        let s = decimal(n);
        assert(s == decimal(n / 10).push(digit_char(n % 10)));
        assert(s.drop_last() =~= decimal(n / 10));
        assert(s.last() == digit_char(n % 10));
        assert(digits_value(s) == digits_value(s.drop_last()) * 10 + (s.last() as int - '0' as int));
        assert(n == (n / 10) * 10 + n % 10);
        assert forall|i: int| 0 <= i < s.len() implies '0' <= #[trigger] s[i] <= '9' by {
            if i < s.len() - 1 {
                assert(s[i] == decimal(n / 10)[i]);
            }
        }
        if n / 10 < 10 {
            lemma_digit_char(n / 10);
            assert(decimal(n / 10) == seq![digit_char(n / 10)]);
            assert(decimal(n / 10)[0] != '0');
        }
        lemma_decimal_len_pos(n / 10);
        assert(s[0] == decimal(n / 10)[0]);
    }
}

/// A decimal form has at least one digit, and at least two from 10 on.
proof fn lemma_decimal_len_pos(n: nat)
    ensures
        decimal(n).len() >= 1,
        n >= 10 ==> decimal(n).len() >= 2,
    decreases n,
{
    if n >= 10 {
        lemma_decimal_len_pos(n / 10);
    }
}

/// The locale codes: `en_us` and `de_de`.
pub proof fn law_locale_codes()
    ensures
        Locale::EnUs.code_text() == seq!['e', 'n', '_', 'u', 's'],
        Locale::DeDe.code_text() == seq!['d', 'e', '_', 'd', 'e'],
{
    reveal_strlit("en_us");
    reveal_strlit("de_de");
    assert("en_us"@ =~= seq!['e', 'n', '_', 'u', 's']);
    assert("de_de"@ =~= seq!['d', 'e', '_', 'd', 'e']);
}

/// The RAM type names: `DDR4`, `DDR5` and `unknown`.
pub proof fn law_ram_type_names()
    ensures
        RamType::Ddr4.name() == seq!['D', 'D', 'R', '4'],
        RamType::Ddr5.name() == seq!['D', 'D', 'R', '5'],
        RamType::Unknown.name() == seq!['u', 'n', 'k', 'n', 'o', 'w', 'n'],
{
    reveal_strlit("DDR4");
    reveal_strlit("DDR5");
    reveal_strlit("unknown");
    assert("DDR4"@ =~= seq!['D', 'D', 'R', '4']);
    assert("DDR5"@ =~= seq!['D', 'D', 'R', '5']);
    assert("unknown"@ =~= seq!['u', 'n', 'k', 'n', 'o', 'w', 'n']);
}

/// The compiled OS defaults are what a reply without an `os` section
/// reads as.
pub proof fn law_os_default_is_empty_reply(result: JsonValue)
    requires
        spec_get(result, "os"@) is None,
    ensures
        os_of(result) == default_os(),
        default_os().name == "TontooOS"@,
        default_os().display_name == "TontooOS Seal"@,
        default_os().codename == "Seal"@,
        default_os().version == "26.1.0"@,
        !default_os().beta,
{
}

/// A request starts by probing the socket: a missing socket fails with
/// `SocketMissing` carrying the path, an existing one is connected to with
/// the 10 second read timeout, for the same request.
pub proof fn law_exchange_probe(path: String, op: String, event: Event, next: Exchange)
    requires
        (Exchange::Probe { path, op }).step_to(event, next),
    ensures
        event matches Event::Probed { exists: true } ==> (next matches Exchange::Connect {
            path: p,
            op: o,
            timeout_secs,
        } && p == path && o == op && timeout_secs == 10),
        event matches Event::Probed { exists: false } ==> (next matches Exchange::Done { outcome }
            && outcome matches Err(e) && e@ == (ErrorKind::SocketMissing, path@)),
{
}

/// Once connected, the request sent is the frame whose members are `id`
/// 1 and `op` the request, written as JSON text and a line feed; a failed
/// connection is a `Connection` error with its detail.
pub proof fn law_exchange_connect(path: String, op: String, t: u64, event: Event, next: Exchange)
    requires
        (Exchange::Connect { path, op, timeout_secs: t }).step_to(event, next),
    ensures
        event matches Event::Connected { result: Ok(_) } ==> (next matches Exchange::Send {
            frame,
            line,
        } && member_count(frame) == 2 && spec_get(frame, "id"@) == Some(
            JsonValue::Number(JsonNumber::PosInt(1)),
        ) && text_member(frame, "op"@) == Some(op@) && line@ == json_text(frame) + seq!['\n']),
        event matches Event::Connected { result: Err(d) } ==> (next == (Exchange::Done {
            outcome: Err(ProviderError::Connection(d)),
        })),
{
    reveal_strlit("id");
    reveal_strlit("op");
    assert("id"@ != "op"@) by {
        assert("id"@[0] != "op"@[0]);
    }
    if let Event::Connected { result: Ok(_) } = event {
        if let Exchange::Send { frame, line } = next {
            if let JsonValue::Object(es) = frame {
                assert(es@.drop_first()[0] == es@[1]);
                assert(entries_get(es@, "op"@) == entries_get(es@.drop_first(), "op"@));
            }
        }
    }
}

/// After sending, the reply is read; a failed write is a `Connection`
/// error with its detail.
pub proof fn law_exchange_send(frame: JsonValue, line: String, event: Event, next: Exchange)
    requires
        (Exchange::Send { frame, line }).step_to(event, next),
    ensures
        event matches Event::Sent { result: Ok(_) } ==> next is Receive,
        event matches Event::Sent { result: Err(d) } ==> (next == (Exchange::Done {
            outcome: Err(ProviderError::Connection(d)),
        })),
{
}

// ---------------------------------------------------------------------------
// Messages
// ---------------------------------------------------------------------------

/// The message table: each of the five keys has its English and German
/// message, and every other key stands for itself.
pub proof fn law_messages(locale: Locale, key: Seq<char>)
    ensures
        localized(Locale::EnUs, "socket_missing"@) == "Settings daemon socket not found"@,
        localized(Locale::EnUs, "connection_failed"@) == "Failed to connect to the settings daemon"@,
        localized(Locale::EnUs, "protocol_error"@) == "Settings daemon protocol error"@,
        localized(Locale::EnUs, "server_error"@) == "Settings daemon reported an error"@,
        localized(Locale::EnUs, "parse_error"@) == "Failed to parse the settings daemon reply"@,
        localized(Locale::DeDe, "socket_missing"@) == "Settings-Daemon-Socket nicht gefunden"@,
        localized(Locale::DeDe, "connection_failed"@)
            == "Verbindung zum Settings-Daemon fehlgeschlagen"@,
        localized(Locale::DeDe, "protocol_error"@) == "Settings-Daemon-Protokollfehler"@,
        localized(Locale::DeDe, "server_error"@) == "Settings-Daemon meldet einen Fehler"@,
        localized(Locale::DeDe, "parse_error"@)
            == "Antwort des Settings-Daemon konnte nicht gelesen werden"@,
        key != "socket_missing"@ && key != "connection_failed"@ && key != "protocol_error"@ && key
            != "server_error"@ && key != "parse_error"@ ==> localized(locale, key) == key,
{
    reveal_strlit("socket_missing");
    reveal_strlit("connection_failed");
    reveal_strlit("protocol_error");
    reveal_strlit("server_error");
    reveal_strlit("parse_error");
    assert("connection_failed"@ != "socket_missing"@) by {
        assert("connection_failed"@.len() != "socket_missing"@.len());
    }
    assert("protocol_error"@ != "socket_missing"@) by {
        assert("protocol_error"@[0] != "socket_missing"@[0]);
    }
    assert("protocol_error"@ != "connection_failed"@) by {
        assert("protocol_error"@.len() != "connection_failed"@.len());
    }
    assert("server_error"@ != "socket_missing"@) by {
        assert("server_error"@.len() != "socket_missing"@.len());
    }
    assert("server_error"@ != "connection_failed"@) by {
        assert("server_error"@.len() != "connection_failed"@.len());
    }
    assert("server_error"@ != "protocol_error"@) by {
        assert("server_error"@.len() != "protocol_error"@.len());
    }
    assert("parse_error"@ != "socket_missing"@) by {
        assert("parse_error"@.len() != "socket_missing"@.len());
    }
    assert("parse_error"@ != "connection_failed"@) by {
        assert("parse_error"@.len() != "connection_failed"@.len());
    }
    assert("parse_error"@ != "protocol_error"@) by {
        assert("parse_error"@.len() != "protocol_error"@.len());
    }
    assert("parse_error"@ != "server_error"@) by {
        assert("parse_error"@.len() != "server_error"@.len());
    }
}

/// The text of an error is the message of its kind in the locale (keyed
/// `socket_missing`, `connection_failed`, `protocol_error`, `server_error`,
/// `parse_error`), then `: `, then its detail.
pub proof fn law_error_text(e: (ErrorKind, Seq<char>), locale: Locale)
    ensures
        ({
            let key = match e.0 {
                ErrorKind::SocketMissing => "socket_missing"@,
                ErrorKind::Connection => "connection_failed"@,
                ErrorKind::Protocol => "protocol_error"@,
                ErrorKind::Server => "server_error"@,
                ErrorKind::Parse => "parse_error"@,
            };
            let m = localized(locale, key);
            &&& error_text(e, locale).len() == m.len() + 2 + e.1.len()
            &&& error_text(e, locale).subrange(0, m.len() as int) == m
            &&& error_text(e, locale)[m.len() as int] == ':'
            &&& error_text(e, locale)[m.len() + 1int] == ' '
            &&& error_text(e, locale).subrange(m.len() + 2int, error_text(e, locale).len() as int)
                == e.1
        }),
{
    let key = match e.0 {
        ErrorKind::SocketMissing => "socket_missing"@,
        ErrorKind::Connection => "connection_failed"@,
        ErrorKind::Protocol => "protocol_error"@,
        ErrorKind::Server => "server_error"@,
        ErrorKind::Parse => "parse_error"@,
    };
    let m = localized(locale, key);
    let s = error_text(e, locale);
    assert(s.subrange(0, m.len() as int) =~= m);
    assert(s.subrange(m.len() + 2int, s.len() as int) =~= e.1);
}

/// The locale: German exactly when the deciding setting starts with `de`;
/// a set, non-empty `LC_ALL` decides alone; an unset or empty setting is
/// passed over for the next; with none set the locale is English.
pub proof fn law_locale_choice(
    lc_all: Option<Seq<char>>,
    lc_messages: Option<Seq<char>>,
    lang: Option<Seq<char>>,
    s: Seq<char>,
)
    ensures
        (locale_of(Some(s)) == Locale::DeDe) == (s.len() >= 2 && s[0] == 'd' && s[1] == 'e'),
        locale_of(None) == Locale::EnUs,
        (lc_all matches Some(a) && a.len() > 0) ==> first_setting(lc_all, lc_messages, lang)
            == lc_all,
        !(lc_all matches Some(a) && a.len() > 0) ==> first_setting(lc_all, lc_messages, lang)
            == first_setting(None, lc_messages, lang),
        !(lc_messages matches Some(m) && m.len() > 0) ==> first_setting(None, lc_messages, lang)
            == first_setting(None, None, lang),
        (lang matches Some(l) && l.len() > 0) ==> first_setting(None, None, lang) == lang,
        !(lang matches Some(l) && l.len() > 0) ==> first_setting(None, None, lang) is None,
{
}

} // verus!
