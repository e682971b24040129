use coresettings::json::{JsonEntry, JsonNumber, JsonValue};
use coresettings::types::RamModule;
use coresettings::{Hardware, Os, RamType};

fn obj(entries: Vec<(&str, JsonValue)>) -> JsonValue {
    JsonValue::Object(
        entries
            .into_iter()
            .map(|(k, v)| JsonEntry { key: k.to_string(), value: v })
            .collect(),
    )
}

fn text(s: &str) -> JsonValue {
    JsonValue::Str(s.to_string())
}

fn num(n: u64) -> JsonValue {
    JsonValue::Number(JsonNumber::PosInt(n))
}

fn float(x: f64) -> JsonValue {
    JsonValue::Number(JsonNumber::FloatBits(x.to_bits()))
}

fn as_f64(n: JsonNumber) -> f64 {
    match n {
        JsonNumber::PosInt(v) => v as f64,
        JsonNumber::NegInt(v) => v as f64,
        JsonNumber::FloatBits(b) => f64::from_bits(b),
    }
}

fn hardware_fixture() -> JsonValue {
    obj(vec![
        (
            "processor",
            obj(vec![
                ("name", text("Test CPU")),
                ("vendor", text("Intel")),
                ("cores", num(8)),
                ("threads", num(16)),
                ("mhz", num(3700)),
            ]),
        ),
        (
            "gpu0",
            obj(vec![
                ("name", text("Test GPU")),
                ("vendor_id", text("0x1002")),
                ("vram_mb", num(8192)),
                ("driver", text("amdgpu")),
            ]),
        ),
        (
            "ram",
            obj(vec![
                ("total_mb", num(32768)),
                ("total_gb", float(32.0)),
                ("type", text("DDR5")),
                ("slots_used", num(2)),
                (
                    "module0",
                    obj(vec![
                        ("locator", text("DIMM 0")),
                        ("size_mb", num(16384)),
                        ("speed_mts", num(4800)),
                    ]),
                ),
            ]),
        ),
    ])
}

#[test]
fn parse_hardware_fixture() {
    let hardware = Hardware::from_json(&hardware_fixture());
    assert_eq!(hardware.cpu.name.as_deref(), Some("Test CPU"));
    assert_eq!(hardware.cpu.cores, Some(8));
    assert_eq!(hardware.gpus.len(), 1);
    assert_eq!(hardware.gpus[0].vram_mb, Some(8192));
    assert_eq!(hardware.ram.ram_type, RamType::Ddr5);
    assert_eq!(hardware.ram.modules.len(), 1);
    assert_eq!(hardware.ram.modules[0].speed_mts, Some(4800));
}

#[test]
fn without_details_strips() {
    let hardware = Hardware::from_json(&hardware_fixture()).without_details();
    assert_eq!(hardware.cpu.name.as_deref(), Some("Test CPU"));
    assert_eq!(hardware.gpus[0].name, None);
    assert_eq!(hardware.gpus[0].driver, None);
    assert_eq!(hardware.gpus[0].vram_mb, Some(8192));
    assert_eq!(hardware.ram.ram_type, RamType::Unknown);
    assert!(hardware.ram.modules.is_empty());
    assert_eq!(hardware.ram.slots_used, None);
    assert_eq!(as_f64(hardware.ram.total_gb), 32.0);
}

#[test]
fn parse_os_fixture_with_defaults() {
    let os = Os::from_json(&obj(vec![(
        "os",
        obj(vec![("version", text("26.2.0")), ("beta", JsonValue::Bool(true))]),
    )]));
    assert_eq!(os.version, "26.2.0");
    assert!(os.beta);
    assert_eq!(os.display_name, "TontooOS Seal");
    let empty = Os::from_json(&obj(vec![]));
    assert_eq!(empty, Os::default());
}

#[test]
fn ram_type_mapping() {
    assert_eq!(RamType::from_str("DDR4"), RamType::Ddr4);
    assert_eq!(RamType::from_str("ddr5"), RamType::Ddr5);
    assert_eq!(RamType::from_str("LPDDR5"), RamType::Unknown);
}

#[test]
fn ram_type_ignores_white_space_and_case() {
    assert_eq!(RamType::from_str("  dDr4\n"), RamType::Ddr4);
    assert_eq!(RamType::from_str("\u{3000}DDR5\t"), RamType::Ddr5);
    assert_eq!(RamType::from_str("DDR 4"), RamType::Unknown);
    assert_eq!(RamType::from_str(&"DDR5".to_lowercase()), RamType::Ddr5);
    assert_eq!(RamType::from_str(""), RamType::Unknown);
    assert_eq!(RamType::from_normalized("ddr4"), RamType::Unknown);
    assert_eq!(RamType::from_normalized("DDR4"), RamType::Ddr4);
}

#[test]
fn ram_type_names_read_back() {
    for t in [RamType::Ddr4, RamType::Ddr5, RamType::Unknown] {
        assert_eq!(RamType::from_str(t.as_str()), t);
    }
    assert_eq!(RamType::Ddr4.as_str(), "DDR4");
    assert_eq!(RamType::Ddr5.as_str(), "DDR5");
    assert_eq!(RamType::Unknown.as_str(), "unknown");
}

#[test]
fn gpus_stop_at_first_gap() {
    let reply = obj(vec![
        ("gpu0", obj(vec![("vendor_id", text("0x10de"))])),
        ("gpu1", obj(vec![("device_id", text("0x2204"))])),
        ("gpu3", obj(vec![("vendor_id", text("0x8086"))])),
    ]);
    let hardware = Hardware::from_json(&reply);
    assert_eq!(hardware.gpus.len(), 2);
    assert_eq!(hardware.gpus[0].vendor_id.as_deref(), Some("0x10de"));
    assert_eq!(hardware.gpus[1].device_id.as_deref(), Some("0x2204"));
    assert_eq!(hardware.gpus[1].vendor_id, None);

    let with_null = obj(vec![("gpu0", JsonValue::Null), ("gpu1", obj(vec![]))]);
    assert!(Hardware::from_json(&with_null).gpus.is_empty());
}

#[test]
fn gpus_use_decimal_keys_with_no_fixed_limit() {
    let mut entries = Vec::new();
    for i in 0..70u64 {
        entries.push(JsonEntry {
            key: format!("gpu{}", i),
            value: obj(vec![("vram_mb", num(i))]),
        });
    }
    let hardware = Hardware::from_json(&JsonValue::Object(entries));
    assert_eq!(hardware.gpus.len(), 70);
    assert_eq!(hardware.gpus[10].vram_mb, Some(10));
    assert_eq!(hardware.gpus[69].vram_mb, Some(69));
}

#[test]
fn modules_array_form_comes_first() {
    let ram = obj(vec![
        (
            "modules",
            JsonValue::Array(vec![
                obj(vec![("locator", text("A1")), ("manufacturer", text("Acme"))]),
                text("not a module"),
            ]),
        ),
        ("module0", obj(vec![("locator", text("ignored"))])),
    ]);
    let hardware = Hardware::from_json(&obj(vec![("ram", ram)]));
    assert_eq!(hardware.ram.modules.len(), 2);
    assert_eq!(hardware.ram.modules[0].locator.as_deref(), Some("A1"));
    assert_eq!(hardware.ram.modules[0].manufacturer.as_deref(), Some("Acme"));
    let second: &RamModule = &hardware.ram.modules[1];
    assert_eq!(second.locator, None);
    assert_eq!(second.size_mb, None);

    let empty_array = obj(vec![
        ("modules", JsonValue::Array(vec![])),
        ("module0", obj(vec![("part_number", text("X-1"))])),
        ("module1", obj(vec![("size_mb", num(8192))])),
    ]);
    let hardware = Hardware::from_json(&obj(vec![("ram", empty_array)]));
    assert_eq!(hardware.ram.modules.len(), 2);
    assert_eq!(hardware.ram.modules[0].part_number.as_deref(), Some("X-1"));
    assert_eq!(hardware.ram.modules[1].size_mb, Some(8192));
}

#[test]
fn counts_keep_their_low_32_bits() {
    let reply = obj(vec![
        ("processor", obj(vec![("cores", num((1u64 << 32) + 3)), ("threads", text("16"))])),
        ("ram", obj(vec![("slots_total", num(4)), ("total_mb", JsonValue::Bool(true))])),
    ]);
    let hardware = Hardware::from_json(&reply);
    assert_eq!(hardware.cpu.cores, Some(3));
    assert_eq!(hardware.cpu.threads, None);
    assert_eq!(hardware.ram.slots_total, Some(4));
    assert_eq!(hardware.ram.total_mb, 0);
}

#[test]
fn missing_sections_stay_empty() {
    let hardware = Hardware::from_json(&JsonValue::Null);
    let default = Hardware::default();
    assert_eq!(hardware.cpu.name, None);
    assert!(hardware.gpus.is_empty());
    assert_eq!(hardware.ram.total_mb, 0);
    assert_eq!(as_f64(hardware.ram.total_gb), 0.0);
    assert_eq!(hardware.ram.ram_type, RamType::Unknown);
    assert!(hardware.ram.modules.is_empty());
    assert_eq!(default.ram.total_mb, hardware.ram.total_mb);
    assert_eq!(default.gpus.len(), 0);
    assert_eq!(default.ram.ram_type, RamType::Unknown);
}

#[test]
fn integer_total_gb_is_kept() {
    let hardware = Hardware::from_json(&obj(vec![("ram", obj(vec![("total_gb", num(16))]))]));
    assert_eq!(hardware.ram.total_gb, JsonNumber::PosInt(16));
    assert_eq!(as_f64(hardware.ram.total_gb), 16.0);
}

#[test]
fn without_details_twice_is_once() {
    let once = Hardware::from_json(&hardware_fixture()).without_details();
    let twice = once.without_details();
    assert_eq!(twice.cpu.vendor, once.cpu.vendor);
    assert_eq!(twice.gpus.len(), once.gpus.len());
    assert_eq!(twice.gpus[0].vendor_id, once.gpus[0].vendor_id);
    assert_eq!(twice.gpus[0].vram_mb, once.gpus[0].vram_mb);
    assert_eq!(twice.ram.total_mb, once.ram.total_mb);
    assert_eq!(twice.ram.ram_type, once.ram.ram_type);
}

#[test]
fn os_defaults_and_overrides() {
    let default = Os::default();
    assert_eq!(default.name, "TontooOS");
    assert_eq!(default.display_name, "TontooOS Seal");
    assert_eq!(default.codename, "Seal");
    assert_eq!(default.version, "26.1.0");
    assert!(!default.beta);
    let os = Os::from_json(&obj(vec![(
        "os",
        obj(vec![
            ("name", text("Other")),
            ("codename", num(3)),
            ("beta", text("yes")),
        ]),
    )]));
    assert_eq!(os.name, "Other");
    assert_eq!(os.codename, "Seal");
    assert!(!os.beta);
    assert_eq!(Os::from_json(&obj(vec![("os", text("x"))])), Os::default());
}
