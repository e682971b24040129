//! Hardware and OS facts as the settings daemon reports them, their
//! reading from a daemon reply, and the basis view of hardware facts.

use vstd::prelude::*;
use vstd::relations::injective_on;
use vstd::set_lib::{lemma_int_range, lemma_len_subset, lemma_map_size, set_int_range};

use crate::json::{
    entries_get, member_count, JsonEntry, field_bool, field_number, field_str, field_u64, spec_as_array, spec_get, text_eq, JsonNumber, JsonValue,
};
use crate::text::{
    all_ascii, ascii_lower, ascii_upper, decimal, indexed_key, lemma_decimal_injective, lemma_ascii_case_maps,
    lemma_trimmed_upper_commute, trim_end, trim_start, trim_text, trimmed, upper_text, uppercased,
};

verus! {

// ---------------------------------------------------------------------------
// RAM type
// ---------------------------------------------------------------------------

/// Classified RAM type. Only DDR4 and DDR5 are distinguished.
#[derive(Debug, Clone, Copy, PartialEq, Eq, Structural)]
pub enum RamType {
    Ddr4,
    Ddr5,
    Unknown,
}

/// The text a raw RAM type is classified by: trimmed, then upper-cased.
pub open spec fn normalized_ram_type(raw: Seq<char>) -> Seq<char> {
    let t = trimmed(raw);
    if all_ascii(t) {
        ascii_upper(t)
    } else {
        uppercased(t)
    }
}

impl RamType {
    /// The name of each variant.
    pub open spec fn name(self) -> Seq<char> {
        match self {
            RamType::Ddr4 => "DDR4"@,
            RamType::Ddr5 => "DDR5"@,
            RamType::Unknown => "unknown"@,
        }
    }

    /// The variant an already normalized text names.
    pub open spec fn of_normalized(s: Seq<char>) -> RamType {
        if s == "DDR4"@ {
            RamType::Ddr4
        } else if s == "DDR5"@ {
            RamType::Ddr5
        } else {
            RamType::Unknown
        }
    }

    /// The variant a raw text names, ignoring surrounding white space and case.
    pub open spec fn of_raw(raw: Seq<char>) -> RamType {
        RamType::of_normalized(normalized_ram_type(raw))
    }

    pub fn as_str(&self) -> (r: &'static str)
        ensures
            r@ == self.name(),
    {
        match self {
            RamType::Ddr4 => "DDR4",
            RamType::Ddr5 => "DDR5",
            RamType::Unknown => "unknown",
        }
    }

    /// Classifies a text that is already trimmed and upper-cased.
    pub fn from_normalized(upper: &str) -> (r: RamType)
        ensures
            r == RamType::of_normalized(upper@),
    {
        if text_eq(upper, "DDR4") {
            RamType::Ddr4
        } else if text_eq(upper, "DDR5") {
            RamType::Ddr5
        } else {
            RamType::Unknown
        }
    }

    /// Classifies a raw RAM type text, case-insensitively and ignoring
    /// surrounding white space; anything but DDR4 and DDR5 is `Unknown`.
    pub fn from_str(raw: &str) -> (r: RamType)
        ensures
            r == RamType::of_raw(raw@),
    {
        let t = trim_text(raw);
        let upper = upper_text(t);
        RamType::from_normalized(upper.as_str())
    }
}

/// A RAM type's name reads back as that RAM type.
pub proof fn lemma_ram_type_name_round_trip(t: RamType)
    ensures
        RamType::of_raw(t.name()) == t,
{
    reveal_strlit("DDR4");
    reveal_strlit("DDR5");
    reveal_strlit("unknown");
    let s = t.name();
    assert(trim_start(s) == s);
    assert(trim_end(s) == s);
    assert(all_ascii(s));
    if t is Unknown {
        assert(ascii_upper(s).len() == 7);
    } else {
        assert(ascii_upper(s) =~= s);
    }
}

/// Two ASCII texts that differ only in case read as the same RAM type.
pub proof fn lemma_ram_type_ignores_ascii_case(a: Seq<char>, b: Seq<char>)
    requires
        all_ascii(a),
        all_ascii(b),
        ascii_upper(a) == ascii_upper(b),
    ensures
        RamType::of_raw(a) == RamType::of_raw(b),
{
    lemma_trimmed_upper_commute(a);
    lemma_trimmed_upper_commute(b);
}

/// Reading a RAM type from ASCII text gives the same type for the text,
/// its upper-case form and its lower-case form.
pub proof fn lemma_ram_type_ignores_case(raw: Seq<char>)
    requires
        all_ascii(raw),
    ensures
        RamType::of_raw(ascii_upper(raw)) == RamType::of_raw(raw),
        RamType::of_raw(ascii_lower(raw)) == RamType::of_raw(raw),
{
    lemma_ascii_case_maps(raw);
    lemma_ascii_case_maps(ascii_upper(raw));
    lemma_ram_type_ignores_ascii_case(ascii_upper(raw), raw);
    lemma_ram_type_ignores_ascii_case(ascii_lower(raw), raw);
}

// ---------------------------------------------------------------------------
// Hardware facts
// ---------------------------------------------------------------------------

/// Processor facts.
#[derive(Debug, Clone, Default)]
pub struct Cpu {
    pub name: Option<String>,
    pub vendor: Option<String>,
    pub cores: Option<u32>,
    pub threads: Option<u32>,
    pub mhz: Option<u64>,
}

/// Graphics device facts. `vram_mb` is `None` for shared-memory GPUs;
/// `pci_slot`, `driver` and `subsystem` belong to the detailed view only.
#[derive(Debug, Clone, Default)]
pub struct Gpu {
    pub name: Option<String>,
    pub vendor_id: Option<String>,
    pub device_id: Option<String>,
    pub vram_mb: Option<u64>,
    pub pci_slot: Option<String>,
    pub driver: Option<String>,
    pub subsystem: Option<String>,
}

/// One physical RAM module; part of the detailed view only.
#[derive(Debug, Clone, Default)]
pub struct RamModule {
    pub locator: Option<String>,
    pub size_mb: Option<u64>,
    pub speed_mts: Option<u64>,
    pub manufacturer: Option<String>,
    pub part_number: Option<String>,
}

/// Memory facts. `total_gb` is the number the daemon reported, kept as
/// the JSON number it was (read as a float by callers).
#[derive(Debug, Clone)]
pub struct Ram {
    pub total_mb: u64,
    pub total_gb: JsonNumber,
    pub ram_type: RamType,
    pub slots_used: Option<u32>,
    pub slots_total: Option<u32>,
    pub modules: Vec<RamModule>,
}

/// Full hardware snapshot.
#[derive(Debug, Clone)]
pub struct Hardware {
    pub cpu: Cpu,
    pub gpus: Vec<Gpu>,
    pub ram: Ram,
}

pub struct CpuView {
    pub name: Option<Seq<char>>,
    pub vendor: Option<Seq<char>>,
    pub cores: Option<u32>,
    pub threads: Option<u32>,
    pub mhz: Option<u64>,
}

pub struct GpuView {
    pub name: Option<Seq<char>>,
    pub vendor_id: Option<Seq<char>>,
    pub device_id: Option<Seq<char>>,
    pub vram_mb: Option<u64>,
    pub pci_slot: Option<Seq<char>>,
    pub driver: Option<Seq<char>>,
    pub subsystem: Option<Seq<char>>,
}

pub struct RamModuleView {
    pub locator: Option<Seq<char>>,
    pub size_mb: Option<u64>,
    pub speed_mts: Option<u64>,
    pub manufacturer: Option<Seq<char>>,
    pub part_number: Option<Seq<char>>,
}

pub struct RamView {
    pub total_mb: u64,
    pub total_gb: JsonNumber,
    pub ram_type: RamType,
    pub slots_used: Option<u32>,
    pub slots_total: Option<u32>,
    pub modules: Seq<RamModuleView>,
}

pub struct HardwareView {
    pub cpu: CpuView,
    pub gpus: Seq<GpuView>,
    pub ram: RamView,
}

impl View for Cpu {
    type V = CpuView;

    open spec fn view(&self) -> CpuView {
        CpuView {
            name: self.name.deep_view(),
            vendor: self.vendor.deep_view(),
            cores: self.cores,
            threads: self.threads,
            mhz: self.mhz,
        }
    }
}

impl View for Gpu {
    type V = GpuView;

    open spec fn view(&self) -> GpuView {
        GpuView {
            name: self.name.deep_view(),
            vendor_id: self.vendor_id.deep_view(),
            device_id: self.device_id.deep_view(),
            vram_mb: self.vram_mb,
            pci_slot: self.pci_slot.deep_view(),
            driver: self.driver.deep_view(),
            subsystem: self.subsystem.deep_view(),
        }
    }
}

impl View for RamModule {
    type V = RamModuleView;

    open spec fn view(&self) -> RamModuleView {
        RamModuleView {
            locator: self.locator.deep_view(),
            size_mb: self.size_mb,
            speed_mts: self.speed_mts,
            manufacturer: self.manufacturer.deep_view(),
            part_number: self.part_number.deep_view(),
        }
    }
}

impl View for Ram {
    type V = RamView;

    open spec fn view(&self) -> RamView {
        RamView {
            total_mb: self.total_mb,
            total_gb: self.total_gb,
            ram_type: self.ram_type,
            slots_used: self.slots_used,
            slots_total: self.slots_total,
            modules: self.modules@.map_values(|m: RamModule| m@),
        }
    }
}

impl View for Hardware {
    type V = HardwareView;

    open spec fn view(&self) -> HardwareView {
        HardwareView {
            cpu: self.cpu@,
            gpus: self.gpus@.map_values(|g: Gpu| g@),
            ram: self.ram@,
        }
    }
}

impl GpuView {
    /// The basis view of a GPU: name, slot, driver and subsystem dropped.
    pub open spec fn basis(self) -> GpuView {
        GpuView { name: None, pci_slot: None, driver: None, subsystem: None, ..self }
    }
}

impl RamView {
    /// The basis view of memory: type unknown, slots and modules dropped.
    pub open spec fn basis(self) -> RamView {
        RamView {
            ram_type: RamType::Unknown,
            slots_used: None,
            slots_total: None,
            modules: Seq::empty(),
            ..self
        }
    }
}

impl HardwareView {
    /// The basis view: CPU facts stay, GPU and memory details go.
    pub open spec fn basis(self) -> HardwareView {
        HardwareView {
            cpu: self.cpu,
            gpus: self.gpus.map_values(|g: GpuView| g.basis()),
            ram: self.ram.basis(),
        }
    }
}

/// A copy of an optional text.
fn copy_text(o: &Option<String>) -> (r: Option<String>)
    ensures
        r.deep_view() == o.deep_view(),
{
    match o {
        Some(s) => Some(s.clone()),
        None => None,
    }
}

impl Cpu {
    /// A copy of these facts.
    pub fn copy(&self) -> (r: Cpu)
        ensures
            r@ == self@,
    {
        Cpu {
            name: copy_text(&self.name),
            vendor: copy_text(&self.vendor),
            cores: self.cores,
            threads: self.threads,
            mhz: self.mhz,
        }
    }
}

impl Gpu {
    /// The basis view of this GPU.
    pub fn without_details(&self) -> (r: Gpu)
        ensures
            r@ == self@.basis(),
    {
        Gpu {
            name: None,
            vendor_id: copy_text(&self.vendor_id),
            device_id: copy_text(&self.device_id),
            vram_mb: self.vram_mb,
            pci_slot: None,
            driver: None,
            subsystem: None,
        }
    }
}

impl Hardware {
    /// Basis view without detailed fields: GPU name/driver/slot/subsystem
    /// are dropped, the RAM type falls back to `Unknown` and modules and
    /// slots are dropped. CPU facts are all cheap and stay.
    pub fn without_details(&self) -> (r: Hardware)
        ensures
            r@ == self@.basis(),
    {
        let n = self.gpus.len();
        let mut gpus: Vec<Gpu> = Vec::new();
        let mut i: usize = 0;
        while i < n
            invariant
                n == self.gpus@.len(),
                i <= n,
                gpus@.len() == i,
                forall|j: int| 0 <= j < i ==> (#[trigger] gpus@[j])@ == self.gpus@[j]@.basis(),
            decreases n - i,
        {
            gpus.push(self.gpus[i].without_details());
            i = i + 1;
        }
        let r = Hardware {
            cpu: self.cpu.copy(),
            gpus,
            ram: Ram {
                total_mb: self.ram.total_mb,
                total_gb: self.ram.total_gb,
                ram_type: RamType::Unknown,
                slots_used: None,
                slots_total: None,
                modules: Vec::new(),
            },
        };
        assert(r@.gpus =~= self@.basis().gpus);
        assert(r@.ram.modules =~= Seq::<RamModuleView>::empty());
        r
    }
}

// ---------------------------------------------------------------------------
// Reading hardware facts from a daemon reply
// ---------------------------------------------------------------------------

/// The member `name` of `v`, or `null` when `v` has none.
pub open spec fn section(v: JsonValue, name: Seq<char>) -> JsonValue {
    match spec_get(v, name) {
        Some(x) => x,
        None => JsonValue::Null,
    }
}

/// The key of the indexed section `prefix` followed by `index` in decimal.
pub open spec fn indexed_name(prefix: Seq<char>, index: nat) -> Seq<char> {
    prefix + decimal(index)
}

/// Whether the indexed section `prefix` followed by `i` is present and
/// not `null`.
pub open spec fn present(v: JsonValue, prefix: Seq<char>, i: nat) -> bool {
    !(section(v, indexed_name(prefix, i)) is Null)
}

/// Whether `k` is the first gap: the sections `0..k` are present and `k`
/// is not.
pub open spec fn is_first_gap(v: JsonValue, prefix: Seq<char>, k: nat) -> bool {
    &&& forall|j: nat| j < k ==> #[trigger] present(v, prefix, j)
    &&& !present(v, prefix, k)
}

/// The index of the first indexed section that is missing or `null`.
pub open spec fn first_gap(v: JsonValue, prefix: Seq<char>) -> nat {
    choose|k: nat| is_first_gap(v, prefix, k)
}

/// The indexed sections `prefix0`, `prefix1`, ... up to the first gap.
pub open spec fn indexed_sections(v: JsonValue, prefix: Seq<char>) -> Seq<JsonValue> {
    Seq::new(first_gap(v, prefix), |i: int| section(v, indexed_name(prefix, i as nat)))
}

/// A key stored in a list of members is the key of one of them.
proof fn lemma_entries_get_position(entries: Seq<JsonEntry>, key: Seq<char>)
    requires
        entries_get(entries, key) is Some,
    ensures
        exists|p: int| 0 <= p < entries.len() && (#[trigger] entries[p]).key@ == key,
    decreases entries.len(),
{
    if entries[0].key@ == key {
        assert(entries[0].key@ == key);
    } else {
        lemma_entries_get_position(entries.drop_first(), key);
        let p = choose|p: int|
            0 <= p < entries.drop_first().len() && (#[trigger] entries.drop_first()[p]).key@ == key;
        assert(entries[p + 1] == entries.drop_first()[p]);
    }
}

/// A run of present indexed sections is no longer than the object has
/// members, since each section is a member with a key of its own.
proof fn lemma_present_run_bounded(v: JsonValue, prefix: Seq<char>, k: nat)
    requires
        forall|j: nat| j < k ==> #[trigger] present(v, prefix, j),
    ensures
        k <= member_count(v),
{
    match v {
        JsonValue::Object(entries) => {
            let es = entries@;
            let f = |j: int|
                choose|p: int|
                    0 <= p < es.len() && (#[trigger] es[p]).key@ == indexed_name(prefix, j as nat);
            let x = set_int_range(0, k as int);
            assert forall|j: int| x.contains(j) implies 0 <= #[trigger] f(j) < es.len()
                && es[f(j)].key@ == indexed_name(prefix, j as nat) by {
                assert(present(v, prefix, j as nat));
                lemma_entries_get_position(es, indexed_name(prefix, j as nat));
            }
            assert(injective_on(f, x)) by {
                assert forall|a: int, b: int|
                    x.contains(a) && x.contains(b) && #[trigger] f(a) == #[trigger] f(b) implies a
                    == b by {
                    lemma_indexed_name_injective(prefix, a as nat, b as nat);
                }
            }
            lemma_int_range(0, k as int);
            lemma_int_range(0, es.len() as int);
            lemma_map_size(x, x.map(f), f);
            assert(x.map(f).subset_of(set_int_range(0, es.len() as int)));
            lemma_len_subset(x.map(f), set_int_range(0, es.len() as int));
        },
        _ => {
            if k > 0 {
                assert(present(v, prefix, 0));
            }
        },
    }
}

/// Two indexed names with the same prefix are equal only for equal indices.
proof fn lemma_indexed_name_injective(prefix: Seq<char>, a: nat, b: nat)
    requires
        indexed_name(prefix, a) == indexed_name(prefix, b),
    ensures
        a == b,
{
    assert(decimal(a) =~= indexed_name(prefix, a).skip(prefix.len() as int));
    assert(decimal(b) =~= indexed_name(prefix, b).skip(prefix.len() as int));
    lemma_decimal_injective(a, b);
}

/// A run of present sections from 0 to `i` ends in a gap no later than the
/// member count.
proof fn lemma_gap_from(v: JsonValue, prefix: Seq<char>, i: nat)
    requires
        forall|j: nat| j < i ==> #[trigger] present(v, prefix, j),
        i <= member_count(v),
    ensures
        exists|k: nat| is_first_gap(v, prefix, k),
    decreases member_count(v) - i,
{
    if !present(v, prefix, i) {
        assert(is_first_gap(v, prefix, i));
    } else {
        assert forall|j: nat| j < i + 1 implies #[trigger] present(v, prefix, j) by {
            if j < i {
                assert(present(v, prefix, j));
            }
        }
        lemma_present_run_bounded(v, prefix, i + 1);
        lemma_gap_from(v, prefix, i + 1);
    }
}

/// There is exactly one first gap.
proof fn lemma_first_gap_unique(v: JsonValue, prefix: Seq<char>, k1: nat, k2: nat)
    requires
        is_first_gap(v, prefix, k1),
        is_first_gap(v, prefix, k2),
    ensures
        k1 == k2,
{
    if k1 < k2 {
        assert(present(v, prefix, k1));
    }
    if k2 < k1 {
        assert(present(v, prefix, k2));
    }
}

/// An optional integer cut to its low 32 bits.
pub open spec fn low_u32(o: Option<u64>) -> Option<u32> {
    match o {
        Some(v) => Some(v as u32),
        None => None,
    }
}

/// The processor facts a `processor` section holds.
pub open spec fn cpu_of(p: JsonValue) -> CpuView {
    CpuView {
        name: field_str(p, "name"@),
        vendor: field_str(p, "vendor"@),
        cores: low_u32(field_u64(p, "cores"@)),
        threads: low_u32(field_u64(p, "threads"@)),
        mhz: field_u64(p, "mhz"@),
    }
}

/// The GPU facts a `gpuN` section holds.
pub open spec fn gpu_of(g: JsonValue) -> GpuView {
    GpuView {
        name: field_str(g, "name"@),
        vendor_id: field_str(g, "vendor_id"@),
        device_id: field_str(g, "device_id"@),
        vram_mb: field_u64(g, "vram_mb"@),
        pci_slot: field_str(g, "pci_slot"@),
        driver: field_str(g, "driver"@),
        subsystem: field_str(g, "subsystem"@),
    }
}

/// The facts a RAM module entry holds.
pub open spec fn module_of(m: JsonValue) -> RamModuleView {
    RamModuleView {
        locator: field_str(m, "locator"@),
        size_mb: field_u64(m, "size_mb"@),
        speed_mts: field_u64(m, "speed_mts"@),
        manufacturer: field_str(m, "manufacturer"@),
        part_number: field_str(m, "part_number"@),
    }
}

/// The items of the `modules` array of a `ram` section; none when there
/// is no such array.
pub open spec fn listed_modules(ram: JsonValue) -> Seq<JsonValue> {
    match spec_get(ram, "modules"@) {
        Some(m) => match spec_as_array(m) {
            Some(items) => items,
            None => Seq::empty(),
        },
        None => Seq::empty(),
    }
}

/// The module entries of a `ram` section: the `modules` array when it has
/// items, else the indexed sections `module0`, `module1`, ...
pub open spec fn module_entries(ram: JsonValue) -> Seq<JsonValue> {
    if listed_modules(ram).len() > 0 {
        listed_modules(ram)
    } else {
        indexed_sections(ram, "module"@)
    }
}

/// The memory facts a `ram` section holds.
pub open spec fn ram_of(ram: JsonValue) -> RamView {
    RamView {
        total_mb: match field_u64(ram, "total_mb"@) {
            Some(v) => v,
            None => 0,
        },
        total_gb: match field_number(ram, "total_gb"@) {
            Some(n) => n,
            None => JsonNumber::FloatBits(0),
        },
        ram_type: match field_str(ram, "type"@) {
            Some(t) => RamType::of_raw(t),
            None => RamType::Unknown,
        },
        slots_used: low_u32(field_u64(ram, "slots_used"@)),
        slots_total: low_u32(field_u64(ram, "slots_total"@)),
        modules: module_entries(ram).map_values(|m: JsonValue| module_of(m)),
    }
}

/// The hardware facts a `get_hardware` result holds.
pub open spec fn hardware_of(result: JsonValue) -> HardwareView {
    HardwareView {
        cpu: cpu_of(section(result, "processor"@)),
        gpus: indexed_sections(result, "gpu"@).map_values(|g: JsonValue| gpu_of(g)),
        ram: ram_of(section(result, "ram"@)),
    }
}

/// The hardware facts a `get_hardware` result gives: everything the
/// daemon collected when `detailed`, else the basis view.
pub open spec fn hardware_view(detailed: bool, result: JsonValue) -> HardwareView {
    if detailed {
        hardware_of(result)
    } else {
        hardware_of(result).basis()
    }
}

/// The member `name` of `v`, or `null`.
fn section_of<'a>(v: &'a JsonValue, name: &str, null: &'a JsonValue) -> (r: &'a JsonValue)
    requires
        *null is Null,
    ensures
        *r == section(*v, name@),
{
    match v.get(name) {
        Some(x) => x,
        None => null,
    }
}

/// An optional integer cut to its low 32 bits.
fn to_low_u32(o: Option<u64>) -> (r: Option<u32>)
    ensures
        r == low_u32(o),
{
    match o {
        Some(v) => Some(v as u32),
        None => None,
    }
}

/// The indexed sections `prefix0`, `prefix1`, ... of `v`, up to the first
/// one that is missing or `null`.
fn scan_indexed<'a>(v: &'a JsonValue, prefix: &str) -> (r: Vec<&'a JsonValue>)
    ensures
        r@.len() == indexed_sections(*v, prefix@).len(),
        forall|j: int|
            0 <= j < r@.len() ==> *(#[trigger] r@[j]) == indexed_sections(*v, prefix@)[j],
{
    let count = v.member_count();
    let mut found: Vec<&'a JsonValue> = Vec::new();
    let mut index: usize = 0;
    loop
        invariant
            count == member_count(*v),
            index <= count,
            found@.len() == index,
            forall|j: int|
                0 <= j < index ==> *(#[trigger] found@[j]) == section(
                    *v,
                    indexed_name(prefix@, j as nat),
                ),
            forall|j: nat| j < index ==> #[trigger] present(*v, prefix@, j),
        ensures
            is_first_gap(*v, prefix@, found@.len() as nat),
            forall|j: int|
                0 <= j < found@.len() ==> *(#[trigger] found@[j]) == section(
                    *v,
                    indexed_name(prefix@, j as nat),
                ),
        decreases count - index,
    {
        let key = indexed_key(prefix, index);
        match v.get(key.as_str()) {
            Some(x) => {
                if x.is_null() {
                    break;
                }
                proof {
                    assert forall|j: nat| j < index + 1 implies #[trigger] present(
                        *v,
                        prefix@,
                        j,
                    ) by {
                        if j < index {
                            assert(present(*v, prefix@, j));
                        }
                    }
                    lemma_present_run_bounded(*v, prefix@, (index + 1) as nat);
                }
                found.push(x);
                index = index + 1;
            },
            None => {
                break;
            },
        }
    }
    proof {
        lemma_first_gap_found(*v, prefix@);
        lemma_first_gap_unique(*v, prefix@, found@.len() as nat, first_gap(*v, prefix@));
    }
    found
}

impl Cpu {
    /// Reads a `processor` section.
    pub fn from_section(p: &JsonValue) -> (r: Cpu)
        ensures
            r@ == cpu_of(*p),
    {
        Cpu {
            name: p.field_str("name"),
            vendor: p.field_str("vendor"),
            cores: to_low_u32(p.field_u64("cores")),
            threads: to_low_u32(p.field_u64("threads")),
            mhz: p.field_u64("mhz"),
        }
    }
}

impl Gpu {
    /// Reads a `gpuN` section.
    pub fn from_section(g: &JsonValue) -> (r: Gpu)
        ensures
            r@ == gpu_of(*g),
    {
        Gpu {
            name: g.field_str("name"),
            vendor_id: g.field_str("vendor_id"),
            device_id: g.field_str("device_id"),
            vram_mb: g.field_u64("vram_mb"),
            pci_slot: g.field_str("pci_slot"),
            driver: g.field_str("driver"),
            subsystem: g.field_str("subsystem"),
        }
    }
}

impl RamModule {
    /// Reads a RAM module entry.
    pub fn from_section(m: &JsonValue) -> (r: RamModule)
        ensures
            r@ == module_of(*m),
    {
        RamModule {
            locator: m.field_str("locator"),
            size_mb: m.field_u64("size_mb"),
            speed_mts: m.field_u64("speed_mts"),
            manufacturer: m.field_str("manufacturer"),
            part_number: m.field_str("part_number"),
        }
    }
}

impl Ram {
    /// Reads a `ram` section; module entries come from its `modules`
    /// array, or, when that has none, from `module0`, `module1`, ...
    pub fn from_section(ram: &JsonValue) -> (r: Ram)
        ensures
            r@ == ram_of(*ram),
    {
        let mut modules: Vec<RamModule> = Vec::new();
        let ghost listed = listed_modules(*ram);
        if let Some(m) = ram.get("modules") {
            if let Some(items) = m.as_array() {
                let n = items.len();
                let mut i: usize = 0;
                while i < n
                    invariant
                        n == items@.len(),
                        items@ == listed,
                        i <= n,
                        modules@.len() == i,
                        forall|j: int|
                            0 <= j < i ==> (#[trigger] modules@[j])@ == module_of(items@[j]),
                    decreases n - i,
                {
                    modules.push(RamModule::from_section(&items[i]));
                    i = i + 1;
                }
            }
        }
        assert(modules@.len() == listed.len());
        if modules.len() == 0 {
            let found = scan_indexed(ram, "module");
            let n = found.len();
            let mut i: usize = 0;
            while i < n
                invariant
                    n == found@.len(),
                    i <= n,
                    modules@.len() == i,
                    forall|j: int|
                        0 <= j < n ==> *(#[trigger] found@[j]) == indexed_sections(
                            *ram,
                            "module"@,
                        )[j],
                    forall|j: int|
                        0 <= j < i ==> (#[trigger] modules@[j])@ == module_of(*found@[j]),
                decreases n - i,
            {
                modules.push(RamModule::from_section(found[i]));
                i = i + 1;
            }
        }
        let ram_type = match ram.get("type") {
            Some(t) => match t.as_str() {
                Some(s) => RamType::from_str(s.as_str()),
                None => RamType::Unknown,
            },
            None => RamType::Unknown,
        };
        let r = Ram {
            total_mb: match ram.field_u64("total_mb") {
                Some(v) => v,
                None => 0,
            },
            total_gb: match ram.field_number("total_gb") {
                Some(n) => n,
                None => JsonNumber::FloatBits(0),
            },
            ram_type,
            slots_used: to_low_u32(ram.field_u64("slots_used")),
            slots_total: to_low_u32(ram.field_u64("slots_total")),
            modules,
        };
        assert(r@.modules =~= ram_of(*ram).modules);
        r
    }
}

impl Hardware {
    /// Reads a `get_hardware` result (`processor`, `gpuN`, `ram`). GPUs are
    /// collected from `gpu0`, `gpu1`, ... until the first gap. Never fails:
    /// missing sections leave their facts empty.
    pub fn from_json(result: &JsonValue) -> (r: Hardware)
        ensures
            r@ == hardware_of(*result),
    {
        let null = JsonValue::Null;
        let processor = section_of(result, "processor", &null);
        let ram = section_of(result, "ram", &null);
        let found = scan_indexed(result, "gpu");
        let n = found.len();
        let mut gpus: Vec<Gpu> = Vec::new();
        let mut i: usize = 0;
        while i < n
            invariant
                n == found@.len(),
                i <= n,
                gpus@.len() == i,
                forall|j: int| 0 <= j < i ==> (#[trigger] gpus@[j])@ == gpu_of(*found@[j]),
            decreases n - i,
        {
            gpus.push(Gpu::from_section(found[i]));
            i = i + 1;
        }
        let r = Hardware { cpu: Cpu::from_section(processor), gpus, ram: Ram::from_section(ram) };
        assert(r@.gpus =~= hardware_of(*result).gpus);
        r
    }
}

impl Default for Ram {
    /// No memory known: zero totals, unknown type, no slots, no modules.
    fn default() -> (r: Ram)
        ensures
            r@ == (RamView {
                total_mb: 0,
                total_gb: JsonNumber::FloatBits(0),
                ram_type: RamType::Unknown,
                slots_used: None,
                slots_total: None,
                modules: Seq::empty(),
            }),
    {
        let r = Ram {
            total_mb: 0,
            total_gb: JsonNumber::FloatBits(0),
            ram_type: RamType::Unknown,
            slots_used: None,
            slots_total: None,
            modules: Vec::new(),
        };
        assert(r@.modules =~= Seq::<RamModuleView>::empty());
        r
    }
}

impl Default for Hardware {
    /// No hardware known: no CPU facts, no GPUs, default memory facts.
    fn default() -> (r: Hardware)
        ensures
            r@ == hardware_of(JsonValue::Null),
    {
        let r = Hardware {
            cpu: Cpu { name: None, vendor: None, cores: None, threads: None, mhz: None },
            gpus: Vec::new(),
            ram: Ram::default(),
        };
        proof {
            lemma_first_gap_found(JsonValue::Null, "gpu"@);
            lemma_first_gap_found(JsonValue::Null, "module"@);
        }
        assert(r@.gpus =~= hardware_of(JsonValue::Null).gpus);
        assert(r@.ram.modules =~= hardware_of(JsonValue::Null).ram.modules);
        r
    }
}

// ---------------------------------------------------------------------------
// OS facts
// ---------------------------------------------------------------------------

/// OS identity facts.
#[derive(Debug, Clone, PartialEq)]
pub struct Os {
    pub name: String,
    pub display_name: String,
    pub codename: String,
    pub version: String,
    pub beta: bool,
}

pub struct OsView {
    pub name: Seq<char>,
    pub display_name: Seq<char>,
    pub codename: Seq<char>,
    pub version: Seq<char>,
    pub beta: bool,
}

impl View for Os {
    type V = OsView;

    open spec fn view(&self) -> OsView {
        OsView {
            name: self.name@,
            display_name: self.display_name@,
            codename: self.codename@,
            version: self.version@,
            beta: self.beta,
        }
    }
}

/// The compiled OS identity defaults: TontooOS Seal 26.1.0, not a beta.
pub open spec fn default_os() -> OsView {
    OsView {
        name: "TontooOS"@,
        display_name: "TontooOS Seal"@,
        codename: "Seal"@,
        version: "26.1.0"@,
        beta: false,
    }
}

impl Default for Os {
    fn default() -> (r: Os)
        ensures
            r@ == default_os(),
    {
        Os {
            name: "TontooOS".to_owned(),
            display_name: "TontooOS Seal".to_owned(),
            codename: "Seal".to_owned(),
            version: "26.1.0".to_owned(),
            beta: false,
        }
    }
}

/// `o`'s value, or `d` when there is none.
pub open spec fn or_default<T>(o: Option<T>, d: T) -> T {
    match o {
        Some(v) => v,
        None => d,
    }
}

/// The OS identity a `get_os` result holds: each field of its `os`
/// section, or the compiled default where that field is missing.
pub open spec fn os_of(result: JsonValue) -> OsView {
    let o = section(result, "os"@);
    let d = default_os();
    OsView {
        name: or_default(field_str(o, "name"@), d.name),
        display_name: or_default(field_str(o, "display_name"@), d.display_name),
        codename: or_default(field_str(o, "codename"@), d.codename),
        version: or_default(field_str(o, "version"@), d.version),
        beta: or_default(field_bool(o, "beta"@), d.beta),
    }
}

impl Os {
    /// Reads a `get_os` result (`os` section). Missing fields fall back to
    /// the compiled defaults.
    pub fn from_json(result: &JsonValue) -> (r: Os)
        ensures
            r@ == os_of(*result),
    {
        let null = JsonValue::Null;
        let o = section_of(result, "os", &null);
        let defaults = Os::default();
        Os {
            name: match o.field_str("name") {
                Some(s) => s,
                None => defaults.name,
            },
            display_name: match o.field_str("display_name") {
                Some(s) => s,
                None => defaults.display_name,
            },
            codename: match o.field_str("codename") {
                Some(s) => s,
                None => defaults.codename,
            },
            version: match o.field_str("version") {
                Some(s) => s,
                None => defaults.version,
            },
            beta: match o.field_bool("beta") {
                Some(b) => b,
                None => defaults.beta,
            },
        }
    }
}

/// A reply without an `os` section reads as the compiled defaults.
pub proof fn lemma_os_without_section_is_default(result: JsonValue)
    requires
        spec_get(result, "os"@) is None,
    ensures
        os_of(result) == default_os(),
{
}

/// Indexed sections (`gpu0`, `gpu1`, ...) are read up to the first one
/// that is missing or `null`, with no fixed bound: that gap exists, every
/// section before it is present, and it comes within the object's members.
pub proof fn lemma_first_gap_found(v: JsonValue, prefix: Seq<char>)
    ensures
        is_first_gap(v, prefix, first_gap(v, prefix)),
        first_gap(v, prefix) <= member_count(v),
{
    lemma_gap_from(v, prefix, 0);
    let k = first_gap(v, prefix);
    assert forall|j: nat| j < k implies #[trigger] present(v, prefix, j) by {
    }
    lemma_present_run_bounded(v, prefix, k);
}

/// The basis view keeps every CPU fact, each GPU's vendor id, device id
/// and VRAM size, and the memory totals; it drops GPU names, slots,
/// drivers and subsystems, the RAM type (to `Unknown`), slots and modules.
pub proof fn lemma_basis_keeps_cheap_facts(h: HardwareView)
    ensures
        h.basis().cpu == h.cpu,
        h.basis().gpus.len() == h.gpus.len(),
        forall|i: int|
            0 <= i < h.gpus.len() ==> {
                let b = #[trigger] h.basis().gpus[i];
                &&& b.vendor_id == h.gpus[i].vendor_id
                &&& b.device_id == h.gpus[i].device_id
                &&& b.vram_mb == h.gpus[i].vram_mb
                &&& b.name is None
                &&& b.pci_slot is None
                &&& b.driver is None
                &&& b.subsystem is None
            },
        h.basis().ram.total_mb == h.ram.total_mb,
        h.basis().ram.total_gb == h.ram.total_gb,
        h.basis().ram.ram_type == RamType::Unknown,
        h.basis().ram.slots_used is None,
        h.basis().ram.slots_total is None,
        h.basis().ram.modules.len() == 0,
{
}

/// Taking the basis view twice is taking it once.
pub proof fn lemma_basis_idempotent(h: HardwareView)
    ensures
        h.basis().basis() == h.basis(),
{
    assert(h.basis().basis().gpus =~= h.basis().gpus);
}

} // verus!
