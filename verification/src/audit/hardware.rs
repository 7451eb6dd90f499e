//! Hardware inventory: CPU, memory, storage and GPU, decoded from the raw
//! values that the system probes return.
use vstd::prelude::*;

use crate::common::types::{CpuInfo, GpuInfo, HardwareInfo, MemoryInfo, StorageInfo};
use crate::text::{
    decode_utf16_until_nul, decode_utf8_lossy, until_nul, utf16_lossy, utf8_lossy, digits, lowercase, owned, push_char, push_hex_upper_padded, push_str, seq_contains,
    str_contains, to_lowercase, trim, trim_chars, trim_str, zero_pad,
};

verus! {

// ---------------------------------------------------------------------------
// Power
// ---------------------------------------------------------------------------

/// A battery is present: the power status could be read and its battery
/// flag is neither 128 (no battery) nor 255 (unknown).
pub open spec fn is_laptop_spec(battery_flag: Option<u8>) -> bool {
    match battery_flag {
        Some(f) => f != 128 && f != 255,
        None => false,
    }
}

/// Whether the system is a laptop, from the battery flag of the power
/// status (`None` when the status could not be read).
pub fn is_laptop(battery_flag: Option<u8>) -> (r: bool)
    ensures
        r == is_laptop_spec(battery_flag),
{
    match battery_flag {
        Some(f) => f != 128 && f != 255,
        None => false,
    }
}

// ---------------------------------------------------------------------------
// CPU
// ---------------------------------------------------------------------------

/// The four bytes of a register, least significant first.
pub open spec fn reg_bytes(r: u32) -> Seq<u8> {
    seq![
        (r & 0xff) as u8,
        ((r >> 8u32) & 0xff) as u8,
        ((r >> 16u32) & 0xff) as u8,
        ((r >> 24u32) & 0xff) as u8,
    ]
}

/// The characters of the non-zero bytes of `bs`, each byte read as the code
/// point of the same value.
pub open spec fn nonzero_chars(bs: Seq<u8>) -> Seq<char>
    decreases bs.len(),
{
    if bs.len() == 0 {
        Seq::empty()
    } else {
        let rest = nonzero_chars(bs.drop_last());
        if bs.last() != 0 {
            rest.push((bs.last() as u32) as char)
        } else {
            rest
        }
    }
}

/// The characters that the brand registers spell, in register order.
pub open spec fn brand_chars(regs: Seq<u32>) -> Seq<char>
    decreases regs.len(),
{
    if regs.len() == 0 {
        Seq::empty()
    } else {
        brand_chars(regs.drop_last()) + nonzero_chars(reg_bytes(regs.last()))
    }
}

fn push_byte_char(out: &mut Vec<char>, b: u8)
    ensures
        final(out)@ == if b != 0 {
            old(out)@.push((b as u32) as char)
        } else {
            old(out)@
        },
{
    if b != 0 {
        out.push(b as char);
    }
}

/// The processor brand string: the non-zero bytes of the twelve registers
/// of the extended brand leaves (EAX, EBX, ECX, EDX of 0x80000002 to
/// 0x80000004), trimmed.
pub fn cpu_brand(regs: &[u32]) -> (r: String)
    ensures
        r@ == trim(brand_chars(regs@)),
{
    let mut chars: Vec<char> = Vec::new();
    let mut i: usize = 0;
    while i < regs.len()
        invariant
            i <= regs@.len(),
            chars@ == brand_chars(regs@.take(i as int)),
        decreases regs.len() - i,
    {
        let reg = regs[i];
        let ghost before = chars@;
        let b0 = (reg & 0xff) as u8;
        let b1 = ((reg >> 8) & 0xff) as u8;
        let b2 = ((reg >> 16) & 0xff) as u8;
        let b3 = ((reg >> 24) & 0xff) as u8;
        push_byte_char(&mut chars, b0);
        push_byte_char(&mut chars, b1);
        push_byte_char(&mut chars, b2);
        push_byte_char(&mut chars, b3);
        proof {
            let bs = reg_bytes(reg);
            assert(bs =~= seq![b0, b1, b2, b3]);
            assert(bs.drop_last() =~= seq![b0, b1, b2]);
            assert(seq![b0, b1, b2].drop_last() =~= seq![b0, b1]);
            assert(seq![b0, b1].drop_last() =~= seq![b0]);
            assert(seq![b0].drop_last() =~= Seq::<u8>::empty());
            reveal_with_fuel(nonzero_chars, 5);
            assert(chars@ =~= before + nonzero_chars(bs));
            assert(regs@.take(i + 1).drop_last() =~= regs@.take(i as int));
        }
        i = i + 1;
    }
    assert(regs@.take(regs@.len() as int) =~= regs@);
    trim_chars(&chars)
}

/// The twelve vendor bytes of CPUID leaf 0: EBX, then EDX, then ECX.
pub open spec fn vendor_bytes_spec(ebx: u32, edx: u32, ecx: u32) -> Seq<u8> {
    reg_bytes(ebx) + reg_bytes(edx) + reg_bytes(ecx)
}

/// The twelve vendor bytes of CPUID leaf 0: EBX, then EDX, then ECX.
pub fn vendor_bytes(ebx: u32, edx: u32, ecx: u32) -> (r: Vec<u8>)
    ensures
        r@ == vendor_bytes_spec(ebx, edx, ecx),
{
    let r = vec![
        (ebx & 0xff) as u8,
        ((ebx >> 8) & 0xff) as u8,
        ((ebx >> 16) & 0xff) as u8,
        ((ebx >> 24) & 0xff) as u8,
        (edx & 0xff) as u8,
        ((edx >> 8) & 0xff) as u8,
        ((edx >> 16) & 0xff) as u8,
        ((edx >> 24) & 0xff) as u8,
        (ecx & 0xff) as u8,
        ((ecx >> 8) & 0xff) as u8,
        ((ecx >> 16) & 0xff) as u8,
        ((ecx >> 24) & 0xff) as u8,
    ];
    assert(r@ =~= vendor_bytes_spec(ebx, edx, ecx));
    r
}

/// The vendor name for a vendor string: "Intel" and "AMD" for the two
/// well-known identifiers, the trimmed string otherwise.
pub open spec fn vendor_name_spec(vendor: Seq<char>) -> Seq<char> {
    if seq_contains(trim(vendor), "GenuineIntel"@) {
        "Intel"@
    } else if seq_contains(trim(vendor), "AuthenticAMD"@) {
        "AMD"@
    } else {
        trim(vendor)
    }
}

/// The vendor name for the decoded vendor string of CPUID leaf 0.
pub fn cpu_vendor_name(vendor: &str) -> (r: String)
    ensures
        r@ == vendor_name_spec(vendor@),
{
    let t = trim_str(vendor);
    if str_contains(t.as_str(), "GenuineIntel") {
        owned("Intel")
    } else if str_contains(t.as_str(), "AuthenticAMD") {
        owned("AMD")
    } else {
        t
    }
}

/// The indices of the cores whose efficiency class is 0 (`efficient`) or
/// not 0 (otherwise), in order.
pub open spec fn core_indices(classes: Seq<u8>, efficient: bool) -> Seq<u32>
    decreases classes.len(),
{
    if classes.len() == 0 {
        Seq::empty()
    } else {
        let rest = core_indices(classes.drop_last(), efficient);
        if (classes.last() == 0) == efficient {
            rest.push((classes.len() - 1) as u32)
        } else {
            rest
        }
    }
}

/// Splits the physical cores by efficiency class: class 0 are efficiency
/// cores, any other class performance cores. Returns the performance cores,
/// the efficiency cores and the number of physical cores.
pub fn classify_cores(efficiency_classes: &[u8]) -> (r: (Vec<u32>, Vec<u32>, u32))
    requires
        efficiency_classes@.len() <= u32::MAX,
    ensures
        r.0@ == core_indices(efficiency_classes@, false),
        r.1@ == core_indices(efficiency_classes@, true),
        r.2 == efficiency_classes@.len(),
{
    let mut p_cores: Vec<u32> = Vec::new();
    let mut e_cores: Vec<u32> = Vec::new();
    let mut physical_cores: u32 = 0;
    let mut i: usize = 0;
    while i < efficiency_classes.len()
        invariant
            i <= efficiency_classes@.len(),
            efficiency_classes@.len() <= u32::MAX,
            physical_cores == i,
            p_cores@ == core_indices(efficiency_classes@.take(i as int), false),
            e_cores@ == core_indices(efficiency_classes@.take(i as int), true),
        decreases efficiency_classes.len() - i,
    {
        assert(efficiency_classes@.take(i + 1).drop_last() =~= efficiency_classes@.take(i as int));
        physical_cores = physical_cores + 1;
        if efficiency_classes[i] == 0 {
            e_cores.push(physical_cores - 1);
        } else {
            p_cores.push(physical_cores - 1);
        }
        i = i + 1;
    }
    assert(efficiency_classes@.take(efficiency_classes@.len() as int) =~= efficiency_classes@);
    (p_cores, e_cores, physical_cores)
}

/// The raw values that the CPU probe reads.
#[derive(Debug, Clone)]
pub struct CpuProbe {
    /// EBX of CPUID leaf 0: the first four vendor bytes.
    pub vendor_ebx: u32,
    /// EDX of CPUID leaf 0: the next four vendor bytes.
    pub vendor_edx: u32,
    /// ECX of CPUID leaf 0: the last four vendor bytes.
    pub vendor_ecx: u32,
    /// EAX, EBX, ECX, EDX of the leaves 0x80000002 to 0x80000004.
    pub brand_registers: Vec<u32>,
    /// The efficiency class of each physical core, in enumeration order.
    pub efficiency_classes: Vec<u8>,
    /// The available parallelism, a positive count, when it could be
    /// determined.
    pub parallelism: Option<usize>,
}

/// The CPU record that a probe yields.
pub open spec fn cpu_from_probe(c: CpuInfo, p: CpuProbe) -> bool {
    &&& c.vendor@ == vendor_name_spec(
        utf8_lossy(
            vendor_bytes_spec(p.vendor_ebx, p.vendor_edx, p.vendor_ecx),
        ),
    )
    &&& c.model_name@ == trim(brand_chars(p.brand_registers@))
    &&& c.logical_cores == match p.parallelism {
        Some(n) => n as u32,
        None => 1,
    }
    &&& c.physical_cores == p.efficiency_classes@.len()
    &&& c.p_cores@ == core_indices(p.efficiency_classes@, false)
    &&& c.e_cores@ == core_indices(p.efficiency_classes@, true)
    &&& c.is_hybrid == (c.p_cores@.len() > 0 && c.e_cores@.len() > 0)
}

/// Builds the CPU record from the raw probe values.
pub fn probe_cpu(probe: &CpuProbe) -> (r: CpuInfo)
    requires
        probe.efficiency_classes@.len() <= u32::MAX,
        probe.parallelism != Some(0usize),
    ensures
        cpu_from_probe(r, *probe),
{
    let (p_cores, e_cores, physical_cores) = classify_cores(probe.efficiency_classes.as_slice());
    let logical_cores: u32 = match probe.parallelism {
        Some(n) => n as u32,
        None => 1,
    };
    let is_hybrid = p_cores.len() > 0 && e_cores.len() > 0;
    let raw_vendor = vendor_bytes(probe.vendor_ebx, probe.vendor_edx, probe.vendor_ecx);
    let vendor_text = decode_utf8_lossy(raw_vendor.as_slice());
    CpuInfo {
        vendor: cpu_vendor_name(vendor_text.as_str()),
        model_name: cpu_brand(probe.brand_registers.as_slice()),
        logical_cores,
        physical_cores,
        is_hybrid,
        p_cores,
        e_cores,
    }
}

// ---------------------------------------------------------------------------
// Storage
// ---------------------------------------------------------------------------

/// The drive letters whose bit is set in a logical drive mask, in order.
pub open spec fn drive_letters_spec(mask: u32, n: nat) -> Seq<char>
    decreases n,
{
    if n == 0 {
        Seq::empty()
    } else {
        let rest = drive_letters_spec(mask, (n - 1) as nat);
        if (mask >> ((n - 1) as u32)) & 1 != 0 {
            rest.push(((65 + n - 1) as u32) as char)
        } else {
            rest
        }
    }
}

/// The drive letters whose bit is set among the 26 low bits of the mask
/// that `GetLogicalDrives` returns, in order.
pub fn drive_letters(mask: u32) -> (r: Vec<char>)
    ensures
        r@ == drive_letters_spec(mask, 26),
{
    let mut r: Vec<char> = Vec::new();
    let mut i: u32 = 0;
    while i < 26
        invariant
            i <= 26,
            r@ == drive_letters_spec(mask, i as nat),
        decreases 26 - i,
    {
        if (mask >> i) & 1 != 0 {
            let code: u8 = 65 + i as u8;
            r.push(code as char);
        }
        i = i + 1;
    }
    r
}

/// Whether the disk incurs a seek penalty (is not an SSD): the property
/// query must have succeeded and returned data for a "no penalty" answer;
/// in every other case the disk is taken as a hard disk.
pub open spec fn seek_penalty_spec(query: Option<(u32, u8)>) -> bool {
    match query {
        Some((bytes_returned, incurs_seek_penalty)) => if bytes_returned > 0 {
            incurs_seek_penalty != 0
        } else {
            true
        },
        None => true,
    }
}

/// Decides the seek penalty from the result of the seek-penalty property
/// query: `None` when the device could not be opened or the query failed,
/// else the number of bytes returned and the `IncursSeekPenalty` byte.
pub fn has_seek_penalty(query: Option<(u32, u8)>) -> (r: bool)
    ensures
        r == seek_penalty_spec(query),
{
    match query {
        Some((bytes_returned, incurs)) => if bytes_returned > 0 {
            incurs != 0
        } else {
            true
        },
        None => true,
    }
}

/// The NVMe bus type of the storage adapter descriptor.
pub open spec fn nvme_bus_type() -> u8 {
    17
}

/// Whether the adapter is NVMe, from the bus type of the adapter property
/// query (`None` when the device could not be opened or the query failed).
pub fn detect_nvme(bus_type: Option<u8>) -> (r: bool)
    ensures
        r == (bus_type == Some(nvme_bus_type())),
{
    match bus_type {
        Some(b) => b == 17,
        None => false,
    }
}

/// The device id of a drive letter, such as `C:`.
pub fn device_id_of(letter: char) -> (r: String)
    ensures
        r@ == seq![letter, ':'],
{
    let mut r = String::new();
    push_char(&mut r, letter);
    push_char(&mut r, ':');
    r
}

/// The model reported for a disk: `Disk ` followed by its device id.
pub fn get_disk_model(device_id: &str) -> (r: String)
    ensures
        r@ == "Disk "@ + device_id@,
{
    let mut r = owned("Disk ");
    push_str(&mut r, device_id);
    r
}

/// The raw values that the storage probe reads for one fixed drive.
#[derive(Debug, Clone, Copy)]
pub struct DriveProbe {
    pub letter: char,
    /// Total size from `GetDiskFreeSpaceExW`, 0 when it failed.
    pub size_bytes: u64,
    /// The seek-penalty query result (see `has_seek_penalty`).
    pub seek_penalty_query: Option<(u32, u8)>,
    /// The adapter bus type (see `detect_nvme`).
    pub bus_type: Option<u8>,
}

/// The storage record that a drive probe yields.
pub open spec fn storage_from_probe(s: StorageInfo, d: DriveProbe) -> bool {
    &&& s.device_id@ == seq![d.letter, ':']
    &&& s.model@ == "Disk "@ + seq![d.letter, ':']
    &&& s.size_bytes == d.size_bytes
    &&& s.is_ssd == !seek_penalty_spec(d.seek_penalty_query)
    &&& s.is_nvme == (d.bus_type == Some(nvme_bus_type()))
}

/// Builds the storage record of one fixed drive.
pub fn probe_drive(d: &DriveProbe) -> (r: StorageInfo)
    ensures
        storage_from_probe(r, *d),
{
    let device_id = device_id_of(d.letter);
    let model = get_disk_model(device_id.as_str());
    StorageInfo {
        device_id,
        model,
        size_bytes: d.size_bytes,
        is_ssd: !has_seek_penalty(d.seek_penalty_query),
        is_nvme: detect_nvme(d.bus_type),
    }
}

// ---------------------------------------------------------------------------
// GPU
// ---------------------------------------------------------------------------

/// The vendor of a PCI vendor id.
pub open spec fn vendor_of_id(vendor_id: u32) -> Seq<char> {
    if vendor_id == 0x10DE {
        "NVIDIA"@
    } else if vendor_id == 0x1002 {
        "AMD"@
    } else if vendor_id == 0x8086 {
        "Intel"@
    } else if vendor_id == 0x1414 {
        "Microsoft"@
    } else if vendor_id == 0x5143 {
        "Qualcomm"@
    } else {
        "Unknown (0x"@ + zero_pad(digits(vendor_id as nat, 16, true), 4) + ")"@
    }
}

/// Detects the GPU vendor from its PCI vendor id.
pub fn detect_vendor_from_id(vendor_id: u32) -> (r: String)
    ensures
        r@ == vendor_of_id(vendor_id),
{
    match vendor_id {
        0x10DE => owned("NVIDIA"),
        0x1002 => owned("AMD"),
        0x8086 => owned("Intel"),
        0x1414 => owned("Microsoft"),
        0x5143 => owned("Qualcomm"),
        _ => {
            let mut r = owned("Unknown (0x");
            push_hex_upper_padded(&mut r, vendor_id as u64, 4);
            push_str(&mut r, ")");
            assert(r@ =~= vendor_of_id(vendor_id));
            r
        },
    }
}

/// The vendor of a GPU from its driver description.
pub open spec fn vendor_of_name(name: Seq<char>) -> Seq<char> {
    let lower = lowercase(name);
    if seq_contains(lower, "nvidia"@) {
        "NVIDIA"@
    } else if seq_contains(lower, "amd"@) || seq_contains(lower, "radeon"@) {
        "AMD"@
    } else if seq_contains(lower, "intel"@) {
        "Intel"@
    } else {
        "Unknown"@
    }
}

/// Detects the GPU vendor from its driver description (registry fallback).
pub fn gpu_vendor_from_name(name: &str) -> (r: &'static str)
    ensures
        r@ == vendor_of_name(name@),
{
    let lower = to_lowercase(name);
    let l = lower.as_str();
    if str_contains(l, "nvidia") {
        "NVIDIA"
    } else if str_contains(l, "amd") || str_contains(l, "radeon") {
        "AMD"
    } else if str_contains(l, "intel") {
        "Intel"
    } else {
        "Unknown"
    }
}

/// The GPU record read from a display class key: the trimmed driver
/// description, its vendor, and no VRAM figure.
pub fn gpu_from_registry(driver_desc: &str) -> (r: GpuInfo)
    ensures
        r.name@ == trim(driver_desc@),
        r.vendor@ == vendor_of_name(trim(driver_desc@)),
        r.vram_bytes == 0,
{
    let name = trim_str(driver_desc);
    let vendor = owned(gpu_vendor_from_name(name.as_str()));
    GpuInfo { name, vendor, vram_bytes: 0 }
}

/// The flag of software adapters (such as the basic render driver).
pub open spec fn software_adapter_flag() -> u32 {
    2
}

/// The raw description of one display adapter.
#[derive(Debug, Clone)]
pub struct AdapterProbe {
    /// The adapter description: UTF-16 units, NUL-terminated.
    pub description: Vec<u16>,
    pub vendor_id: u32,
    pub dedicated_video_memory: u64,
    pub flags: u32,
}

/// The GPU record of an adapter, or `None` for a software adapter.
pub open spec fn gpu_from_adapter_spec(r: Option<GpuInfo>, a: AdapterProbe) -> bool {
    if a.flags & software_adapter_flag() != 0 {
        r is None
    } else {
        r is Some && gpu_of_adapter(r->0, a)
    }
}

/// The GPU record of a hardware adapter; software adapters are skipped.
pub fn gpu_from_adapter(a: &AdapterProbe) -> (r: Option<GpuInfo>)
    ensures
        gpu_from_adapter_spec(r, *a),
{
    if a.flags & 2 == 0 {
        Some(
            GpuInfo {
                name: trim_str(decode_utf16_until_nul(a.description.as_slice()).as_str()),
                vendor: detect_vendor_from_id(a.vendor_id),
                vram_bytes: a.dedicated_video_memory,
            },
        )
    } else {
        None
    }
}

// ---------------------------------------------------------------------------
// Whole inventory
// ---------------------------------------------------------------------------

/// Everything the hardware probes read.
#[derive(Debug, Clone)]
pub struct HardwareProbe {
    pub cpu: CpuProbe,
    /// Total and available physical memory.
    pub memory: MemoryInfo,
    /// The fixed drives, in drive letter order.
    pub drives: Vec<DriveProbe>,
    /// The display adapters, in enumeration order.
    pub adapters: Vec<AdapterProbe>,
    /// The GPUs read from the registry, used when no hardware adapter is found.
    pub registry_gpus: Vec<GpuInfo>,
}

/// Collects the hardware inventory from the probe values: the CPU record,
/// the memory figures, one storage record per fixed drive, and the hardware
/// adapters (or the registry GPUs when there are none).
pub fn probe_hardware(probe: HardwareProbe) -> (r: HardwareInfo)
    requires
        probe.cpu.efficiency_classes@.len() <= u32::MAX,
        probe.cpu.parallelism != Some(0usize),
    ensures
        cpu_from_probe(r.cpu, probe.cpu),
        r.memory == probe.memory,
        r.storage@.len() == probe.drives@.len(),
        forall|i: int|
            0 <= i < r.storage@.len() ==> storage_from_probe(
                #[trigger] r.storage@[i],
                probe.drives@[i],
            ),
        gpus_from(r.gpu@, probe.adapters@, probe.registry_gpus@),
{
    let cpu = probe_cpu(&probe.cpu);
    let mut storage: Vec<StorageInfo> = Vec::new();
    let mut i: usize = 0;
    while i < probe.drives.len()
        invariant
            i <= probe.drives@.len(),
            storage@.len() == i,
            forall|j: int|
                0 <= j < i ==> storage_from_probe(#[trigger] storage@[j], probe.drives@[j]),
        decreases probe.drives.len() - i,
    {
        storage.push(probe_drive(&probe.drives[i]));
        i = i + 1;
    }
    let gpu = probe_gpu(&probe.adapters, probe.registry_gpus);
    HardwareInfo { cpu, memory: probe.memory, storage, gpu }
}

/// A hardware (not software) adapter.
pub open spec fn is_hardware_adapter(a: AdapterProbe) -> bool {
    a.flags & software_adapter_flag() == 0
}

/// The GPU record of a hardware adapter.
pub open spec fn gpu_of_adapter(g: GpuInfo, a: AdapterProbe) -> bool {
    &&& g.name@ == trim(utf16_lossy(until_nul(a.description@)))
    &&& g.vendor@ == vendor_of_id(a.vendor_id)
    &&& g.vram_bytes == a.dedicated_video_memory
}

/// The GPU list of an inventory: one record per hardware adapter, in order,
/// or the registry GPUs when there is no hardware adapter.
pub open spec fn gpus_from(r: Seq<GpuInfo>, adapters: Seq<AdapterProbe>, registry_gpus: Seq<GpuInfo>) -> bool {
    let hw = adapters.filter(|a: AdapterProbe| is_hardware_adapter(a));
    if hw.len() == 0 {
        r == registry_gpus
    } else {
        r.len() == hw.len() && forall|i: int| 0 <= i < r.len() ==> gpu_of_adapter(#[trigger] r[i], hw[i])
    }
}

/// The GPU records of the hardware adapters, in order, or `registry_gpus`
/// when no adapter is a hardware one.
pub fn probe_gpu(adapters: &Vec<AdapterProbe>, registry_gpus: Vec<GpuInfo>) -> (r: Vec<GpuInfo>)
    ensures
        gpus_from(r@, adapters@, registry_gpus@),
{
    let mut gpus: Vec<GpuInfo> = Vec::new();
    let mut i: usize = 0;
    while i < adapters.len()
        invariant
            i <= adapters@.len(),
            gpus@.len() == adapters@.take(i as int).filter(|a: AdapterProbe| is_hardware_adapter(a)).len(),
            forall|j: int|
                0 <= j < gpus@.len() ==> gpu_of_adapter(
                    #[trigger] gpus@[j],
                    adapters@.take(i as int).filter(|a: AdapterProbe| is_hardware_adapter(a))[j],
                ),
        decreases adapters.len() - i,
    {
        let ghost prev = adapters@.take(i as int).filter(|a: AdapterProbe| is_hardware_adapter(a));
        assert(adapters@.take(i + 1).drop_last() =~= adapters@.take(i as int));
        reveal_with_fuel(Seq::<_>::filter, 1);
        let g = gpu_from_adapter(&adapters[i]);
        if let Some(g) = g {
            gpus.push(g);
        }
        let ghost next = adapters@.take(i + 1).filter(|a: AdapterProbe| is_hardware_adapter(a));
        assert(is_hardware_adapter(adapters@[i as int]) ==> next == prev.push(adapters@[i as int]));
        assert(!is_hardware_adapter(adapters@[i as int]) ==> next == prev);
        i = i + 1;
    }
    assert(adapters@.take(adapters@.len() as int) =~= adapters@);
    if gpus.len() == 0 {
        return registry_gpus;
    }
    gpus
}

} // verus!
