//! Hardware probe: RAM, logical CPUs, NVIDIA GPU, and the Whisper tier suggested
//! for the machine.

use vstd::prelude::*;
use crate::text::owned;

verus! {

/// What the UI is told about the machine.
#[derive(Debug)]
pub struct HardwareProfile {
    pub total_ram_gb: u32,
    pub logical_cpus: u32,
    pub suggested_tier: String,
    pub nvidia_gpu: bool,
    /// Whisper uses the GPU: the build has GPU support and an NVIDIA GPU was found.
    pub whisper_gpu: bool,
}

/// Conservative suggestion: `tiny` under 8 GiB; with Whisper on the GPU,
/// `large-v3-turbo` from 16 GiB and `medium` below; otherwise `base` under 16 GiB
/// and `small` from 16 GiB.
pub open spec fn suggested_tier_for(ram_gb: int, whisper_gpu: bool) -> Seq<char> {
    if ram_gb < 8 {
        "tiny"@
    } else if whisper_gpu {
        if ram_gb >= 16 {
            "large-v3-turbo"@
        } else {
            "medium"@
        }
    } else if ram_gb < 16 {
        "base"@
    } else {
        "small"@
    }
}

/// Whole GiB of RAM, at least 1, in 32 bits (a count past `u32::MAX` wraps).
pub open spec fn ram_gb_of(total_memory_bytes: u64) -> u32 {
    let g = total_memory_bytes / 1073741824;
    (if g < 1 { 1 } else { g }) as u32
}

/// Logical CPUs, at least 1, in 32 bits (a count past `u32::MAX` wraps).
pub open spec fn cpus_of(cpu_count: usize) -> u32 {
    (if cpu_count < 1 { 1 } else { cpu_count }) as u32
}

pub fn suggest_tier(ram_gb: u32, whisper_gpu: bool) -> (r: String)
    ensures
        r@ == suggested_tier_for(ram_gb as int, whisper_gpu),
        ram_gb < 8 ==> r@ == "tiny"@,
        8 <= ram_gb < 16 && !whisper_gpu ==> r@ == "base"@,
        ram_gb >= 16 && !whisper_gpu ==> r@ == "small"@,
        8 <= ram_gb < 16 && whisper_gpu ==> r@ == "medium"@,
        ram_gb >= 16 && whisper_gpu ==> r@ == "large-v3-turbo"@,
{
    proof {
        crate::laws::lemma_suggestion_thresholds(ram_gb as int, whisper_gpu);
    }
    if ram_gb < 8 {
        owned("tiny")
    } else if whisper_gpu {
        if ram_gb >= 16 {
            owned("large-v3-turbo")
        } else {
            owned("medium")
        }
    } else if ram_gb < 16 {
        owned("base")
    } else {
        owned("small")
    }
}

/// The profile of a machine with the given measurements.
pub open spec fn profile_matches(
    p: HardwareProfile,
    total_memory_bytes: u64,
    cpu_count: usize,
    gpu_build: bool,
    nvidia_gpu: bool,
) -> bool {
    &&& p.total_ram_gb == ram_gb_of(total_memory_bytes)
    &&& p.logical_cpus == cpus_of(cpu_count)
    &&& p.nvidia_gpu == nvidia_gpu
    &&& p.whisper_gpu == (gpu_build && nvidia_gpu)
    &&& p.suggested_tier@ == suggested_tier_for(p.total_ram_gb as int, p.whisper_gpu)
}

pub fn hardware_profile(total_memory_bytes: u64, cpu_count: usize, gpu_build: bool, nvidia_gpu: bool) -> (r: HardwareProfile)
    ensures
        profile_matches(r, total_memory_bytes, cpu_count, gpu_build, nvidia_gpu),
{
    let g = total_memory_bytes / 1024 / 1024 / 1024;
    let g1 = if g < 1 { 1 } else { g };
    #[verifier::truncate]
    let total_ram_gb: u32 = g1 as u32;
    let c1 = if cpu_count < 1 { 1 } else { cpu_count };
    #[verifier::truncate]
    let logical_cpus: u32 = c1 as u32;
    let whisper_gpu = gpu_build && nvidia_gpu;
    let suggested_tier = suggest_tier(total_ram_gb, whisper_gpu);
    HardwareProfile { total_ram_gb, logical_cpus, suggested_tier, nvidia_gpu, whisper_gpu }
}

#[verifier::external_type_specification]
#[verifier::external_body]
pub struct ExSystem(sysinfo::System);

/// Calls `sysinfo::System::new_all`, which takes a snapshot of the machine.
#[verifier::external_body]
fn system_new_all() -> (r: sysinfo::System) {
    sysinfo::System::new_all()
}

/// Calls `sysinfo::System::refresh_memory`, which re-reads the memory figures.
#[verifier::external_body]
fn system_refresh_memory(sys: &mut sysinfo::System) {
    sys.refresh_memory()
}

/// Calls `sysinfo::System::total_memory`: the RAM size in bytes, as measured.
#[verifier::external_body]
fn system_total_memory(sys: &sysinfo::System) -> (r: u64) {
    sys.total_memory()
}

/// Calls `sysinfo::System::cpus` and counts them.
#[verifier::external_body]
fn system_cpu_count(sys: &sysinfo::System) -> (r: usize) {
    sys.cpus().len()
}

/// Probes the machine. Whether an NVIDIA GPU answers (`nvidia-smi`) and whether
/// the build has GPU support come from the caller; RAM and CPUs are measured,
/// so only what holds of every measurement is stated.
pub fn detect(gpu_build: bool, nvidia_gpu: bool) -> (r: HardwareProfile)
    ensures
        exists|m: u64, c: usize| profile_matches(r, m, c, gpu_build, nvidia_gpu),
        r.nvidia_gpu == nvidia_gpu,
        r.whisper_gpu == (gpu_build && nvidia_gpu),
        r.suggested_tier@ == suggested_tier_for(r.total_ram_gb as int, r.whisper_gpu),
{
    let mut sys = system_new_all();
    system_refresh_memory(&mut sys);
    let mem = system_total_memory(&sys);
    let cpus = system_cpu_count(&sys);
    hardware_profile(mem, cpus, gpu_build, nvidia_gpu)
}

} // verus!
