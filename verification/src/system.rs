//! What libubenchmon reports back: status codes, setup and verification
//! results, and monitor snapshots, held as plain values.
use vstd::prelude::*;

verus! {

/// A libubenchmon status code.
#[derive(Debug, Clone, Copy, PartialEq, Eq, Structural)]
pub enum Status {
    Success,
    ErrPerm,
    ErrReboot,
    ErrPartial,
    ErrIo,
    ErrInval,
    ErrNotSup,
    ErrAlready,
    ErrBusy,
    Unknown(i32),
}

/// The status that a C status code stands for: `0` is success, `-1` to
/// `-8` are the library's errors, anything else is kept as `Unknown`.
pub open spec fn status_of_code(s: i32) -> Status {
    if s == 0 {
        Status::Success
    } else if s == -1 {
        Status::ErrPerm
    } else if s == -2 {
        Status::ErrReboot
    } else if s == -3 {
        Status::ErrPartial
    } else if s == -4 {
        Status::ErrIo
    } else if s == -5 {
        Status::ErrInval
    } else if s == -6 {
        Status::ErrNotSup
    } else if s == -7 {
        Status::ErrAlready
    } else if s == -8 {
        Status::ErrBusy
    } else {
        Status::Unknown(s)
    }
}

impl From<i32> for Status {
    fn from(s: i32) -> (r: Self) {
        match s {
            0 => Status::Success,
            -1 => Status::ErrPerm,
            -2 => Status::ErrReboot,
            -3 => Status::ErrPartial,
            -4 => Status::ErrIo,
            -5 => Status::ErrInval,
            -6 => Status::ErrNotSup,
            -7 => Status::ErrAlready,
            -8 => Status::ErrBusy,
            v => Status::Unknown(v),
        }
    }
}

impl vstd::std_specs::convert::FromSpecImpl<i32> for Status {
    open spec fn obeys_from_spec() -> bool {
        true
    }

    open spec fn from_spec(v: i32) -> Status {
        status_of_code(v)
    }
}

/// The code that a known status is reported with; `Unknown` keeps its own.
pub open spec fn code_of_status(s: Status) -> int {
    match s {
        Status::Success => 0,
        Status::ErrPerm => -1,
        Status::ErrReboot => -2,
        Status::ErrPartial => -3,
        Status::ErrIo => -4,
        Status::ErrInval => -5,
        Status::ErrNotSup => -6,
        Status::ErrAlready => -7,
        Status::ErrBusy => -8,
        Status::Unknown(v) => v as int,
    }
}

/// Every code maps to a status that reports the same code, and the codes
/// `0` to `-8` are exactly the ones that are not `Unknown`.
pub proof fn lemma_status_code_roundtrip(c: i32)
    ensures
        code_of_status(status_of_code(c)) == c as int,
        (status_of_code(c) is Unknown) <==> !(-8 <= c <= 0),
{
}

/// The outcome of `ubenchmon_setup`.
#[derive(Debug, Clone)]
pub struct SetupResult {
    pub status: Status,
    pub reboot_required: bool,
    pub message: String,
    pub grub_modified: bool,
    pub irq_migrated: bool,
    pub namespaces_created: bool,
    pub netem_applied: bool,
    pub offloading_disabled: bool,
    pub swap_disabled: bool,
    pub services_stopped: bool,
    pub frequency_locked: bool,
    pub sysctl_tuned: bool,
    pub caches_dropped: bool,
    pub process_isolation_ready: bool,
}

/// The outcome of `ubenchmon_verify`: what the system looks like now.
#[derive(Debug, Clone, Default)]
pub struct VerifyResult {
    pub smt_disabled: bool,
    pub threads_per_core: i32,
    pub cores_isolated: bool,
    pub isolated_core_list: Vec<i32>,
    pub nohz_full_active: bool,
    pub frequency_boost_off: bool,
    pub actual_freq_mhz: i32,
    pub swap_off: bool,
    pub total_ram_mb: u64,
    pub available_ram_mb: u64,
    pub ns_server_exists: bool,
    pub ns_client_exists: bool,
    pub veth_link_up: bool,
    pub offloading_disabled: bool,
    pub netem_active: bool,
    pub irqbalance_stopped: bool,
    pub running_bare_metal: bool,
    pub kernel_version: String,
    pub cpu_model: String,
    pub hypervisor: String,
    pub all_checks_passed: bool,
    pub warnings: String,
}

/// One sample of one CPU core. The usage is held in hundredths of a
/// percent (`10000` is a fully busy core), the unit the sparklines draw.
#[derive(Debug, Clone, Default)]
pub struct CpuSample {
    pub core_id: i32,
    pub freq_mhz: u32,
    pub instructions: u64,
    pub cycles: u64,
    pub cache_misses: u64,
    pub usage_centipct: u64,
}

#[derive(Debug, Clone, Default)]
pub struct MemSample {
    pub total_bytes: u64,
    pub available_bytes: u64,
    pub used_bytes: u64,
    pub cache_bytes: u64,
    pub swap_used_bytes: u64,
}

#[derive(Debug, Clone, Default)]
pub struct NetSample {
    pub iface: String,
    pub rx_bytes: u64,
    pub tx_bytes: u64,
    pub rx_packets: u64,
    pub tx_packets: u64,
    pub rx_dropped: u64,
    pub tx_dropped: u64,
    pub rx_errors: u64,
    pub tx_errors: u64,
    pub passthru_active: bool,
}

#[derive(Debug, Clone, Default)]
pub struct DiskSample {
    pub device: String,
    pub reads_completed: u64,
    pub writes_completed: u64,
    pub read_bytes: u64,
    pub write_bytes: u64,
    pub io_in_progress: u64,
    pub io_time_ms: u64,
}

/// One monitor snapshot: every core, memory, every interface and disk.
#[derive(Debug, Clone, Default)]
pub struct Snapshot {
    pub timestamp_ns: u64,
    pub capture_latency_ns: u64,
    pub cpu: Vec<CpuSample>,
    pub mem: MemSample,
    pub net: Vec<NetSample>,
    pub disk: Vec<DiskSample>,
}

} // verus!
