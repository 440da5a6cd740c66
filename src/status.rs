use vstd::prelude::*;

use crate::acquire::Acquired;
use crate::probe::{gpus_view, GpuInfo};

verus! {

/// The largest count of mebibytes that a `u64` count of bytes gives.
pub const MAX_MEMORY_MB: u64 = 17592186044415;

/// Cumulative traffic of one network interface, in bytes.
#[derive(Clone, Copy, Debug, PartialEq, Eq)]
pub struct NetworkTotals {
    pub received: u64,
    pub transmitted: u64,
}

/// What the host's metrics reader reports. CPU usage is in hundredths of a
/// percent; a name it could not read is `None`.
pub struct BaselineMetrics {
    pub memory_used_bytes: u64,
    pub memory_total_bytes: u64,
    pub cpu_usage: u64,
    pub cpu_cores: u32,
    pub cpu_name: Option<String>,
    pub os_name: Option<String>,
    pub os_version: Option<String>,
    pub networks: Vec<NetworkTotals>,
}

/// One full snapshot. Percentages and the battery level are in hundredths of
/// a percent; `timestamp` is the capture time as RFC 3339 text.
pub struct DesktopSystemInfo {
    pub online: bool,
    pub connection_speed: Option<u64>,
    pub connection_type: String,
    pub memory_used_mb: u64,
    pub memory_total_mb: u64,
    pub memory_percentage: u64,
    pub gpus: Vec<GpuInfo>,
    pub cpu_usage: u64,
    pub cpu_cores: u32,
    pub cpu_name: String,
    pub os_name: String,
    pub os_version: String,
    pub battery_level: Option<u64>,
    pub battery_charging: Option<bool>,
    pub timestamp: String,
}

/// `used / total * 100` in hundredths of a percent, rounded to the nearest
/// hundredth with halves going up; 0 where `total` is 0.
pub open spec fn percent_hundredths(used: nat, total: nat) -> nat {
    if total == 0 {
        0
    } else {
        (used * 20000 + total) / (2 * total)
    }
}

/// Memory use as a percentage in hundredths.
pub fn memory_percentage(used_mb: u64, total_mb: u64) -> (r: u64)
    requires
        used_mb <= MAX_MEMORY_MB,
        total_mb <= MAX_MEMORY_MB,
    ensures
        r as nat == percent_hundredths(used_mb as nat, total_mb as nat),
{
    if total_mb == 0 {
        0
    } else {
        let num = used_mb * 20000 + total_mb;
        let den = 2 * total_mb;
        proof {
            assert(num as nat / den as nat <= num as nat) by (nonlinear_arith)
                requires
                    den >= 1,
            ;
        }
        num / den
    }
}

/// Some interface has received or sent a byte.
pub open spec fn any_traffic(n: Seq<NetworkTotals>) -> bool {
    exists|i: int| 0 <= i < n.len() && (#[trigger] n[i].received > 0 || n[i].transmitted > 0)
}

/// Whether the host is online: some interface shows traffic.
pub fn is_online(networks: &Vec<NetworkTotals>) -> (r: bool)
    ensures
        r == any_traffic(networks@),
{
    let mut i: usize = 0;
    while i < networks.len()
        invariant
            0 <= i <= networks@.len(),
            forall|k: int|
                0 <= k < i ==> !(#[trigger] networks@[k].received > 0 || networks@[k].transmitted
                    > 0),
        decreases networks@.len() - i,
    {
        if networks[i].received > 0 || networks[i].transmitted > 0 {
            return true;
        }
        i = i + 1;
    }
    false
}

pub open spec fn connection_text(online: bool) -> Seq<char> {
    if online {
        "Connected"@
    } else {
        "Disconnected"@
    }
}

pub open spec fn unknown_text() -> Seq<char> {
    "Unknown"@
}

pub open spec fn name_or_unknown(n: Option<String>) -> Seq<char> {
    match n {
        Some(s) => s@,
        None => unknown_text(),
    }
}

fn or_unknown(n: Option<String>) -> (r: String)
    ensures
        r@ == name_or_unknown(n),
{
    match n {
        Some(s) => s,
        None => "Unknown".to_owned(),
    }
}

/// Mebibytes in a count of bytes, rounded down.
pub open spec fn mebibytes(bytes: u64) -> u64 {
    (bytes / 1048576) as u64
}

/// Puts together one snapshot from the host's metrics, an acquisition and
/// the capture time.
pub fn assemble_system_status(
    metrics: BaselineMetrics,
    acquired: Acquired,
    timestamp: String,
) -> (r: DesktopSystemInfo)
    ensures
        r.online == any_traffic(metrics.networks@),
        r.connection_speed is None,
        r.connection_type@ == connection_text(r.online),
        r.memory_used_mb == mebibytes(metrics.memory_used_bytes),
        r.memory_total_mb == mebibytes(metrics.memory_total_bytes),
        r.memory_percentage as nat == percent_hundredths(
            r.memory_used_mb as nat,
            r.memory_total_mb as nat,
        ),
        gpus_view(r.gpus@) == acquired@.gpus,
        r.cpu_usage == metrics.cpu_usage,
        r.cpu_cores == metrics.cpu_cores,
        r.cpu_name@ == name_or_unknown(metrics.cpu_name),
        r.os_name@ == name_or_unknown(metrics.os_name),
        r.os_version@ == name_or_unknown(metrics.os_version),
        r.battery_level == acquired.battery.level,
        r.battery_charging == acquired.battery.charging,
        r.timestamp@ == timestamp@,
{
    let online = is_online(&metrics.networks);
    let used = metrics.memory_used_bytes / 1048576;
    let total = metrics.memory_total_bytes / 1048576;
    let pct = memory_percentage(used, total);
    let connection_type = if online {
        "Connected".to_owned()
    } else {
        "Disconnected".to_owned()
    };
    DesktopSystemInfo {
        online,
        connection_speed: None,
        connection_type,
        memory_used_mb: used,
        memory_total_mb: total,
        memory_percentage: pct,
        gpus: acquired.gpus,
        cpu_usage: metrics.cpu_usage,
        cpu_cores: metrics.cpu_cores,
        cpu_name: or_unknown(metrics.cpu_name),
        os_name: or_unknown(metrics.os_name),
        os_version: or_unknown(metrics.os_version),
        battery_level: acquired.battery.level,
        battery_charging: acquired.battery.charging,
        timestamp,
    }
}

} // verus!
