//! Hardware telemetry snapshots: parsers for the GPU and battery probes, the
//! tiered choice between them, a time-bounded cache of their results, and the
//! assembly of one snapshot from host metrics.

pub mod text;
pub mod number;
pub mod probe;
pub mod acquire;
pub mod cache;
pub mod status;

pub use acquire::{after_battery_probe, after_platform_probe, after_vendor_probe, Acquired, NextProbe};
pub use cache::{SnapshotCache, CACHE_TTL_MS};
pub use probe::{
    parse_vendor_output, platform_adapter, vendor_adapter, BatteryInfo, GpuInfo, PlatformGpu,
    PlatformReport, ProbeError, ToolOutput,
};
pub use status::{
    assemble_system_status, is_online, memory_percentage, BaselineMetrics, DesktopSystemInfo,
    NetworkTotals,
};
