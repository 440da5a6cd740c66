use vstd::prelude::*;

use crate::probe::{
    battery_absent, gpus_result_view, gpus_view, no_battery, placeholder_gpu, platform_adapter,
    platform_battery, platform_gpus, vendor_adapter, vendor_result, BatteryInfo, GpuInfo,
    GpuModel, PlatformReport, ToolOutput,
};

verus! {

/// Readings of the adapters and the battery, as one acquisition gives them.
pub struct Acquired {
    pub gpus: Vec<GpuInfo>,
    pub battery: BatteryInfo,
}

pub ghost struct AcquiredModel {
    pub gpus: Seq<GpuModel>,
    pub battery: BatteryInfo,
}

impl View for Acquired {
    type V = AcquiredModel;

    open spec fn view(&self) -> AcquiredModel {
        AcquiredModel { gpus: gpus_view(self.gpus@), battery: self.battery }
    }
}

/// The probe to run after the vendor tool.
pub enum NextProbe {
    /// The vendor tool gave these readings: the battery is queried alone.
    BatteryQuery(Vec<GpuInfo>),
    /// The vendor tool gave nothing: the platform query covers both.
    PlatformQuery,
}

/// The battery that a battery-only query gives (`None`: no answer).
pub open spec fn battery_or_absent(b: Option<BatteryInfo>) -> BatteryInfo {
    match b {
        Some(v) => v,
        None => no_battery(),
    }
}

/// What an acquisition yields from the outcomes of its probes: the vendor
/// tool's readings with the battery query's answer where that tool succeeds,
/// else all that the platform query gives.
pub open spec fn acquisition(
    vendor: Option<ToolOutput>,
    battery: Option<BatteryInfo>,
    platform: Option<PlatformReport>,
) -> AcquiredModel {
    match vendor_result(vendor) {
        Ok(g) => AcquiredModel { gpus: g, battery: battery_or_absent(battery) },
        Err(_) => AcquiredModel {
            gpus: platform_gpus(platform),
            battery: platform_battery(platform),
        },
    }
}

/// Decides, from the vendor tool's run, which probe comes next.
pub fn after_vendor_probe(vendor: Option<ToolOutput>) -> (r: NextProbe)
    ensures
        match vendor_result(vendor) {
            Ok(g) => r is BatteryQuery && gpus_view(r->BatteryQuery_0@) == g,
            Err(_) => r is PlatformQuery,
        },
{
    let r = vendor_adapter(vendor);
    proof {
        assert(gpus_result_view(r) == vendor_result(vendor));
    }
    match r {
        Ok(g) => NextProbe::BatteryQuery(g),
        Err(_) => NextProbe::PlatformQuery,
    }
}

/// Completes an acquisition after the battery-only query.
pub fn after_battery_probe(gpus: Vec<GpuInfo>, battery: Option<BatteryInfo>) -> (r: Acquired)
    ensures
        r@.gpus == gpus_view(gpus@),
        r@.battery == battery_or_absent(battery),
{
    let b = match battery {
        Some(v) => v,
        None => battery_absent(),
    };
    Acquired { gpus, battery: b }
}

/// Completes an acquisition after the platform query.
pub fn after_platform_probe(platform: Option<PlatformReport>) -> (r: Acquired)
    ensures
        r@.gpus == platform_gpus(platform),
        r@.battery == platform_battery(platform),
{
    let (gpus, battery) = platform_adapter(platform);
    Acquired { gpus, battery }
}

/// Where the vendor tool fails, the acquisition falls back to the platform
/// query and still holds at least one reading; with no platform document at
/// all that reading is the placeholder and the battery is absent.
pub proof fn lemma_fallback_never_empty(
    vendor: Option<ToolOutput>,
    battery: Option<BatteryInfo>,
    platform: Option<PlatformReport>,
)
    requires
        vendor_result(vendor) is Err,
    ensures
        platform_gpus(platform).len() >= 1,
        platform is None ==> platform_gpus(platform) == seq![placeholder_gpu()]
            && platform_battery(platform) == no_battery(),
        acquisition(vendor, battery, platform).gpus.len() >= 1,
        platform is None ==> acquisition(vendor, battery, platform) == (AcquiredModel {
            gpus: seq![placeholder_gpu()],
            battery: no_battery(),
        }),
{
}

/// Where the vendor tool succeeds and the battery query reports neither a
/// level nor a charging state, both stay absent in the acquisition.
pub proof fn lemma_absent_battery_kept(
    vendor: Option<ToolOutput>,
    battery: Option<BatteryInfo>,
    platform: Option<PlatformReport>,
)
    requires
        vendor_result(vendor) is Ok,
        battery is None || battery == Some(no_battery()),
    ensures
        battery_or_absent(battery) == no_battery(),
        acquisition(vendor, battery, platform).battery == no_battery(),
        acquisition(vendor, battery, platform).battery.level is None,
        acquisition(vendor, battery, platform).battery.charging is None,
{
}

} // verus!
