use vstd::prelude::*;

use crate::number::{
    hundredths_or_default, hundredths_or_zero, parse_hundredths, parse_or_default, parse_u64,
    u64_or_zero,
};
use crate::text::{chars_of, lemma_split_len, split, split_chars, string_of, trim, trimmed};

verus! {

/// One graphics adapter. Usage is in hundredths of a percent.
#[derive(Debug)]
pub struct GpuInfo {
    pub name: String,
    pub usage_percentage: u64,
    pub vram_used_mb: u64,
    pub vram_total_mb: u64,
}

pub ghost struct GpuModel {
    pub name: Seq<char>,
    pub usage_percentage: u64,
    pub vram_used_mb: u64,
    pub vram_total_mb: u64,
}

impl View for GpuInfo {
    type V = GpuModel;

    open spec fn view(&self) -> GpuModel {
        GpuModel {
            name: self.name@,
            usage_percentage: self.usage_percentage,
            vram_used_mb: self.vram_used_mb,
            vram_total_mb: self.vram_total_mb,
        }
    }
}

impl GpuInfo {
    /// A copy of this reading.
    pub fn copied(&self) -> (r: GpuInfo)
        ensures
            r@ == self@,
    {
        GpuInfo {
            name: self.name.clone(),
            usage_percentage: self.usage_percentage,
            vram_used_mb: self.vram_used_mb,
            vram_total_mb: self.vram_total_mb,
        }
    }
}

pub open spec fn gpus_view(v: Seq<GpuInfo>) -> Seq<GpuModel> {
    v.map_values(|g: GpuInfo| g@)
}

/// Copies a list of readings.
pub fn copy_gpus(v: &Vec<GpuInfo>) -> (r: Vec<GpuInfo>)
    ensures
        gpus_view(r@) == gpus_view(v@),
{
    let mut r: Vec<GpuInfo> = Vec::new();
    let mut i: usize = 0;
    while i < v.len()
        invariant
            0 <= i <= v@.len(),
            gpus_view(r@) == gpus_view(v@.take(i as int)),
        decreases v@.len() - i,
    {
        let g = v[i].copied();
        proof {
            assert(gpus_view(r@.push(g)) =~= gpus_view(r@).push(g@));
            assert(v@.take(i + 1) =~= v@.take(i as int).push(v@[i as int]));
            assert(gpus_view(v@.take(i + 1)) =~= gpus_view(v@.take(i as int)).push(v@[i as int]@));
        }
        r.push(g);
        i = i + 1;
    }
    proof {
        assert(v@.take(v@.len() as int) =~= v@);
    }
    r
}

/// Battery state; `None` means that nothing was reported. The level is in
/// hundredths of a percent.
#[derive(Clone, Copy, Debug, PartialEq, Eq)]
pub struct BatteryInfo {
    pub level: Option<u64>,
    pub charging: Option<bool>,
}

pub open spec fn no_battery() -> BatteryInfo {
    BatteryInfo { level: None, charging: None }
}

/// A battery reading with both fields absent.
pub fn battery_absent() -> (r: BatteryInfo)
    ensures
        r == no_battery(),
{
    BatteryInfo { level: None, charging: None }
}

/// What an external tool left behind after it ran: whether it exited with
/// success, and its standard output where that was valid text.
pub struct ToolOutput {
    pub success: bool,
    pub stdout: Option<String>,
}

/// Why a probe gave no readings.
#[derive(Clone, Copy, Debug, PartialEq, Eq)]
pub enum ProbeError {
    /// The tool could not be started.
    ToolUnavailable,
    /// The tool exited with a failure status.
    ToolFailed,
    /// The tool's output was not valid text.
    OutputNotText,
    /// The output named no adapter.
    NoGpus,
}

/// A line of the vendor tool's output names an adapter when it has at least
/// four comma-separated fields.
pub open spec fn is_gpu_row(line: Seq<char>) -> bool {
    split(line, ',').len() >= 4
}

/// The reading on one line: name, utilization, used and total memory, each
/// field trimmed, a numeric field that does not parse counting as zero.
pub open spec fn gpu_of_row(line: Seq<char>) -> GpuModel {
    let f = split(line, ',');
    GpuModel {
        name: trim(f[0]),
        usage_percentage: hundredths_or_zero(trim(f[1])),
        vram_used_mb: u64_or_zero(trim(f[2])),
        vram_total_mb: u64_or_zero(trim(f[3])),
    }
}

pub open spec fn gpus_of_lines(lines: Seq<Seq<char>>) -> Seq<GpuModel>
    decreases lines.len(),
{
    if lines.len() == 0 {
        Seq::empty()
    } else {
        let p = gpus_of_lines(lines.drop_last());
        if is_gpu_row(lines.last()) {
            p.push(gpu_of_row(lines.last()))
        } else {
            p
        }
    }
}

/// The readings in the vendor tool's output, one for each line that has at
/// least four fields, in order. (A `\r` before a line break lands in the
/// fourth or a later field, and trimming removes it.)
pub open spec fn vendor_gpus(text: Seq<char>) -> Seq<GpuModel> {
    gpus_of_lines(split(text, '\n'))
}

/// The reading on one line with at least four fields.
pub fn parse_gpu_row(line: &Vec<char>) -> (r: Option<GpuInfo>)
    ensures
        r is Some <==> is_gpu_row(line@),
        r is Some ==> r->0@ == gpu_of_row(line@),
{
    let fields = split_chars(line.as_slice(), ',');
    if fields.len() < 4 {
        return None;
    }
    let name_chars = trimmed(fields[0].as_slice());
    let name = string_of(name_chars.as_slice());
    let usage = hundredths_or_default(trimmed(fields[1].as_slice()).as_slice());
    let used = parse_or_default(trimmed(fields[2].as_slice()).as_slice());
    let total = parse_or_default(trimmed(fields[3].as_slice()).as_slice());
    Some(GpuInfo { name, usage_percentage: usage, vram_used_mb: used, vram_total_mb: total })
}

/// Parses the vendor tool's comma-separated output into readings.
pub fn parse_vendor_output(text: &str) -> (r: Vec<GpuInfo>)
    ensures
        gpus_view(r@) == vendor_gpus(text@),
{
    let cs = chars_of(text);
    let lines = split_chars(cs.as_slice(), '\n');
    let ghost ls = split(text@, '\n');
    let mut r: Vec<GpuInfo> = Vec::new();
    let mut i: usize = 0;
    proof {
        assert(ls.take(0) =~= Seq::<Seq<char>>::empty());
        assert(gpus_view(r@) =~= Seq::<GpuModel>::empty());
    }
    while i < lines.len()
        invariant
            0 <= i <= lines@.len() == ls.len(),
            ls == split(text@, '\n'),
            forall|k: int| 0 <= k < lines@.len() ==> #[trigger] lines@[k]@ == ls[k],
            gpus_view(r@) == gpus_of_lines(ls.take(i as int)),
        decreases lines@.len() - i,
    {
        proof {
            assert(ls.take(i + 1).drop_last() =~= ls.take(i as int));
            assert(ls.take(i + 1).last() == lines@[i as int]@);
        }
        match parse_gpu_row(&lines[i]) {
            Some(g) => {
                proof {
                    assert(gpus_view(r@.push(g)) =~= gpus_view(r@).push(g@));
                }
                r.push(g);
            },
            None => {},
        }
        i = i + 1;
    }
    proof {
        assert(ls.take(ls.len() as int) =~= ls);
    }
    r
}

/// A line with four fields always gives a reading: a numeric field that
/// does not parse is zero in it, and the other fields are kept.
pub proof fn lemma_unparsable_fields_default_to_zero(line: Seq<char>)
    requires
        is_gpu_row(line),
    ensures
        ({
            let f = split(line, ',');
            let g = gpu_of_row(line);
            &&& g.name == trim(f[0])
            &&& (parse_hundredths(trim(f[1])) is None ==> g.usage_percentage == 0)
            &&& (parse_u64(trim(f[2])) is None ==> g.vram_used_mb == 0)
            &&& (parse_u64(trim(f[3])) is None ==> g.vram_total_mb == 0)
            &&& (parse_hundredths(trim(f[1])) matches Some(u) ==> g.usage_percentage == u)
            &&& (parse_u64(trim(f[2])) matches Some(u) ==> g.vram_used_mb == u)
            &&& (parse_u64(trim(f[3])) matches Some(t) ==> g.vram_total_mb == t)
        }),
        gpus_of_lines(seq![line]) == seq![gpu_of_row(line)],
{
    let ls = seq![line];
    assert(ls.drop_last() =~= Seq::<Seq<char>>::empty());
    assert(gpus_of_lines(ls.drop_last()) == Seq::<GpuModel>::empty());
    assert(ls.last() == line);
    assert(Seq::<GpuModel>::empty().push(gpu_of_row(line)) =~= seq![gpu_of_row(line)]);
}

/// What the vendor adapter gives for a run of its tool (`None`: the tool
/// could not be started).
pub open spec fn vendor_result(run: Option<ToolOutput>) -> Result<Seq<GpuModel>, ProbeError> {
    match run {
        None => Err(ProbeError::ToolUnavailable),
        Some(o) => if !o.success {
            Err(ProbeError::ToolFailed)
        } else {
            match o.stdout {
                None => Err(ProbeError::OutputNotText),
                Some(t) => if vendor_gpus(t@).len() == 0 {
                    Err(ProbeError::NoGpus)
                } else {
                    Ok(vendor_gpus(t@))
                },
            }
        },
    }
}

pub open spec fn gpus_result_view(r: Result<Vec<GpuInfo>, ProbeError>) -> Result<Seq<GpuModel>, ProbeError> {
    match r {
        Ok(v) => Ok(gpus_view(v@)),
        Err(e) => Err(e),
    }
}

/// The vendor adapter: readings from the vendor tool's run, or why there are
/// none.
pub fn vendor_adapter(run: Option<ToolOutput>) -> (r: Result<Vec<GpuInfo>, ProbeError>)
    ensures
        gpus_result_view(r) == vendor_result(run),
{
    match run {
        None => Err(ProbeError::ToolUnavailable),
        Some(o) => {
            if !o.success {
                return Err(ProbeError::ToolFailed);
            }
            match o.stdout {
                None => Err(ProbeError::OutputNotText),
                Some(t) => {
                    let gpus = parse_vendor_output(t.as_str());
                    if gpus.len() == 0 {
                        Err(ProbeError::NoGpus)
                    } else {
                        Ok(gpus)
                    }
                },
            }
        },
    }
}

/// One adapter as the platform query reported it; a field it left out or
/// gave in the wrong form is `None`.
pub struct PlatformGpu {
    pub name: Option<String>,
    pub usage_percentage: Option<u64>,
    pub vram_used_mb: Option<u64>,
    pub vram_total_mb: Option<u64>,
}

/// The platform query's document: its adapters and its battery.
pub struct PlatformReport {
    pub gpus: Vec<PlatformGpu>,
    pub battery: BatteryInfo,
}

pub open spec fn unknown_gpu_name() -> Seq<char> {
    "Unknown GPU"@
}

/// The one reading put in when no adapter was reported.
pub open spec fn placeholder_gpu() -> GpuModel {
    GpuModel {
        name: unknown_gpu_name(),
        usage_percentage: 300,
        vram_used_mb: 100,
        vram_total_mb: 2048,
    }
}

/// A reported adapter with the defaults for missing fields: the unknown name,
/// 2% usage, 100 MB used of 2048 MB.
pub open spec fn gpu_of_platform(p: PlatformGpu) -> GpuModel {
    GpuModel {
        name: match p.name {
            Some(n) => n@,
            None => unknown_gpu_name(),
        },
        usage_percentage: match p.usage_percentage {
            Some(u) => u,
            None => 200,
        },
        vram_used_mb: match p.vram_used_mb {
            Some(u) => u,
            None => 100,
        },
        vram_total_mb: match p.vram_total_mb {
            Some(t) => t,
            None => 2048,
        },
    }
}

/// The readings of the platform adapter (`None`: no document came back).
pub open spec fn platform_gpus(report: Option<PlatformReport>) -> Seq<GpuModel> {
    match report {
        Some(rep) => if rep.gpus@.len() == 0 {
            seq![placeholder_gpu()]
        } else {
            rep.gpus@.map_values(|p: PlatformGpu| gpu_of_platform(p))
        },
        None => seq![placeholder_gpu()],
    }
}

/// The battery of the platform adapter: absent where no document came back.
pub open spec fn platform_battery(report: Option<PlatformReport>) -> BatteryInfo {
    match report {
        Some(rep) => rep.battery,
        None => no_battery(),
    }
}

fn placeholder() -> (r: GpuInfo)
    ensures
        r@ == placeholder_gpu(),
{
    GpuInfo {
        name: "Unknown GPU".to_owned(),
        usage_percentage: 300,
        vram_used_mb: 100,
        vram_total_mb: 2048,
    }
}

fn gpu_from_platform(p: &PlatformGpu) -> (r: GpuInfo)
    ensures
        r@ == gpu_of_platform(*p),
{
    GpuInfo {
        name: match &p.name {
            Some(n) => n.clone(),
            None => "Unknown GPU".to_owned(),
        },
        usage_percentage: match p.usage_percentage {
            Some(u) => u,
            None => 200,
        },
        vram_used_mb: match p.vram_used_mb {
            Some(u) => u,
            None => 100,
        },
        vram_total_mb: match p.vram_total_mb {
            Some(t) => t,
            None => 2048,
        },
    }
}

/// The platform adapter: readings and battery from the platform query's
/// document, never without a reading.
pub fn platform_adapter(report: Option<PlatformReport>) -> (r: (Vec<GpuInfo>, BatteryInfo))
    ensures
        gpus_view(r.0@) == platform_gpus(report),
        r.1 == platform_battery(report),
{
    let ghost rep0 = report;
    let (list, battery) = match report {
        Some(rep) => (rep.gpus, rep.battery),
        None => (Vec::new(), battery_absent()),
    };
    let mut gpus: Vec<GpuInfo> = Vec::new();
    let n = list.len();
    let ghost all = list@;
    proof {
        assert(all.take(0).map_values(|p: PlatformGpu| gpu_of_platform(p)) =~= gpus_view(gpus@));
    }
    let mut i: usize = 0;
    while i < n
        invariant
            n == all.len(),
            all == list@,
            0 <= i <= n,
            gpus_view(gpus@) == all.take(i as int).map_values(|p: PlatformGpu| gpu_of_platform(p)),
        decreases n - i,
    {
        let g = gpu_from_platform(&list[i]);
        proof {
            assert(gpus_view(gpus@.push(g)) =~= gpus_view(gpus@).push(g@));
            assert(all.take(i + 1) =~= all.take(i as int).push(all[i as int]));
            assert(all.take(i + 1).map_values(|p: PlatformGpu| gpu_of_platform(p))
                =~= all.take(i as int).map_values(|p: PlatformGpu| gpu_of_platform(p)).push(gpu_of_platform(all[i as int])));
        }
        gpus.push(g);
        i = i + 1;
    }
    proof {
        assert(all.take(n as int) =~= all);
    }
    if gpus.len() == 0 {
        gpus.push(placeholder());
        proof {
            assert(gpus_view(gpus@) =~= seq![placeholder_gpu()]);
        }
    }
    (gpus, battery)
}

} // verus!
