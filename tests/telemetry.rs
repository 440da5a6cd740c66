use system_status::number::{
    hundredths_or_default, parse_hundredths_text, parse_or_default, parse_u64_text,
};
use system_status::probe::parse_gpu_row;
use system_status::text::{split_chars, trimmed};
use system_status::{
    after_battery_probe, after_platform_probe, after_vendor_probe, assemble_system_status,
    is_online, memory_percentage, parse_vendor_output, platform_adapter, vendor_adapter, Acquired,
    BaselineMetrics, BatteryInfo, GpuInfo, NetworkTotals, NextProbe, PlatformGpu, PlatformReport,
    ProbeError, SnapshotCache, ToolOutput,
};

fn chars(s: &str) -> Vec<char> {
    s.chars().collect()
}

fn gpu(name: &str, usage: u64, used: u64, total: u64) -> GpuInfo {
    GpuInfo { name: name.to_string(), usage_percentage: usage, vram_used_mb: used, vram_total_mb: total }
}

fn same(a: &GpuInfo, b: &GpuInfo) -> bool {
    a.name == b.name
        && a.usage_percentage == b.usage_percentage
        && a.vram_used_mb == b.vram_used_mb
        && a.vram_total_mb == b.vram_total_mb
}

fn ran(text: &str) -> Option<ToolOutput> {
    Some(ToolOutput { success: true, stdout: Some(text.to_string()) })
}

#[test]
fn split_keeps_empty_pieces() {
    let parts = split_chars(&chars("a,,b,"), ',');
    let got: Vec<String> = parts.iter().map(|p| p.iter().collect()).collect();
    assert_eq!(got, vec!["a", "", "b", ""]);
    assert_eq!(split_chars(&chars(""), ',').len(), 1);
}

#[test]
fn trim_removes_unicode_whitespace() {
    let t: String = trimmed(&chars("\u{a0} \t NVIDIA A100\r\n")).iter().collect();
    assert_eq!(t, "NVIDIA A100");
    assert!(trimmed(&chars("   ")).is_empty());
}

#[test]
fn u64_parsing_follows_from_str() {
    assert_eq!(parse_u64_text(&chars("2048")), Some(2048));
    assert_eq!(parse_u64_text(&chars("+7")), Some(7));
    assert_eq!(parse_u64_text(&chars("")), None);
    assert_eq!(parse_u64_text(&chars("+")), None);
    assert_eq!(parse_u64_text(&chars("-1")), None);
    assert_eq!(parse_u64_text(&chars("[N/A]")), None);
    assert_eq!(parse_u64_text(&chars("18446744073709551615")), Some(u64::MAX));
    assert_eq!(parse_u64_text(&chars("18446744073709551616")), None);
}

#[test]
fn decimal_parsing_in_hundredths() {
    assert_eq!(parse_hundredths_text(&chars("45")), Some(4500));
    assert_eq!(parse_hundredths_text(&chars("12.345")), Some(1234));
    assert_eq!(parse_hundredths_text(&chars(".5")), Some(50));
    assert_eq!(parse_hundredths_text(&chars("5.")), Some(500));
    assert_eq!(parse_hundredths_text(&chars("+3.07")), Some(307));
    assert_eq!(parse_hundredths_text(&chars(".")), None);
    assert_eq!(parse_hundredths_text(&chars("1.2.3")), None);
    assert_eq!(parse_hundredths_text(&chars("1e2")), None);
    assert_eq!(parse_hundredths_text(&chars("184467440737095517")), None);
}

#[test]
fn vendor_line_parses_into_reading() {
    let r = parse_vendor_output("NVIDIA GeForce RTX 3080, 45, 2048, 10240\n");
    assert_eq!(r.len(), 1);
    assert!(same(&r[0], &gpu("NVIDIA GeForce RTX 3080", 4500, 2048, 10240)));
}

#[test]
fn vendor_unparsable_fields_default_to_zero() {
    let row = parse_gpu_row(&chars("Tesla T4, [N/A], abc, 16384")).unwrap();
    assert!(same(&row, &gpu("Tesla T4", 0, 0, 16384)));
    let r = parse_vendor_output("X, , , \n");
    assert_eq!(r.len(), 1);
    assert!(same(&r[0], &gpu("X", 0, 0, 0)));
}

#[test]
fn vendor_short_lines_are_skipped() {
    let r = parse_vendor_output("header line\nA, 1, 2, 3\r\nB,2\r\nC, 10.5, 20, 30, extra");
    assert_eq!(r.len(), 2);
    assert!(same(&r[0], &gpu("A", 100, 2, 3)));
    assert!(same(&r[1], &gpu("C", 1050, 20, 30)));
    assert!(parse_gpu_row(&chars("only, three, fields")).is_none());
}

#[test]
fn vendor_adapter_errors() {
    assert_eq!(vendor_adapter(None).unwrap_err(), ProbeError::ToolUnavailable);
    let failed = Some(ToolOutput { success: false, stdout: Some("A, 1, 2, 3".to_string()) });
    assert_eq!(vendor_adapter(failed).unwrap_err(), ProbeError::ToolFailed);
    let binary = Some(ToolOutput { success: true, stdout: None });
    assert_eq!(vendor_adapter(binary).unwrap_err(), ProbeError::OutputNotText);
    assert_eq!(vendor_adapter(ran("")).unwrap_err(), ProbeError::NoGpus);
    assert_eq!(vendor_adapter(ran("no gpus here\n")).unwrap_err(), ProbeError::NoGpus);
    let ok = vendor_adapter(ran("A, 1, 2, 3\nB, 4, 5, 6\n")).unwrap();
    assert_eq!(ok.len(), 2);
    assert!(same(&ok[1], &gpu("B", 400, 5, 6)));
}

#[test]
fn platform_without_document_gives_placeholder() {
    let (gpus, battery) = platform_adapter(None);
    assert_eq!(gpus.len(), 1);
    assert!(same(&gpus[0], &gpu("Unknown GPU", 300, 100, 2048)));
    assert_eq!(battery, BatteryInfo { level: None, charging: None });
}

#[test]
fn platform_with_no_adapters_gives_placeholder() {
    let battery = BatteryInfo { level: Some(8700), charging: Some(true) };
    let (gpus, b) = platform_adapter(Some(PlatformReport { gpus: vec![], battery }));
    assert_eq!(gpus.len(), 1);
    assert!(same(&gpus[0], &gpu("Unknown GPU", 300, 100, 2048)));
    assert_eq!(b, battery);
}

#[test]
fn platform_fields_get_defaults() {
    let full = PlatformGpu {
        name: Some("Radeon RX 6600".to_string()),
        usage_percentage: Some(1250),
        vram_used_mb: Some(1000),
        vram_total_mb: Some(8192),
    };
    let empty = PlatformGpu { name: None, usage_percentage: None, vram_used_mb: None, vram_total_mb: None };
    let battery = BatteryInfo { level: None, charging: Some(false) };
    let (gpus, b) = platform_adapter(Some(PlatformReport { gpus: vec![full, empty], battery }));
    assert_eq!(gpus.len(), 2);
    assert!(same(&gpus[0], &gpu("Radeon RX 6600", 1250, 1000, 8192)));
    assert!(same(&gpus[1], &gpu("Unknown GPU", 200, 100, 2048)));
    assert_eq!(b, battery);
}

#[test]
fn failing_vendor_tier_falls_back_to_placeholder() {
    match after_vendor_probe(None) {
        NextProbe::PlatformQuery => {}
        NextProbe::BatteryQuery(_) => panic!("expected the platform query"),
    }
    match after_vendor_probe(ran("garbage")) {
        NextProbe::PlatformQuery => {}
        NextProbe::BatteryQuery(_) => panic!("expected the platform query"),
    }
    let a = after_platform_probe(None);
    assert_eq!(a.gpus.len(), 1);
    assert!(same(&a.gpus[0], &gpu("Unknown GPU", 300, 100, 2048)));
    assert_eq!(a.battery, BatteryInfo { level: None, charging: None });
}

#[test]
fn vendor_success_keeps_absent_battery() {
    let gpus = match after_vendor_probe(ran("A100, 99, 40000, 40960\n")) {
        NextProbe::BatteryQuery(g) => g,
        NextProbe::PlatformQuery => panic!("expected the battery query"),
    };
    assert!(same(&gpus[0], &gpu("A100", 9900, 40000, 40960)));
    let a = after_battery_probe(gpus, Some(BatteryInfo { level: None, charging: None }));
    assert_eq!(a.battery.level, None);
    assert_eq!(a.battery.charging, None);
    let b = after_battery_probe(vec![gpu("A100", 0, 0, 0)], None);
    assert_eq!(b.battery, BatteryInfo { level: None, charging: None });
    let c = after_battery_probe(vec![], Some(BatteryInfo { level: Some(5000), charging: Some(false) }));
    assert_eq!(c.battery, BatteryInfo { level: Some(5000), charging: Some(false) });
}

fn acquired(name: &str) -> Acquired {
    Acquired { gpus: vec![gpu(name, 100, 1, 2)], battery: BatteryInfo { level: Some(4200), charging: Some(true) } }
}

#[test]
fn cache_serves_reads_within_ttl() {
    let mut cache = SnapshotCache::new();
    assert!(cache.lookup(0).is_none());
    let mut acquisitions = 0;
    for now in [1000u64, 3000, 5999] {
        if cache.lookup(now).is_none() {
            acquisitions += 1;
            cache.store(&acquired("first"), now);
        }
        let got = cache.lookup(now).unwrap();
        assert!(same(&got.gpus[0], &gpu("first", 100, 1, 2)));
        assert_eq!(got.battery, BatteryInfo { level: Some(4200), charging: Some(true) });
    }
    assert_eq!(acquisitions, 1);
}

#[test]
fn cache_refreshes_after_ttl() {
    let mut cache = SnapshotCache::new();
    cache.store(&acquired("old"), 1000);
    assert!(cache.lookup(5999).is_some());
    assert!(cache.lookup(6000).is_none());
    cache.store(&acquired("new"), 6000);
    let got = cache.lookup(6000).unwrap();
    assert_eq!(got.gpus[0].name, "new");
    assert!(cache.lookup(10999).is_some());
    assert!(cache.lookup(11000).is_none());
}

#[test]
fn memory_percentage_rounds_to_hundredths() {
    assert_eq!(memory_percentage(4096, 8192), 5000);
    assert_eq!(memory_percentage(1, 3), 3333);
    assert_eq!(memory_percentage(2, 3), 6667);
    assert_eq!(memory_percentage(1, 20000), 1);
    assert_eq!(memory_percentage(1, 40000), 0);
    assert_eq!(memory_percentage(0, 0), 0);
    assert_eq!(memory_percentage(8192, 8192), 10000);
}

#[test]
fn online_only_with_traffic() {
    assert!(!is_online(&vec![]));
    let idle = NetworkTotals { received: 0, transmitted: 0 };
    assert!(!is_online(&vec![idle, idle]));
    assert!(is_online(&vec![idle, NetworkTotals { received: 0, transmitted: 12 }]));
    assert!(is_online(&vec![NetworkTotals { received: 5, transmitted: 0 }]));
}

#[test]
fn snapshot_is_assembled() {
    let metrics = BaselineMetrics {
        memory_used_bytes: 4096 * 1048576 + 17,
        memory_total_bytes: 8192 * 1048576,
        cpu_usage: 1234,
        cpu_cores: 8,
        cpu_name: None,
        os_name: Some("Linux".to_string()),
        os_version: None,
        networks: vec![NetworkTotals { received: 0, transmitted: 0 }],
    };
    let s = assemble_system_status(metrics, acquired("g"), "2024-01-01T00:00:00+00:00".to_string());
    assert!(!s.online);
    assert_eq!(s.connection_type, "Disconnected");
    assert_eq!(s.connection_speed, None);
    assert_eq!(s.memory_used_mb, 4096);
    assert_eq!(s.memory_total_mb, 8192);
    assert_eq!(s.memory_percentage, 5000);
    assert_eq!(s.cpu_usage, 1234);
    assert_eq!(s.cpu_cores, 8);
    assert_eq!(s.cpu_name, "Unknown");
    assert_eq!(s.os_name, "Linux");
    assert_eq!(s.os_version, "Unknown");
    assert_eq!(s.gpus.len(), 1);
    assert_eq!(s.battery_level, Some(4200));
    assert_eq!(s.battery_charging, Some(true));
    assert_eq!(s.timestamp, "2024-01-01T00:00:00+00:00");
    let online = BaselineMetrics {
        memory_used_bytes: 0,
        memory_total_bytes: 0,
        cpu_usage: 0,
        cpu_cores: 1,
        cpu_name: Some("Ryzen".to_string()),
        os_name: None,
        os_version: Some("22.04".to_string()),
        networks: vec![NetworkTotals { received: 1, transmitted: 0 }],
    };
    let t = assemble_system_status(online, acquired("g"), String::new());
    assert!(t.online);
    assert_eq!(t.connection_type, "Connected");
    assert_eq!(t.cpu_name, "Ryzen");
    assert_eq!(t.memory_percentage, 0);
}

#[test]
fn lenient_policy_defaults_to_zero() {
    assert_eq!(parse_or_default(&chars("8192")), 8192);
    assert_eq!(parse_or_default(&chars("N/A")), 0);
    assert_eq!(parse_or_default(&chars("")), 0);
    assert_eq!(hundredths_or_default(&chars("37.5")), 3750);
    assert_eq!(hundredths_or_default(&chars("[Not Supported]")), 0);
}
