use system_information::{
    field_after_colon, get_cpu_info, get_disk_info, get_hostname, get_mem_info, linux_cpu_info,
    macos_cpu_info, parse_helper_output, parse_meminfo, parse_memsize, trim_text, Acquired,
    CPUInfo, CpuSources, DiskInfo, InfoError, MemInfo, MemSources,
};

fn text(s: &str) -> Acquired {
    Acquired::Text(s.to_owned())
}

const CPUINFO: &str = "processor\t: 0\nvendor_id\t: GenuineIntel\nmodel name\t: Intel(R) Core(TM) i7-8550U CPU @ 1.80GHz\ncpu MHz\t\t: 1992.000\n\nprocessor\t: 1\nvendor_id\t: GenuineIntel\nmodel name\t: Intel(R) Core(TM) i7-8550U CPU @ 1.80GHz\ncpu MHz\t\t: 2001.000\n\nprocessor\t: 2\nmodel name\t: Intel(R) Core(TM) i7-8550U CPU @ 1.80GHz\ncpu MHz\t\t: 1800.000\n\nprocessor\t: 3\nmodel name\t: Intel(R) Core(TM) i7-8550U CPU @ 1.80GHz\ncpu MHz\t\t: 1700.000\n";

#[test]
fn meminfo_kib_become_bytes() {
    let mem = parse_meminfo("MemTotal: 1000 kB\nMemFree: 400 kB\n").unwrap();
    assert_eq!(mem, MemInfo {
        total: Some(1_024_000),
        free: Some(409_600),
        in_use: Some(614_400),
    });
}

#[test]
fn meminfo_real_layout() {
    let content = "MemTotal:       16303428 kB\nMemFree:         8141508 kB\nMemAvailable:   12116376 kB\nBuffers:          401292 kB\n";
    let mem = get_mem_info(&MemSources::Linux { meminfo: text(content) }).unwrap();
    assert_eq!(mem.total, Some(16_303_428 * 1024));
    assert_eq!(mem.free, Some(8_141_508 * 1024));
    assert_eq!(mem.in_use, Some((16_303_428 - 8_141_508) * 1024));
}

#[test]
fn meminfo_first_line_of_a_key_counts() {
    let mem = parse_meminfo("MemFree: 1 kB\nMemTotal: 3 kB\nMemFree: 2 kB\n").unwrap();
    assert_eq!(mem.free, Some(1024));
    assert_eq!(mem.in_use, Some(2048));
}

#[test]
fn meminfo_missing_or_bad_values() {
    assert_eq!(parse_meminfo("MemTotal: 1000 kB\n"), Err(InfoError::ParseMismatch));
    assert_eq!(parse_meminfo("MemTotal: many kB\nMemFree: 1 kB\n"), Err(InfoError::ParseMismatch));
    assert_eq!(parse_meminfo("MemTotal:\nMemFree: 1 kB\n"), Err(InfoError::ParseMismatch));
    assert_eq!(parse_meminfo("MemTotal: 1 kB\nMemFree: 2 kB\n"), Err(InfoError::ParseMismatch));
    assert_eq!(
        parse_meminfo("MemTotal: 18446744073709551615 kB\nMemFree: 0 kB\n"),
        Err(InfoError::ParseMismatch)
    );
    assert_eq!(parse_meminfo(""), Err(InfoError::ParseMismatch));
}

#[test]
fn meminfo_source_errors() {
    let r = get_mem_info(&MemSources::Linux { meminfo: Acquired::Absent });
    assert_eq!(r, Err(InfoError::SourceUnavailable));
    let r = get_mem_info(&MemSources::Linux { meminfo: Acquired::Unreadable });
    assert_eq!(r, Err(InfoError::AcquisitionFailure));
}

#[test]
fn helper_three_lines() {
    assert_eq!(parse_helper_output("100\n40\n60\n"), Ok((100, 40, 60)));
    let disk = get_disk_info(&text("100\n40\n60\n")).unwrap();
    assert_eq!(disk, DiskInfo { total: Some(100), free: Some(40), in_use: Some(60) });
}

#[test]
fn helper_lines_are_trimmed() {
    assert_eq!(parse_helper_output(" 100\r\n40\r\n60"), Ok((100, 40, 60)));
}

#[test]
fn helper_short_or_malformed_output() {
    assert_eq!(parse_helper_output("100\n40\n"), Err(InfoError::ParseMismatch));
    assert_eq!(parse_helper_output("100\n40"), Err(InfoError::ParseMismatch));
    assert_eq!(parse_helper_output("100\nforty\n60\n"), Err(InfoError::ParseMismatch));
    assert_eq!(parse_helper_output("-1\n40\n60\n"), Err(InfoError::ParseMismatch));
    assert_eq!(parse_helper_output(""), Err(InfoError::ParseMismatch));
    assert_eq!(get_disk_info(&text("1\n2\n")), Err(InfoError::ParseMismatch));
}

#[test]
fn helper_largest_value() {
    assert_eq!(
        parse_helper_output("18446744073709551615\n5\n+18446744073709551610\n"),
        Ok((u64::MAX, 5, u64::MAX - 5))
    );
    assert_eq!(
        parse_helper_output("18446744073709551616\n0\n0\n"),
        Err(InfoError::ParseMismatch)
    );
}

#[test]
fn windows_memory_from_helper() {
    let mem = get_mem_info(&MemSources::Windows { helper_output: text("8000\n3000\n5000\n") })
        .unwrap();
    assert_eq!(mem, MemInfo { total: Some(8000), free: Some(3000), in_use: Some(5000) });
}

#[test]
fn macos_memory_total_only() {
    let mem = parse_memsize("hw.memsize: 17179869184\n").unwrap();
    assert_eq!(mem, MemInfo { total: Some(17_179_869_184), free: None, in_use: None });
    assert_eq!(parse_memsize("hw.memsize:\n"), Err(InfoError::ParseMismatch));
    let r = get_mem_info(&MemSources::MacOS { memsize: Acquired::Unreadable });
    assert_eq!(r, Err(InfoError::AcquisitionFailure));
}

#[test]
fn linux_cpu_from_cpuinfo() {
    let cpu = get_cpu_info(&CpuSources::Linux { cpuinfo: text(CPUINFO) }).unwrap();
    assert_eq!(cpu, CPUInfo {
        num: Some(4),
        model: Some("Intel(R) Core(TM) i7-8550U CPU @ 1.80GHz".to_owned()),
        mhz: Some("1992.000".to_owned()),
    });
}

#[test]
fn linux_cpu_without_model_or_clock() {
    let cpu = get_cpu_info(&CpuSources::Linux { cpuinfo: text("processor\t: 0\nprocessor\t: 1\n") })
        .unwrap();
    assert_eq!(cpu, CPUInfo { num: Some(2), model: None, mhz: None });
    let r = get_cpu_info(&CpuSources::Linux { cpuinfo: Acquired::Absent });
    assert_eq!(r, Err(InfoError::SourceUnavailable));
}

#[test]
fn linux_cpu_from_matches() {
    let cpu = linux_cpu_info(Some(8), Some("model name\t: ARM Cortex "), None);
    assert_eq!(cpu, CPUInfo { num: Some(8), model: Some("ARM Cortex".to_owned()), mhz: None });
}

#[test]
fn macos_cpu_from_sysctl() {
    let cpu = macos_cpu_info(
        &text("hw.ncpu: 8\n"),
        &text("machdep.cpu.brand_string: Intel(R) Core(TM) i9-9880H CPU @ 2.30GHz\n"),
        &text("hw.cpufrequency: 2300000000\n"),
    );
    assert_eq!(cpu, CPUInfo {
        num: Some(8),
        model: Some("Intel(R) Core(TM) i9-9880H CPU @ 2.30GHz".to_owned()),
        mhz: Some("2300".to_owned()),
    });
}

#[test]
fn macos_cpu_missing_queries() {
    let cpu = get_cpu_info(&CpuSources::MacOS {
        ncpu: text("hw.ncpu: eight\n"),
        brand_string: Acquired::Absent,
        frequency: text("hw.cpufrequency: 999999\n"),
    })
    .unwrap();
    assert_eq!(cpu, CPUInfo { num: None, model: None, mhz: Some("0".to_owned()) });
}

#[test]
fn windows_cpu_not_implemented() {
    assert_eq!(get_cpu_info(&CpuSources::Windows), Err(InfoError::UnsupportedPlatform));
}

#[test]
fn colon_fields() {
    assert_eq!(field_after_colon("hw.ncpu: 8\n"), Some("8".to_owned()));
    assert_eq!(field_after_colon("a: b: c"), Some("b: c".to_owned()));
    assert_eq!(field_after_colon("no colon"), None);
}

#[test]
fn trimming_and_names() {
    assert_eq!(trim_text(" \t host\u{a0}name \r\n"), "host\u{a0}name");
    assert_eq!(trim_text("\u{3000}x\u{2003}"), "x");
    assert_eq!(trim_text("   "), "");
    assert_eq!(get_hostname(&Acquired::Absent), Err(InfoError::SourceUnavailable));
}

#[test]
fn timed_out_commands() {
    let r = get_cpu_info(&CpuSources::Linux { cpuinfo: Acquired::TimedOut });
    assert_eq!(r, Err(InfoError::TimedOut));
    let r = get_disk_info(&Acquired::TimedOut);
    assert_eq!(r, Err(InfoError::TimedOut));
    let cpu = macos_cpu_info(&Acquired::TimedOut, &text("x: Chip"), &Acquired::Unreadable);
    assert_eq!(cpu, CPUInfo { num: None, model: Some("Chip".to_owned()), mhz: None });
}

#[test]
fn helper_in_use_must_be_total_minus_free() {
    assert_eq!(parse_helper_output("100\n40\n70\n"), Err(InfoError::ParseMismatch));
    assert_eq!(parse_helper_output("40\n100\n0\n"), Err(InfoError::ParseMismatch));
    assert_eq!(get_disk_info(&text("100\n40\n70\n")), Err(InfoError::ParseMismatch));
    let r = get_mem_info(&MemSources::Windows { helper_output: text("100\n40\n70\n") });
    assert_eq!(r, Err(InfoError::ParseMismatch));
}

#[test]
fn model_with_colon_kept_whole() {
    let cpu = get_cpu_info(&CpuSources::Linux {
        cpuinfo: text("processor\t: 0\nmodel name\t: Foo: Bar 3.0GHz\ncpu MHz\t\t: 3000.000\n"),
    })
    .unwrap();
    assert_eq!(cpu.model, Some("Foo: Bar 3.0GHz".to_owned()));
    assert_eq!(cpu.mhz, Some("3000.000".to_owned()));
}
