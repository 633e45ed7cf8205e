use system_information::{get_readable_disk_info, get_readable_mem_info, readable_bytes, DiskInfo, MemInfo};

#[test]
fn zero_is_zero_bytes_in_both_systems() {
    assert_eq!(readable_bytes(0, true), "0 B");
    assert_eq!(readable_bytes(0, false), "0 B");
}

#[test]
fn one_unit_step() {
    assert_eq!(readable_bytes(1000, true), "1 kB");
    assert_eq!(readable_bytes(1024, false), "1 KiB");
}

#[test]
fn below_the_base_stays_in_bytes() {
    assert_eq!(readable_bytes(999, true), "999 B");
    assert_eq!(readable_bytes(1023, false), "1023 B");
    assert_eq!(readable_bytes(1000, false), "1000 B");
}

#[test]
fn unit_is_the_one_whose_quotient_is_below_the_base() {
    assert_eq!(readable_bytes(999_999, true), "999 kB");
    assert_eq!(readable_bytes(1_000_000, true), "1 MB");
    assert_eq!(readable_bytes(12_345_678_901, true), "12 GB");
    assert_eq!(readable_bytes(1_000_000_000_000, true), "1 TB");
    assert_eq!(readable_bytes(1_000_000_000_000_000, true), "1 PB");
    assert_eq!(readable_bytes(1_048_576, false), "1 MiB");
    assert_eq!(readable_bytes(1_073_741_823, false), "1023 MiB");
    assert_eq!(readable_bytes(1u64 << 40, false), "1 TiB");
}

#[test]
fn remainders_are_truncated() {
    assert_eq!(readable_bytes(1_999, true), "1 kB");
    assert_eq!(readable_bytes(2_047, false), "1 KiB");
}

#[test]
fn largest_count() {
    assert_eq!(readable_bytes(u64::MAX, true), "18 EB");
    assert_eq!(readable_bytes(u64::MAX, false), "15 EiB");
}

#[test]
fn disk_shown_in_si_units() {
    let shown = get_readable_disk_info(&DiskInfo {
        total: Some(500_000_000_000),
        free: Some(200_000_000_000),
        in_use: Some(300_000_000_000),
    });
    assert_eq!(shown, vec!["500 GB".to_owned(), "200 GB".to_owned(), "300 GB".to_owned()]);
}

#[test]
fn unknown_disk_field_is_blank_in_place() {
    let shown = get_readable_disk_info(&DiskInfo {
        total: Some(2_000),
        free: None,
        in_use: Some(0),
    });
    assert_eq!(shown, vec!["2 kB".to_owned(), "".to_owned(), "0 B".to_owned()]);
}

#[test]
fn memory_shown_in_binary_units() {
    let shown = get_readable_mem_info(&MemInfo {
        total: Some(1_024_000),
        free: Some(409_600),
        in_use: Some(614_400),
    });
    assert_eq!(shown, vec!["1000 KiB".to_owned(), "400 KiB".to_owned(), "600 KiB".to_owned()]);
}

#[test]
fn memory_total_only() {
    let shown = get_readable_mem_info(&MemInfo {
        total: Some(17_179_869_184),
        free: None,
        in_use: None,
    });
    assert_eq!(shown, vec!["16 GiB".to_owned(), "".to_owned(), "".to_owned()]);
}
