use system_information::{
    get_cpu_info, get_disk_info, get_hostname, get_mem_info, get_os, get_readable_disk_info,
    get_readable_mem_info, get_username, Acquired, CPUInfo, CpuSources, DiskInfo, DistroMarkers,
    MemInfo, MemSources, OSType, OsSources,
};

fn text(s: &str) -> Acquired {
    Acquired::Text(s.to_owned())
}

fn no_markers() -> DistroMarkers {
    DistroMarkers {
        arch_release: false,
        debian_version: false,
        fedora_release: false,
        gentoo_release: false,
        suse_release: false,
        redhat_release: false,
    }
}

#[test]
fn hostname() {
    let hostname = get_hostname(&text("[hostname]\n")).unwrap();
    assert_eq!(hostname, "[hostname]");
}

#[test]
fn username() {
    let username = get_username(&text("[username]\n")).unwrap();
    assert_eq!(username, "[username]");
}

#[test]
fn os() {
    let os = get_os(&OsSources::Linux {
        markers: no_markers(),
        os_release: Acquired::Absent,
        kernel_release: text("6.1.0-13-amd64\n"),
    })
    .unwrap();
    let os_type = os.os_type;
    let version = os.version;
    assert_eq!(os_type, OSType::Unknown);
    assert_eq!(version, "0.0.0".to_owned());
}

#[test]
fn disk() {
    let disk = get_disk_info(&text("0\n0\n0\n")).unwrap();

    assert_eq!(disk, DiskInfo {
        total: Some(0),
        free: Some(0),
        in_use: Some(0),
    });
}

#[test]
fn readable_disk() {
    let readable_info = get_readable_disk_info(&DiskInfo {
        total: None,
        free: None,
        in_use: None,
    });

    assert_eq!(readable_info, vec!["".to_owned(), "".to_owned(), "".to_owned()]);
}

#[test]
fn mem() {
    let mem = get_mem_info(&MemSources::Linux {
        meminfo: text("MemTotal:              0 kB\nMemFree:               0 kB\n"),
    })
    .unwrap();

    assert_eq!(mem, MemInfo {
        total: Some(0),
        free: Some(0),
        in_use: Some(0)
    });
}

#[test]
fn readable_mem() {
    let readable_mem = get_readable_mem_info(&MemInfo {
        total: None,
        free: None,
        in_use: None,
    });

    assert_eq!(readable_mem, vec!["".to_owned(), "".to_owned(), "".to_owned()]);
}

#[test]
fn cpu_info() {
    let cpu_info = get_cpu_info(&CpuSources::Linux {
        cpuinfo: text("model name\t: \ncpu MHz\t\t: \n"),
    })
    .unwrap();

    assert_eq!(cpu_info, CPUInfo {
        num: Some(0),
        model: Some("".to_owned()),
        mhz: Some("".to_owned())
    })
}
