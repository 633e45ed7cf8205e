use system_information::{
    get_os, linux_os_info, match_os, parse_os_release, windows_os_info, Acquired, DistroMarkers,
    InfoError, OSType, OsSources,
};

fn text(s: &str) -> Acquired {
    Acquired::Text(s.to_owned())
}

fn markers(arch: bool, debian: bool, redhat: bool) -> DistroMarkers {
    DistroMarkers {
        arch_release: arch,
        debian_version: debian,
        fedora_release: false,
        gentoo_release: false,
        suse_release: false,
        redhat_release: redhat,
    }
}

#[test]
fn names_map_to_distributions() {
    assert_eq!(match_os("Arch Linux"), OSType::Arch);
    assert_eq!(match_os("CentOS Linux"), OSType::CentOS);
    assert_eq!(match_os("Debian GNU/Linux"), OSType::Debian);
    assert_eq!(match_os("Fedora"), OSType::Fedora);
    assert_eq!(match_os("Red Hat Enterprise Linux Server"), OSType::Redhat);
    assert_eq!(match_os("Ubuntu"), OSType::Unknown);
    assert_eq!(match_os("fedora"), OSType::Unknown);
    assert_eq!(match_os(""), OSType::Unknown);
}

#[test]
fn os_release_arch() {
    assert_eq!(parse_os_release("NAME=\"Arch Linux\"\n"), OSType::Arch);
}

#[test]
fn os_release_fedora() {
    let content = "NAME=\"Fedora\"\nVERSION=\"39 (Workstation Edition)\"\nID=fedora\n";
    assert_eq!(parse_os_release(content), OSType::Fedora);
}

#[test]
fn os_release_unrecognised_name() {
    assert_eq!(parse_os_release("NAME=\"FooOS\"\n"), OSType::Unknown);
}

#[test]
fn os_release_name_not_first_line() {
    let content = "PRETTY_NAME=\"Debian GNU/Linux 12 (bookworm)\"\nNAME=\"Debian GNU/Linux\"\nVERSION_ID=\"12\"\n";
    assert_eq!(parse_os_release(content), OSType::Debian);
}

#[test]
fn os_release_first_name_line_wins() {
    let content = "NAME=\"FooOS\"\nNAME=\"Arch Linux\"\n";
    assert_eq!(parse_os_release(content), OSType::Unknown);
}

#[test]
fn os_release_crlf_and_no_final_newline() {
    assert_eq!(parse_os_release("ID=x\r\nNAME=\"CentOS Linux\"\r\n"), OSType::CentOS);
    assert_eq!(parse_os_release("ID=x\nNAME=\"Fedora\""), OSType::Fedora);
}

#[test]
fn os_release_without_name_line() {
    assert_eq!(parse_os_release(""), OSType::Unknown);
    assert_eq!(parse_os_release("ID=arch\nNAME=Arch\n"), OSType::Unknown);
    assert_eq!(parse_os_release("NAME="), OSType::Unknown);
}

#[test]
fn os_release_file_used_without_markers() {
    let os = linux_os_info(
        markers(false, false, false),
        &text("NAME=\"Arch Linux\"\nID=arch\n"),
        &text("  6.6.8-arch1-1\n"),
    )
    .unwrap();
    assert_eq!(os.os_type, OSType::Arch);
    assert_eq!(os.version, "6.6.8-arch1-1");
}

#[test]
fn missing_os_release_and_markers_is_unknown() {
    let os = linux_os_info(markers(false, false, false), &Acquired::Absent, &text("6.1.0\n"))
        .unwrap();
    assert_eq!(os.os_type, OSType::Unknown);
    assert_eq!(os.version, "0.0.0");
}

#[test]
fn arch_marker_outranks_os_release() {
    let os = get_os(&OsSources::Linux {
        markers: markers(true, false, false),
        os_release: text("NAME=\"Fedora\"\n"),
        kernel_release: text("6.6.8-arch1-1\n"),
    })
    .unwrap();
    assert_eq!(os.os_type, OSType::Arch);
    assert_eq!(os.version, "6.6.8-arch1-1");
}

#[test]
fn markers_tried_in_order() {
    let os = linux_os_info(markers(false, true, true), &Acquired::Absent, &text("5.10\n")).unwrap();
    assert_eq!(os.os_type, OSType::Debian);
    let os = linux_os_info(markers(false, false, true), &Acquired::Absent, &text("5.10\n")).unwrap();
    assert_eq!(os.os_type, OSType::Redhat);
    let all_but_arch = DistroMarkers {
        arch_release: false,
        debian_version: false,
        fedora_release: false,
        gentoo_release: true,
        suse_release: true,
        redhat_release: false,
    };
    let os = linux_os_info(all_but_arch, &Acquired::Absent, &text("5.10\n")).unwrap();
    assert_eq!(os.os_type, OSType::Gentoo);
}

#[test]
fn kernel_release_missing_gives_placeholder_version() {
    let os = linux_os_info(markers(true, false, false), &Acquired::Unreadable, &Acquired::Absent)
        .unwrap();
    assert_eq!(os.os_type, OSType::Arch);
    assert_eq!(os.version, "0.0.0");
}

#[test]
fn unreadable_os_release_is_acquisition_failure() {
    let r = linux_os_info(markers(false, false, false), &Acquired::Unreadable, &text("6.1\n"));
    assert_eq!(r, Err(InfoError::AcquisitionFailure));
}

#[test]
fn macos_product_version() {
    let os = get_os(&OsSources::MacOS { product_version: text("14.2.1\n") }).unwrap();
    assert_eq!(os.os_type, OSType::OSX);
    assert_eq!(os.version, "14.2.1");
    let r = get_os(&OsSources::MacOS { product_version: Acquired::Absent });
    assert_eq!(r, Err(InfoError::SourceUnavailable));
}

#[test]
fn windows_version_from_systeminfo() {
    let out = "Host Name:                 DESK\r\nOS Name:                   Microsoft Windows 10 Pro\r\nOS Version:                10.0.19045 N/A Build 19045\r\nOS Manufacturer:           Microsoft Corporation\r\n";
    let os = get_os(&OsSources::Windows { systeminfo: text(out) }).unwrap();
    assert_eq!(os.os_type, OSType::Windows);
    assert_eq!(os.version, "10.0.19045");
}

#[test]
fn windows_without_version_line_is_parse_mismatch() {
    let r = get_os(&OsSources::Windows { systeminfo: text("Host Name: DESK\r\n") });
    assert_eq!(r, Err(InfoError::ParseMismatch));
    assert_eq!(windows_os_info(None), Err(InfoError::ParseMismatch));
    assert_eq!(windows_os_info(Some("no colon here")), Err(InfoError::ParseMismatch));
    assert_eq!(windows_os_info(Some("OS Version:   ")), Err(InfoError::ParseMismatch));
}

#[test]
fn windows_version_from_match() {
    let os = windows_os_info(Some("OS Version:   6.1.7601")).unwrap();
    assert_eq!(os.os_type, OSType::Windows);
    assert_eq!(os.version, "6.1.7601");
}
