//! Operating-system identity: distribution marker files, `/etc/os-release`
//! and the kernel release on Linux, `sw_vers` on macOS, `systeminfo` on
//! Windows.

use vstd::prelude::*;
use crate::pattern::{first_match, regex_first_match};
use crate::text::{
    chars_of, colon_field, field_after_colon, next_line, piece, piece_span, same_text, text_lines,
    trim, trim_text,
};
use crate::types::{
    acquisition_error, error_of, Acquired, DistroMarkers, InfoError, OSInformation, OSType,
    OsSources,
};

verus! {

/// The distribution that a `NAME` value of `/etc/os-release` stands for.
pub open spec fn os_of_name(n: Seq<char>) -> OSType {
    if n == "Arch Linux"@ {
        OSType::Arch
    } else if n == "CentOS Linux"@ {
        OSType::CentOS
    } else if n == "Debian GNU/Linux"@ {
        OSType::Debian
    } else if n == "Fedora"@ {
        OSType::Fedora
    } else if n == "Red Hat Enterprise Linux Server"@ {
        OSType::Redhat
    } else {
        OSType::Unknown
    }
}

/// Whether a line of `/etc/os-release` names the distribution: the line up
/// to its first double quote is exactly `NAME=`.
pub open spec fn is_name_line(l: Seq<char>) -> bool {
    piece(l, '"', 0) == Some("NAME="@)
}

/// The distribution that a `NAME=` line names: the text between its first
/// and second double quote.
pub open spec fn name_line_type(l: Seq<char>) -> OSType {
    match piece(l, '"', 1) {
        Some(n) => os_of_name(n),
        None => OSType::Unknown,
    }
}

/// The distribution that the first `NAME=` line among `lines` names, or
/// `Unknown` if there is none.
pub open spec fn first_name_type(lines: Seq<Seq<char>>) -> OSType
    decreases lines.len(),
{
    if lines.len() == 0 {
        OSType::Unknown
    } else if is_name_line(lines[0]) {
        name_line_type(lines[0])
    } else {
        first_name_type(lines.drop_first())
    }
}

/// The distribution that the text of `/etc/os-release` names.
pub open spec fn os_release_type(content: Seq<char>) -> OSType {
    first_name_type(text_lines(content))
}

fn os_of_span(v: &Vec<char>, a: usize, b: usize) -> (r: OSType)
    requires
        a <= b <= v.len(),
    ensures
        r == os_of_name(v@.subrange(a as int, b as int)),
{
    if same_text(v, a, b, "Arch Linux") {
        OSType::Arch
    } else if same_text(v, a, b, "CentOS Linux") {
        OSType::CentOS
    } else if same_text(v, a, b, "Debian GNU/Linux") {
        OSType::Debian
    } else if same_text(v, a, b, "Fedora") {
        OSType::Fedora
    } else if same_text(v, a, b, "Red Hat Enterprise Linux Server") {
        OSType::Redhat
    } else {
        OSType::Unknown
    }
}

/// Maps the `NAME` value of `/etc/os-release` to a distribution: "Arch
/// Linux", "CentOS Linux", "Debian GNU/Linux", "Fedora" and "Red Hat
/// Enterprise Linux Server" are known, anything else is `Unknown`.
pub fn match_os(os_str: &str) -> (r: OSType)
    ensures
        r == os_of_name(os_str@),
{
    let v = chars_of(os_str);
    assert(v@.subrange(0, v.len() as int) =~= os_str@);
    os_of_span(&v, 0, v.len())
}

/// The distribution that the text of `/etc/os-release` names: the first
/// line whose part before the first double quote is `NAME=` decides, by
/// the quoted value after it; with no such line it is `Unknown`.
pub fn parse_os_release(content: &str) -> (r: OSType)
    ensures
        r == os_release_type(content@),
{
    let v = chars_of(content);
    let n = v.len();
    let mut pos: usize = 0;
    assert(v@.subrange(0, n as int) =~= content@);
    while pos < n
        invariant
            n == v.len(),
            pos <= n,
            first_name_type(text_lines(v@.subrange(pos as int, n as int))) == os_release_type(
                content@,
            ),
        decreases n - pos,
    {
        let (end, next) = next_line(&v, pos);
        let (a, b) = match piece_span(&v, '"', pos, end, 0) {
            Some(p) => p,
            None => (pos, pos),
        };
        if same_text(&v, a, b, "NAME=") {
            return match piece_span(&v, '"', pos, end, 1) {
                Some((c, d)) => os_of_span(&v, c, d),
                None => OSType::Unknown,
            };
        }
        proof {
            let rest = text_lines(v@.subrange(next as int, n as int));
            assert((seq![v@.subrange(pos as int, end as int)] + rest).drop_first() =~= rest);
        }
        pos = next;
    }
    OSType::Unknown
}

/// The version text that stands where none can be had.
pub open spec fn unknown_version() -> Seq<char> {
    "0.0.0"@
}

/// The version that the kernel release gives: its trimmed text, or
/// "0.0.0" where it is missing, unreadable or blank.
pub open spec fn kernel_version(kernel_release: Acquired) -> Seq<char> {
    match kernel_release {
        Acquired::Text(t) => if trim(t@).len() > 0 {
            trim(t@)
        } else {
            unknown_version()
        },
        _ => unknown_version(),
    }
}

/// The distribution that the first existing marker file names, in the
/// order Arch, Debian, Fedora, Gentoo, SuSE, Red Hat.
pub open spec fn marker_type(m: DistroMarkers) -> Option<OSType> {
    if m.arch_release {
        Some(OSType::Arch)
    } else if m.debian_version {
        Some(OSType::Debian)
    } else if m.fedora_release {
        Some(OSType::Fedora)
    } else if m.gentoo_release {
        Some(OSType::Gentoo)
    } else if m.suse_release {
        Some(OSType::OpenSUSE)
    } else if m.redhat_release {
        Some(OSType::Redhat)
    } else {
        None
    }
}

/// The Linux identity: a marker file decides first; without one,
/// `/etc/os-release` does; without that file the system is unknown.
pub open spec fn linux_os(
    m: DistroMarkers,
    os_release: Acquired,
    kernel_release: Acquired,
) -> Result<(OSType, Seq<char>), InfoError> {
    match marker_type(m) {
        Some(t) => Ok((t, kernel_version(kernel_release))),
        None => match os_release {
            Acquired::Text(c) => Ok((os_release_type(c@), kernel_version(kernel_release))),
            Acquired::Absent => Ok((OSType::Unknown, unknown_version())),
            _ => Err(acquisition_error(os_release)),
        },
    }
}

/// The macOS identity: the trimmed product version, or "0.0.0" if blank.
pub open spec fn macos_os(product_version: Acquired) -> Result<(OSType, Seq<char>), InfoError> {
    match product_version {
        Acquired::Text(t) => Ok(
            (
                OSType::OSX,
                if trim(t@).len() > 0 {
                    trim(t@)
                } else {
                    unknown_version()
                },
            ),
        ),
        _ => Err(acquisition_error(product_version)),
    }
}

/// The pattern of the version line in the output of `systeminfo`.
pub const WINDOWS_VERSION_PATTERN: &'static str = "OS Version:\\s+\\d+\\.\\d+\\.\\d+";

/// The Windows identity, from the match of the version line found in the
/// output of `systeminfo`: the trimmed text after its colon, which must not
/// be empty.
pub open spec fn windows_os_from_match(found: Option<Seq<char>>) -> Result<
    (OSType, Seq<char>),
    InfoError,
> {
    match found {
        Some(m) => match colon_field(m) {
            Some(v) => if v.len() > 0 {
                Ok((OSType::Windows, v))
            } else {
                Err(InfoError::ParseMismatch)
            },
            None => Err(InfoError::ParseMismatch),
        },
        None => Err(InfoError::ParseMismatch),
    }
}

/// The Windows identity from the output of `systeminfo`.
pub open spec fn windows_os(systeminfo: Acquired) -> Result<(OSType, Seq<char>), InfoError> {
    match systeminfo {
        Acquired::Text(t) => windows_os_from_match(
            regex_first_match(WINDOWS_VERSION_PATTERN@, t@),
        ),
        _ => Err(acquisition_error(systeminfo)),
    }
}

/// The identity that the sources of a platform give.
pub open spec fn os_identity(src: OsSources) -> Result<(OSType, Seq<char>), InfoError> {
    match src {
        OsSources::Linux { markers, os_release, kernel_release } => linux_os(
            markers,
            os_release,
            kernel_release,
        ),
        OsSources::MacOS { product_version } => macos_os(product_version),
        OsSources::Windows { systeminfo } => windows_os(systeminfo),
    }
}

/// Whether `r` is the identity that `expected` describes.
pub open spec fn os_result_is(
    r: Result<OSInformation, InfoError>,
    expected: Result<(OSType, Seq<char>), InfoError>,
) -> bool {
    match r {
        Ok(info) => expected == Ok::<(OSType, Seq<char>), InfoError>((info.os_type, info.version@)),
        Err(e) => expected == Err::<(OSType, Seq<char>), InfoError>(e),
    }
}

fn unknown_os() -> (r: OSInformation)
    ensures
        r.os_type == OSType::Unknown,
        r.version@ == unknown_version(),
{
    OSInformation { os_type: OSType::Unknown, version: String::from_str("0.0.0") }
}

fn version_or_unknown(t: &str) -> (r: String)
    ensures
        r@ == (if trim(t@).len() > 0 {
            trim(t@)
        } else {
            unknown_version()
        }),
{
    let v = trim_text(t);
    if v.unicode_len() > 0 {
        v
    } else {
        String::from_str("0.0.0")
    }
}

fn kernel_version_of(kernel_release: &Acquired) -> (r: String)
    ensures
        r@ == kernel_version(*kernel_release),
{
    match kernel_release {
        Acquired::Text(t) => version_or_unknown(t.as_str()),
        _ => String::from_str("0.0.0"),
    }
}

/// Identifies Linux from which marker files exist, the text of
/// `/etc/os-release` and the kernel release. The first existing marker, in
/// the order Arch, Debian, Fedora, Gentoo, SuSE, Red Hat, names the
/// distribution; without one `/etc/os-release` does; without that file the
/// system is `Unknown` at version "0.0.0". The version is the trimmed
/// kernel release.
pub fn linux_os_info(
    markers: DistroMarkers,
    os_release: &Acquired,
    kernel_release: &Acquired,
) -> (r: Result<OSInformation, InfoError>)
    ensures
        os_result_is(r, linux_os(markers, *os_release, *kernel_release)),
{
    let t = if markers.arch_release {
        Some(OSType::Arch)
    } else if markers.debian_version {
        Some(OSType::Debian)
    } else if markers.fedora_release {
        Some(OSType::Fedora)
    } else if markers.gentoo_release {
        Some(OSType::Gentoo)
    } else if markers.suse_release {
        Some(OSType::OpenSUSE)
    } else if markers.redhat_release {
        Some(OSType::Redhat)
    } else {
        None
    };
    match t {
        Some(t) => Ok(OSInformation { os_type: t, version: kernel_version_of(kernel_release) }),
        None => match os_release {
            Acquired::Text(c) => Ok(
                OSInformation {
                    os_type: parse_os_release(c.as_str()),
                    version: kernel_version_of(kernel_release),
                },
            ),
            Acquired::Absent => Ok(unknown_os()),
            _ => Err(error_of(os_release)),
        },
    }
}

/// Identifies Windows from the match of the version line in the output of
/// `systeminfo` ("OS Version:   10.0.19045"): the version is the trimmed
/// text after the colon. No match, one without a colon, or one with nothing
/// after it is a parse mismatch.
pub fn windows_os_info(found: Option<&str>) -> (r: Result<OSInformation, InfoError>)
    ensures
        os_result_is(
            r,
            windows_os_from_match(
                match found {
                    Some(m) => Some(m@),
                    None => None,
                },
            ),
        ),
{
    match found {
        Some(m) => match field_after_colon(m) {
            Some(v) => if v.unicode_len() > 0 {
                Ok(OSInformation { os_type: OSType::Windows, version: v })
            } else {
                Err(InfoError::ParseMismatch)
            },
            None => Err(InfoError::ParseMismatch),
        },
        None => Err(InfoError::ParseMismatch),
    }
}

/// Identifies the operating system from the raw text of its platform's
/// sources: marker files, `/etc/os-release` and the kernel release on Linux;
/// the product version on macOS; the output of `systeminfo` on Windows.
pub fn get_os(src: &OsSources) -> (r: Result<OSInformation, InfoError>)
    ensures
        os_result_is(r, os_identity(*src)),
{
    match src {
        OsSources::Linux { markers, os_release, kernel_release } => linux_os_info(
            *markers,
            os_release,
            kernel_release,
        ),
        OsSources::MacOS { product_version } => match product_version {
            Acquired::Text(t) => Ok(
                OSInformation { os_type: OSType::OSX, version: version_or_unknown(t.as_str()) },
            ),
            _ => Err(error_of(product_version)),
        },
        OsSources::Windows { systeminfo } => match systeminfo {
            Acquired::Text(t) => {
                let found = first_match(WINDOWS_VERSION_PATTERN, t.as_str());
                match found {
                    Some(m) => windows_os_info(Some(m.as_str())),
                    None => windows_os_info(None),
                }
            },
            _ => Err(error_of(systeminfo)),
        },
    }
}

/// A marker file outranks `/etc/os-release`: where the Arch marker exists,
/// Linux is identified as Arch whatever `/etc/os-release` holds, and the
/// result is the same as with no `/etc/os-release` at all.
pub proof fn lemma_marker_precedence(
    m: DistroMarkers,
    os_release: Acquired,
    kernel_release: Acquired,
)
    requires
        m.arch_release,
    ensures
        linux_os(m, os_release, kernel_release) matches Ok((t, _)) && t == OSType::Arch,
        linux_os(m, os_release, kernel_release) == linux_os(m, Acquired::Absent, kernel_release),
{
}

/// A version is never empty, on any platform: where none can be found it
/// is "0.0.0".
pub proof fn lemma_version_never_empty(src: OsSources)
    ensures
        os_identity(src) matches Ok((_, v)) ==> v.len() > 0,
{
    reveal_strlit("0.0.0");
}

/// The name that a source gives: its trimmed text.
pub open spec fn reported_name(a: Acquired) -> Result<Seq<char>, InfoError> {
    match a {
        Acquired::Text(t) => Ok(trim(t@)),
        _ => Err(acquisition_error(a)),
    }
}

/// Whether `r` is the name that `expected` describes.
pub open spec fn name_is(
    r: Result<String, InfoError>,
    expected: Result<Seq<char>, InfoError>,
) -> bool {
    match r {
        Ok(s) => expected == Ok::<Seq<char>, InfoError>(s@),
        Err(e) => expected == Err::<Seq<char>, InfoError>(e),
    }
}

fn trimmed_name(a: &Acquired) -> (r: Result<String, InfoError>)
    ensures
        name_is(r, reported_name(*a)),
{
    match a {
        Acquired::Text(t) => Ok(trim_text(t.as_str())),
        _ => Err(error_of(a)),
    }
}

/// The host name, from `/proc/sys/kernel/hostname` on Linux, the output of
/// `hostname` on macOS, or the system's answer on Windows: its trimmed text.
pub fn get_hostname(a: &Acquired) -> (r: Result<String, InfoError>)
    ensures
        name_is(r, reported_name(*a)),
{
    trimmed_name(a)
}

/// The current user's name, from the output of `id -u -n`, or the system's
/// answer on Windows: its trimmed text.
pub fn get_username(a: &Acquired) -> (r: Result<String, InfoError>)
    ensures
        name_is(r, reported_name(*a)),
{
    trimmed_name(a)
}

} // verus!
