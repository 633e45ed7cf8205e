//! The values that the library reports.

use vstd::prelude::*;

verus! {

/// The operating systems that the detector tells apart.
#[derive(Debug, Clone, Copy, PartialEq, Eq, Structural)]
pub enum OSType {
    Arch,
    CentOS,
    Debian,
    Fedora,
    Gentoo,
    OpenSUSE,
    OSX,
    Redhat,
    Ubuntu,
    Windows,
    Unknown,
}

/// An operating system and its version.
///
/// On Linux the version is the kernel release, on macOS the product version,
/// on Windows the version that `systeminfo` reports. It is never empty: where
/// it cannot be found it is "0.0.0".
#[derive(Debug, Clone, PartialEq)]
pub struct OSInformation {
    pub os_type: OSType,
    pub version: String,
}

/// Space on a filesystem, in bytes. A field that the source could not give
/// is `None`, never zero.
#[derive(Debug, Clone, Copy, PartialEq, Eq, Structural)]
pub struct DiskInfo {
    pub total: Option<u64>,
    pub free: Option<u64>,
    pub in_use: Option<u64>,
}

/// Memory, in bytes. A field that the source could not give is `None`,
/// never zero.
#[derive(Debug, Clone, Copy, PartialEq, Eq, Structural)]
pub struct MemInfo {
    pub total: Option<u64>,
    pub free: Option<u64>,
    pub in_use: Option<u64>,
}

/// The number of processors, their model and their clock in MHz, each
/// `None` where the source does not give it.
#[derive(Debug, Clone, PartialEq)]
pub struct CPUInfo {
    pub num: Option<usize>,
    pub model: Option<String>,
    pub mhz: Option<String>,
}

/// Why a fact could not be had.
#[derive(Debug, Clone, Copy, PartialEq, Eq, Structural)]
pub enum InfoError {
    /// The file or command that the fact comes from does not exist here.
    SourceUnavailable,
    /// The source exists, but its text is not in the expected shape.
    ParseMismatch,
    /// The source exists but could not be read, or the command failed.
    AcquisitionFailure,
    /// The fact has no implementation on this platform.
    UnsupportedPlatform,
    /// A command did not finish in the time allowed.
    TimedOut,
}

/// What reading one source (a file or the output of a command) gave.
#[derive(Debug, Clone, PartialEq)]
pub enum Acquired {
    /// The file or the command does not exist.
    Absent,
    /// It exists but could not be read, or the command failed.
    Unreadable,
    /// The command did not finish in the time allowed.
    TimedOut,
    /// Its text.
    Text(String),
}

/// The error that a source that gave no text stands for.
pub open spec fn acquisition_error(a: Acquired) -> InfoError {
    match a {
        Acquired::Absent => InfoError::SourceUnavailable,
        Acquired::TimedOut => InfoError::TimedOut,
        _ => InfoError::AcquisitionFailure,
    }
}

/// The error that a source that gave no text stands for.
pub fn error_of(a: &Acquired) -> (r: InfoError)
    ensures
        r == acquisition_error(*a),
{
    match a {
        Acquired::Absent => InfoError::SourceUnavailable,
        Acquired::TimedOut => InfoError::TimedOut,
        _ => InfoError::AcquisitionFailure,
    }
}

/// Which of the distribution marker files exist.
#[derive(Debug, Clone, Copy, PartialEq, Eq, Structural)]
pub struct DistroMarkers {
    pub arch_release: bool,
    pub debian_version: bool,
    pub fedora_release: bool,
    pub gentoo_release: bool,
    pub suse_release: bool,
    pub redhat_release: bool,
}

/// The raw text from which the operating system is identified, by platform.
#[derive(Debug, Clone, PartialEq)]
pub enum OsSources {
    /// Which marker files exist, `/etc/os-release`, and
    /// `/proc/sys/kernel/osrelease`.
    Linux { markers: DistroMarkers, os_release: Acquired, kernel_release: Acquired },
    /// The output of `sw_vers -productVersion`.
    MacOS { product_version: Acquired },
    /// The output of `systeminfo`.
    Windows { systeminfo: Acquired },
}

/// The raw text from which the processors are described, by platform.
#[derive(Debug, Clone, PartialEq)]
pub enum CpuSources {
    /// `/proc/cpuinfo`.
    Linux { cpuinfo: Acquired },
    /// The outputs of `sysctl hw.ncpu`, `sysctl machdep.cpu.brand_string` and
    /// `sysctl hw.cpufrequency`.
    MacOS { ncpu: Acquired, brand_string: Acquired, frequency: Acquired },
    /// Windows has no source for processors.
    Windows,
}

/// The raw text from which memory is measured, by platform.
#[derive(Debug, Clone, PartialEq)]
pub enum MemSources {
    /// `/proc/meminfo`.
    Linux { meminfo: Acquired },
    /// The output of `sysctl hw.memsize`.
    MacOS { memsize: Acquired },
    /// The output of the memory helper program.
    Windows { helper_output: Acquired },
}

} // verus!
