//! Point-in-time system introspection: operating-system identity, CPU,
//! memory and disk summaries, parsed from the raw text that the host's
//! files and commands produce, and byte counts rendered for people.
//!
//! The library holds the logic: which sources a platform reads for each
//! fact and in which order, how their text is read, and how sizes are
//! scaled. Reading files and running programs is left to the caller, who
//! hands over what each step of a plan gave.

pub mod hardware;
pub mod os;
pub mod pattern;
pub mod platform;
pub mod text;
pub mod types;
pub mod units;

pub use hardware::{
    get_cpu_info, get_disk_info, get_mem_info, linux_cpu_info, macos_cpu_info, parse_helper_output,
    parse_meminfo, parse_memsize,
};
pub use os::{
    get_hostname, get_os, get_username, linux_os_info, match_os, parse_os_release, windows_os_info,
};
pub use platform::{cpu_sources, mem_sources, os_sources, sources_for, Fact, Platform, Step};
pub use text::{field_after_colon, trim_text};
pub use types::{
    Acquired, CPUInfo, CpuSources, DiskInfo, DistroMarkers, InfoError, MemInfo, MemSources,
    OSInformation, OSType, OsSources,
};
pub use units::{get_readable_disk_info, get_readable_mem_info, readable_bytes};
