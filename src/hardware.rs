//! Processor, memory and disk collectors.

use vstd::prelude::*;
use crate::pattern::{first_match, match_count, regex_first_match, regex_match_count};
use crate::text::{
    chars_of, colon_field, decimal, decimal_string, field_after_colon, next_line, piece, piece_span,
    parse_u64_in, parse_usize_in, same_text, text_lines, trim, trim_span, u64_of, usize_of, word,
    word_span,
};
use crate::types::{
    acquisition_error, error_of, Acquired, CPUInfo, CpuSources, DiskInfo, InfoError, MemInfo,
    MemSources,
};

verus! {

/// The pattern of a processor line of `/proc/cpuinfo`.
pub const PROCESSOR_PATTERN: &'static str = "processor\\s+:\\s\\d";

/// The pattern of the model line of `/proc/cpuinfo`.
pub const MODEL_PATTERN: &'static str = "model\\sname\\s+:.+";

/// The pattern of the clock line of `/proc/cpuinfo`.
pub const MHZ_PATTERN: &'static str = "cpu\\sMHz\\s+:.+";

/// The value that a matched `key : value` line gives.
pub open spec fn matched_field(found: Option<Seq<char>>) -> Option<Seq<char>> {
    match found {
        Some(m) => colon_field(m),
        None => None,
    }
}

/// Whether `r` is the text `expected`, or both are missing.
pub open spec fn text_is(r: Option<String>, expected: Option<Seq<char>>) -> bool {
    match r {
        Some(t) => expected == Some(t@),
        None => expected is None,
    }
}

/// The view of an optional string.
pub open spec fn opt_view(s: Option<&str>) -> Option<Seq<char>> {
    match s {
        Some(t) => Some(t@),
        None => None,
    }
}

/// Describes the processors from what was found in `/proc/cpuinfo`: the
/// number of processor lines, and the matched model and clock lines, whose
/// values are the trimmed text after their colon.
pub fn linux_cpu_info(
    count: Option<usize>,
    model_line: Option<&str>,
    mhz_line: Option<&str>,
) -> (r: CPUInfo)
    ensures
        r.num == count,
        text_is(r.model, matched_field(opt_view(model_line))),
        text_is(r.mhz, matched_field(opt_view(mhz_line))),
{
    let model = match model_line {
        Some(m) => field_after_colon(m),
        None => None,
    };
    let mhz = match mhz_line {
        Some(m) => field_after_colon(m),
        None => None,
    };
    CPUInfo { num: count, model, mhz }
}

/// The clock in MHz that a frequency in Hz gives, as whole megahertz.
pub open spec fn mhz_text(hz: u64) -> Seq<char> {
    decimal((hz / 1_000_000) as nat)
}

/// The text of a `sysctl` output, if the query gave one.
pub open spec fn acquired_text(a: Acquired) -> Option<Seq<char>> {
    match a {
        Acquired::Text(t) => Some(t@),
        _ => None,
    }
}

/// The value of a `sysctl` output: the trimmed text after its colon.
pub open spec fn sysctl_value(a: Acquired) -> Option<Seq<char>> {
    match acquired_text(a) {
        Some(t) => colon_field(t),
        None => None,
    }
}

/// The processor count that `sysctl hw.ncpu` gives.
pub open spec fn macos_cpu_num(ncpu: Acquired) -> Option<usize> {
    match sysctl_value(ncpu) {
        Some(v) => usize_of(v),
        None => None,
    }
}

/// The clock that `sysctl hw.cpufrequency` gives, in whole MHz.
pub open spec fn macos_cpu_mhz(frequency: Acquired) -> Option<Seq<char>> {
    match sysctl_value(frequency) {
        Some(v) => match u64_of(v) {
            Some(hz) => Some(mhz_text(hz)),
            None => None,
        },
        None => None,
    }
}

fn sysctl_field(a: &Acquired) -> (r: Option<String>)
    ensures
        text_is(r, sysctl_value(*a)),
{
    match a {
        Acquired::Text(t) => field_after_colon(t.as_str()),
        _ => None,
    }
}

fn parse_u64_text(s: &str) -> (r: Option<u64>)
    ensures
        r == u64_of(s@),
{
    let v = chars_of(s);
    assert(v@.subrange(0, v.len() as int) =~= s@);
    parse_u64_in(&v, 0, v.len())
}

fn parse_usize_text(s: &str) -> (r: Option<usize>)
    ensures
        r == usize_of(s@),
{
    let v = chars_of(s);
    assert(v@.subrange(0, v.len() as int) =~= s@);
    parse_usize_in(&v, 0, v.len())
}

/// Describes the processors of macOS from the outputs of `sysctl hw.ncpu`,
/// `sysctl machdep.cpu.brand_string` and `sysctl hw.cpufrequency`: each
/// value is the trimmed text after the colon; the frequency, in Hz, is
/// given in whole MHz. A query that gave nothing usable leaves its field
/// `None`.
pub fn macos_cpu_info(
    ncpu: &Acquired,
    brand_string: &Acquired,
    frequency: &Acquired,
) -> (r: CPUInfo)
    ensures
        r.num == macos_cpu_num(*ncpu),
        text_is(r.model, sysctl_value(*brand_string)),
        text_is(r.mhz, macos_cpu_mhz(*frequency)),
{
    let num = match sysctl_field(ncpu) {
        Some(v) => parse_usize_text(v.as_str()),
        None => None,
    };
    let model = sysctl_field(brand_string);
    let mhz = match sysctl_field(frequency) {
        Some(v) => match parse_u64_text(v.as_str()) {
            Some(hz) => Some(decimal_string(hz / 1_000_000)),
            None => None,
        },
        None => None,
    };
    CPUInfo { num, model, mhz }
}

/// Describes the processors from the raw text of the platform's sources.
/// On Linux `/proc/cpuinfo` must have been read; Windows has no source.
pub fn get_cpu_info(src: &CpuSources) -> (r: Result<CPUInfo, InfoError>)
    ensures
        match *src {
            CpuSources::Linux { cpuinfo } => match cpuinfo {
                Acquired::Text(t) => r matches Ok(info) && info.num == regex_match_count(
                    PROCESSOR_PATTERN@,
                    t@,
                ) && text_is(
                    info.model,
                    matched_field(regex_first_match(MODEL_PATTERN@, t@)),
                ) && text_is(info.mhz, matched_field(regex_first_match(MHZ_PATTERN@, t@))),
                _ => r == Err::<CPUInfo, InfoError>(acquisition_error(cpuinfo)),
            },
            CpuSources::MacOS { ncpu, brand_string, frequency } => r matches Ok(info) && info.num
                == macos_cpu_num(ncpu) && text_is(info.model, sysctl_value(brand_string))
                && text_is(info.mhz, macos_cpu_mhz(frequency)),
            CpuSources::Windows => r == Err::<CPUInfo, InfoError>(InfoError::UnsupportedPlatform),
        },
{
    match src {
        CpuSources::Linux { cpuinfo } => match cpuinfo {
            Acquired::Text(t) => {
                let count = match_count(PROCESSOR_PATTERN, t.as_str());
                let model = first_match(MODEL_PATTERN, t.as_str());
                let mhz = first_match(MHZ_PATTERN, t.as_str());
                let model_line = match &model {
                    Some(m) => Some(m.as_str()),
                    None => None,
                };
                let mhz_line = match &mhz {
                    Some(m) => Some(m.as_str()),
                    None => None,
                };
                Ok(linux_cpu_info(count, model_line, mhz_line))
            },
            _ => Err(error_of(cpuinfo)),
        },
        CpuSources::MacOS { ncpu, brand_string, frequency } => Ok(
            macos_cpu_info(ncpu, brand_string, frequency),
        ),
        CpuSources::Windows => Err(InfoError::UnsupportedPlatform),
    }
}

/// The number on the first of `lines` whose first word is `key`: its second
/// word, read as a `u64`; `None` if there is no such line or its number is
/// missing or malformed.
pub open spec fn keyed_number(lines: Seq<Seq<char>>, key: Seq<char>) -> Option<u64>
    decreases lines.len(),
{
    if lines.len() == 0 {
        None
    } else if word(lines[0], 0) == Some(key) {
        match word(lines[0], 1) {
            Some(w) => u64_of(w),
            None => None,
        }
    } else {
        keyed_number(lines.drop_first(), key)
    }
}

/// Memory from `/proc/meminfo`: `MemTotal:` and `MemFree:` are in KiB and
/// turned into bytes; in use is their difference. A missing or malformed
/// value, a total too large for bytes in a `u64`, or more free memory than
/// the total is a parse mismatch.
pub open spec fn linux_mem(meminfo: Seq<char>) -> Result<MemInfo, InfoError> {
    let lines = text_lines(meminfo);
    match (keyed_number(lines, "MemTotal:"@), keyed_number(lines, "MemFree:"@)) {
        (Some(total), Some(free)) => if total * 1024 <= u64::MAX && free <= total {
            Ok(
                MemInfo {
                    total: Some((total * 1024) as u64),
                    free: Some((free * 1024) as u64),
                    in_use: Some((total * 1024 - free * 1024) as u64),
                },
            )
        } else {
            Err(InfoError::ParseMismatch)
        },
        _ => Err(InfoError::ParseMismatch),
    }
}

/// Memory read from `/proc/meminfo` is consistent: total, free and in use
/// are all known, and in use is exactly total minus free.
pub proof fn lemma_linux_mem_consistent(meminfo: Seq<char>)
    ensures
        linux_mem(meminfo) matches Ok(m) ==> m.total matches Some(t) && m.free matches Some(f)
            && m.in_use == Some((t - f) as u64) && f <= t,
{
}

/// Whether memory or disk figures agree: where total and free are both
/// known, free is at most the total and in use is exactly their difference.
pub open spec fn consistent(total: Option<u64>, free: Option<u64>, in_use: Option<u64>) -> bool {
    total matches Some(t) && free matches Some(f) ==> f <= t && in_use == Some((t - f) as u64)
}

/// Every memory measurement, on every platform, is consistent: where total
/// and free are both known, in use is exactly total minus free.
pub proof fn lemma_mem_consistent(src: MemSources)
    ensures
        mem_info_of(src) matches Ok(m) ==> consistent(m.total, m.free, m.in_use),
{
}

/// Every disk measurement is consistent: in use is exactly total minus
/// free.
pub proof fn lemma_disk_consistent(helper_output: Acquired)
    ensures
        disk_info_of(helper_output) matches Ok(d) ==> consistent(d.total, d.free, d.in_use),
{
}

/// Memory from `sysctl hw.memsize`: its second word is the total in bytes;
/// free and in-use memory are not given.
pub open spec fn macos_mem(memsize: Seq<char>) -> Result<MemInfo, InfoError> {
    match word(memsize, 1) {
        Some(w) => match u64_of(w) {
            Some(n) => Ok(MemInfo { total: Some(n), free: None, in_use: None }),
            None => Err(InfoError::ParseMismatch),
        },
        None => Err(InfoError::ParseMismatch),
    }
}

/// Line `k` of a helper program's output, trimmed and read as a `u64`.
pub open spec fn helper_value(out: Seq<char>, k: nat) -> Option<u64> {
    match piece(out, '\n', k) {
        Some(p) => u64_of(trim(p)),
        None => None,
    }
}

/// The three numbers of a helper program's output: total, free and in use,
/// one per line. Fewer lines, a malformed number, or an in-use figure that
/// is not total minus free is a parse mismatch.
pub open spec fn helper_numbers(out: Seq<char>) -> Result<(u64, u64, u64), InfoError> {
    match (helper_value(out, 0), helper_value(out, 1), helper_value(out, 2)) {
        (Some(total), Some(free), Some(in_use)) => if free <= total && in_use == total - free {
            Ok((total, free, in_use))
        } else {
            Err(InfoError::ParseMismatch)
        },
        _ => Err(InfoError::ParseMismatch),
    }
}

/// Memory from the raw text of the platform's source.
pub open spec fn mem_info_of(src: MemSources) -> Result<MemInfo, InfoError> {
    match src {
        MemSources::Linux { meminfo } => match meminfo {
            Acquired::Text(t) => linux_mem(t@),
            _ => Err(acquisition_error(meminfo)),
        },
        MemSources::MacOS { memsize } => match memsize {
            Acquired::Text(t) => macos_mem(t@),
            _ => Err(acquisition_error(memsize)),
        },
        MemSources::Windows { helper_output } => match helper_output {
            Acquired::Text(t) => match helper_numbers(t@) {
                Ok((total, free, in_use)) => Ok(
                    MemInfo { total: Some(total), free: Some(free), in_use: Some(in_use) },
                ),
                Err(e) => Err(e),
            },
            _ => Err(acquisition_error(helper_output)),
        },
    }
}

/// Disk space from the output of the disk helper program.
pub open spec fn disk_info_of(helper_output: Acquired) -> Result<DiskInfo, InfoError> {
    match helper_output {
        Acquired::Text(t) => match helper_numbers(t@) {
            Ok((total, free, in_use)) => Ok(
                DiskInfo { total: Some(total), free: Some(free), in_use: Some(in_use) },
            ),
            Err(e) => Err(e),
        },
        _ => Err(acquisition_error(helper_output)),
    }
}

fn keyed_number_in(v: &Vec<char>, key: &str) -> (r: Option<u64>)
    ensures
        r == keyed_number(text_lines(v@), key@),
{
    let n = v.len();
    let mut pos: usize = 0;
    assert(v@.subrange(0, n as int) =~= v@);
    while pos < n
        invariant
            n == v.len(),
            pos <= n,
            keyed_number(text_lines(v@.subrange(pos as int, n as int)), key@) == keyed_number(
                text_lines(v@),
                key@,
            ),
        decreases n - pos,
    {
        let (end, next) = next_line(v, pos);
        let is_key = match word_span(v, pos, end, 0) {
            Some((a, b)) => same_text(v, a, b, key),
            None => false,
        };
        if is_key {
            return match word_span(v, pos, end, 1) {
                Some((a, b)) => parse_u64_in(v, a, b),
                None => None,
            };
        }
        proof {
            let rest = text_lines(v@.subrange(next as int, n as int));
            assert((seq![v@.subrange(pos as int, end as int)] + rest).drop_first() =~= rest);
        }
        pos = next;
    }
    None
}

/// Reads `/proc/meminfo`: the first `MemTotal:` and `MemFree:` lines give
/// KiB, which are turned into bytes; in use is total minus free.
pub fn parse_meminfo(meminfo: &str) -> (r: Result<MemInfo, InfoError>)
    ensures
        r == linux_mem(meminfo@),
{
    let v = chars_of(meminfo);
    let total = keyed_number_in(&v, "MemTotal:");
    let free = keyed_number_in(&v, "MemFree:");
    match (total, free) {
        (Some(total), Some(free)) => if total <= u64::MAX / 1024 && free <= total {
            Ok(
                MemInfo {
                    total: Some(total * 1024),
                    free: Some(free * 1024),
                    in_use: Some(total * 1024 - free * 1024),
                },
            )
        } else {
            Err(InfoError::ParseMismatch)
        },
        _ => Err(InfoError::ParseMismatch),
    }
}

/// Reads the output of `sysctl hw.memsize`: its second word is the total in
/// bytes; free and in-use memory stay unknown.
pub fn parse_memsize(memsize: &str) -> (r: Result<MemInfo, InfoError>)
    ensures
        r == macos_mem(memsize@),
{
    let v = chars_of(memsize);
    assert(v@.subrange(0, v.len() as int) =~= memsize@);
    match word_span(&v, 0, v.len(), 1) {
        Some((a, b)) => match parse_u64_in(&v, a, b) {
            Some(n) => Ok(MemInfo { total: Some(n), free: None, in_use: None }),
            None => Err(InfoError::ParseMismatch),
        },
        None => Err(InfoError::ParseMismatch),
    }
}

fn helper_value_in(v: &Vec<char>, k: usize) -> (r: Option<u64>)
    ensures
        r == helper_value(v@, k as nat),
{
    assert(v@.subrange(0, v.len() as int) =~= v@);
    match piece_span(v, '\n', 0, v.len(), k) {
        Some((a, b)) => {
            let (c, d) = trim_span(v, a, b);
            parse_u64_in(v, c, d)
        },
        None => None,
    }
}

/// Reads the output of a helper program: three lines, each a decimal
/// number of bytes, in the order total, free, in use, where in use must be
/// total minus free. Surrounding white space on a line is ignored; what
/// follows the third line is not read.
pub fn parse_helper_output(out: &str) -> (r: Result<(u64, u64, u64), InfoError>)
    ensures
        r == helper_numbers(out@),
{
    let v = chars_of(out);
    let total = helper_value_in(&v, 0);
    let free = helper_value_in(&v, 1);
    let in_use = helper_value_in(&v, 2);
    match (total, free, in_use) {
        (Some(total), Some(free), Some(in_use)) => if free <= total && in_use == total - free {
            Ok((total, free, in_use))
        } else {
            Err(InfoError::ParseMismatch)
        },
        _ => Err(InfoError::ParseMismatch),
    }
}

/// Measures memory from the raw text of the platform's source:
/// `/proc/meminfo` on Linux, `sysctl hw.memsize` on macOS, the memory
/// helper program on Windows.
pub fn get_mem_info(src: &MemSources) -> (r: Result<MemInfo, InfoError>)
    ensures
        r == mem_info_of(*src),
{
    match src {
        MemSources::Linux { meminfo } => match meminfo {
            Acquired::Text(t) => parse_meminfo(t.as_str()),
            _ => Err(error_of(meminfo)),
        },
        MemSources::MacOS { memsize } => match memsize {
            Acquired::Text(t) => parse_memsize(t.as_str()),
            _ => Err(error_of(memsize)),
        },
        MemSources::Windows { helper_output } => match helper_output {
            Acquired::Text(t) => match parse_helper_output(t.as_str()) {
                Ok((total, free, in_use)) => Ok(
                    MemInfo { total: Some(total), free: Some(free), in_use: Some(in_use) },
                ),
                Err(e) => Err(e),
            },
            _ => Err(error_of(helper_output)),
        },
    }
}

/// Measures a filesystem from the output of the disk helper program, run
/// on its root: total, free and in-use bytes, one per line.
pub fn get_disk_info(helper_output: &Acquired) -> (r: Result<DiskInfo, InfoError>)
    ensures
        r == disk_info_of(*helper_output),
{
    match helper_output {
        Acquired::Text(t) => match parse_helper_output(t.as_str()) {
            Ok((total, free, in_use)) => Ok(
                DiskInfo { total: Some(total), free: Some(free), in_use: Some(in_use) },
            ),
            Err(e) => Err(e),
        },
        _ => Err(error_of(helper_output)),
    }
}

} // verus!
