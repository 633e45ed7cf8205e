//! Which sources each platform reads for each fact, in which order, and how
//! what those reads gave is handed to the parsers.

use vstd::prelude::*;
use crate::types::{Acquired, CpuSources, DistroMarkers, InfoError, MemSources, OsSources};

verus! {

/// The platform families the library knows.
#[derive(Debug, Clone, Copy, PartialEq, Eq, Structural)]
pub enum Platform {
    Linux,
    MacOS,
    Windows,
    /// Any other system: no fact is implemented there.
    Other,
}

/// The facts that can be asked for.
#[derive(Debug, Clone, Copy, PartialEq, Eq, Structural)]
pub enum Fact {
    Hostname,
    Username,
    OsIdentity,
    Cpu,
    Memory,
    Disk,
}

/// One acquisition: what to read or run.
#[derive(Debug, Clone, PartialEq)]
pub enum Step {
    /// Whether the file exists; its text is not read.
    Exists(&'static str),
    /// The text of the file.
    Read(&'static str),
    /// The standard output of the program, run with the arguments.
    Run(&'static str, Vec<&'static str>),
    /// The standard output of the helper program, run with no argument.
    Helper(&'static str),
    /// The standard output of the helper program, run with the root of the
    /// filesystem being measured as its one argument.
    HelperOnRoot(&'static str),
    /// An answer of the system's own programming interface.
    Native,
}

/// A step, as plain text.
pub enum StepView {
    Exists(Seq<char>),
    Read(Seq<char>),
    Run(Seq<char>, Seq<Seq<char>>),
    Helper(Seq<char>),
    HelperOnRoot(Seq<char>),
    Native,
}

impl View for Step {
    type V = StepView;

    open spec fn view(&self) -> StepView {
        match self {
            Step::Exists(p) => StepView::Exists(p@),
            Step::Read(p) => StepView::Read(p@),
            Step::Run(p, args) => StepView::Run(p@, args@.map_values(|a: &'static str| a@)),
            Step::Helper(p) => StepView::Helper(p@),
            Step::HelperOnRoot(p) => StepView::HelperOnRoot(p@),
            Step::Native => StepView::Native,
        }
    }
}

/// The marker files of Linux distributions, in the order in which they are
/// tried.
pub open spec fn marker_steps() -> Seq<StepView> {
    seq![
        StepView::Exists("/etc/arch-release"@),
        StepView::Exists("/etc/debian_version"@),
        StepView::Exists("/etc/fedora-release"@),
        StepView::Exists("/etc/gentoo-release"@),
        StepView::Exists("/etc/SuSE-release"@),
        StepView::Exists("/etc/redhat-release"@),
    ]
}

/// The `id -u -n` query of the user name.
pub open spec fn id_step() -> StepView {
    StepView::Run("id"@, seq!["-u"@, "-n"@])
}

/// The steps, in order, by which `platform` acquires `fact`.
pub open spec fn plan(platform: Platform, fact: Fact) -> Result<Seq<StepView>, InfoError> {
    match platform {
        Platform::Linux => match fact {
            Fact::Hostname => Ok(seq![StepView::Read("/proc/sys/kernel/hostname"@)]),
            Fact::Username => Ok(seq![id_step()]),
            Fact::OsIdentity => Ok(
                marker_steps() + seq![
                    StepView::Read("/etc/os-release"@),
                    StepView::Read("/proc/sys/kernel/osrelease"@),
                ],
            ),
            Fact::Cpu => Ok(seq![StepView::Read("/proc/cpuinfo"@)]),
            Fact::Memory => Ok(seq![StepView::Read("/proc/meminfo"@)]),
            Fact::Disk => Ok(seq![StepView::HelperOnRoot("disk"@)]),
        },
        Platform::MacOS => match fact {
            Fact::Hostname => Ok(seq![StepView::Run("hostname"@, seq![])]),
            Fact::Username => Ok(seq![id_step()]),
            Fact::OsIdentity => Ok(seq![StepView::Run("sw_vers"@, seq!["-productVersion"@])]),
            Fact::Cpu => Ok(
                seq![
                    StepView::Run("sysctl"@, seq!["hw.ncpu"@]),
                    StepView::Run("sysctl"@, seq!["machdep.cpu.brand_string"@]),
                    StepView::Run("sysctl"@, seq!["hw.cpufrequency"@]),
                ],
            ),
            Fact::Memory => Ok(seq![StepView::Run("sysctl"@, seq!["hw.memsize"@])]),
            Fact::Disk => Ok(seq![StepView::HelperOnRoot("disk"@)]),
        },
        Platform::Windows => match fact {
            Fact::Hostname => Ok(seq![StepView::Native]),
            Fact::Username => Ok(seq![StepView::Native]),
            Fact::OsIdentity => Ok(seq![StepView::Run("systeminfo"@, seq![])]),
            Fact::Cpu => Err(InfoError::UnsupportedPlatform),
            Fact::Memory => Ok(seq![StepView::Helper("mem-windows"@)]),
            Fact::Disk => Ok(seq![StepView::HelperOnRoot("disk"@)]),
        },
        Platform::Other => Err(InfoError::UnsupportedPlatform),
    }
}

/// Whether `r` holds the steps that `expected` lists.
pub open spec fn steps_are(r: Seq<Step>, expected: Seq<StepView>) -> bool {
    r.map_values(|s: Step| s@) == expected
}

fn run(program: &'static str, args: Vec<&'static str>) -> (r: Step)
    ensures
        r@ == StepView::Run(program@, args@.map_values(|a: &'static str| a@)),
{
    Step::Run(program, args)
}

fn id_query() -> (r: Step)
    ensures
        r@ == id_step(),
{
    let r = run("id", vec!["-u", "-n"]);
    assert(r@ == id_step()) by {
        if let StepView::Run(_, a) = r@ {
            assert(a =~= seq!["-u"@, "-n"@]);
        }
    }
    r
}

fn arg_run(program: &'static str, arg: &'static str) -> (r: Step)
    ensures
        r@ == StepView::Run(program@, seq![arg@]),
{
    let r = run(program, vec![arg]);
    assert(r@ == StepView::Run(program@, seq![arg@])) by {
        if let StepView::Run(_, a) = r@ {
            assert(a =~= seq![arg@]);
        }
    }
    r
}

fn bare_run(program: &'static str) -> (r: Step)
    ensures
        r@ == StepView::Run(program@, seq![]),
{
    let r = run(program, Vec::new());
    assert(r@ == StepView::Run(program@, seq![])) by {
        if let StepView::Run(_, a) = r@ {
            assert(a =~= seq![]);
        }
    }
    r
}

/// Lists, in order, the steps by which `platform` acquires `fact`: the files
/// it checks or reads and the programs it runs. A fact that the platform
/// does not implement is `UnsupportedPlatform`.
pub fn sources_for(platform: Platform, fact: Fact) -> (r: Result<Vec<Step>, InfoError>)
    ensures
        match plan(platform, fact) {
            Ok(steps) => r matches Ok(v) && steps_are(v@, steps),
            Err(e) => r == Err::<Vec<Step>, InfoError>(e),
        },
{
    let steps: Vec<Step> = match platform {
        Platform::Linux => match fact {
            Fact::Hostname => vec![Step::Read("/proc/sys/kernel/hostname")],
            Fact::Username => vec![id_query()],
            Fact::OsIdentity => vec![
                Step::Exists("/etc/arch-release"),
                Step::Exists("/etc/debian_version"),
                Step::Exists("/etc/fedora-release"),
                Step::Exists("/etc/gentoo-release"),
                Step::Exists("/etc/SuSE-release"),
                Step::Exists("/etc/redhat-release"),
                Step::Read("/etc/os-release"),
                Step::Read("/proc/sys/kernel/osrelease"),
            ],
            Fact::Cpu => vec![Step::Read("/proc/cpuinfo")],
            Fact::Memory => vec![Step::Read("/proc/meminfo")],
            Fact::Disk => vec![Step::HelperOnRoot("disk")],
        },
        Platform::MacOS => match fact {
            Fact::Hostname => vec![bare_run("hostname")],
            Fact::Username => vec![id_query()],
            Fact::OsIdentity => vec![arg_run("sw_vers", "-productVersion")],
            Fact::Cpu => vec![
                arg_run("sysctl", "hw.ncpu"),
                arg_run("sysctl", "machdep.cpu.brand_string"),
                arg_run("sysctl", "hw.cpufrequency"),
            ],
            Fact::Memory => vec![arg_run("sysctl", "hw.memsize")],
            Fact::Disk => vec![Step::HelperOnRoot("disk")],
        },
        Platform::Windows => match fact {
            Fact::Hostname => vec![Step::Native],
            Fact::Username => vec![Step::Native],
            Fact::OsIdentity => vec![bare_run("systeminfo")],
            Fact::Cpu => {
                return Err(InfoError::UnsupportedPlatform);
            },
            Fact::Memory => vec![Step::Helper("mem-windows")],
            Fact::Disk => vec![Step::HelperOnRoot("disk")],
        },
        Platform::Other => {
            return Err(InfoError::UnsupportedPlatform);
        },
    };
    proof {
        if let Ok(expected) = plan(platform, fact) {
            assert(steps@.map_values(|s: Step| s@) =~= expected);
        }
    }
    Ok(steps)
}

/// Whether an existence check found its file: it gives text (of any kind)
/// where the file exists.
pub open spec fn found(a: Acquired) -> bool {
    a is Text
}

/// The sources of the operating system's identity, from what the steps of
/// its plan gave, in the plan's order.
pub open spec fn os_sources_of(platform: Platform, o: Seq<Acquired>) -> Result<
    OsSources,
    InfoError,
> {
    match platform {
        Platform::Linux => if o.len() == 8 {
            Ok(
                OsSources::Linux {
                    markers: DistroMarkers {
                        arch_release: found(o[0]),
                        debian_version: found(o[1]),
                        fedora_release: found(o[2]),
                        gentoo_release: found(o[3]),
                        suse_release: found(o[4]),
                        redhat_release: found(o[5]),
                    },
                    os_release: o[6],
                    kernel_release: o[7],
                },
            )
        } else {
            Err(InfoError::AcquisitionFailure)
        },
        Platform::MacOS => if o.len() == 1 {
            Ok(OsSources::MacOS { product_version: o[0] })
        } else {
            Err(InfoError::AcquisitionFailure)
        },
        Platform::Windows => if o.len() == 1 {
            Ok(OsSources::Windows { systeminfo: o[0] })
        } else {
            Err(InfoError::AcquisitionFailure)
        },
        Platform::Other => Err(InfoError::UnsupportedPlatform),
    }
}

/// The sources of the processor description, from what the steps of its
/// plan gave, in the plan's order.
pub open spec fn cpu_sources_of(platform: Platform, o: Seq<Acquired>) -> Result<
    CpuSources,
    InfoError,
> {
    match platform {
        Platform::Linux => if o.len() == 1 {
            Ok(CpuSources::Linux { cpuinfo: o[0] })
        } else {
            Err(InfoError::AcquisitionFailure)
        },
        Platform::MacOS => if o.len() == 3 {
            Ok(CpuSources::MacOS { ncpu: o[0], brand_string: o[1], frequency: o[2] })
        } else {
            Err(InfoError::AcquisitionFailure)
        },
        Platform::Windows => Err(InfoError::UnsupportedPlatform),
        Platform::Other => Err(InfoError::UnsupportedPlatform),
    }
}

/// The sources of the memory measurement, from what the steps of its plan
/// gave, in the plan's order.
pub open spec fn mem_sources_of(platform: Platform, o: Seq<Acquired>) -> Result<
    MemSources,
    InfoError,
> {
    if platform == Platform::Other {
        Err(InfoError::UnsupportedPlatform)
    } else if o.len() != 1 {
        Err(InfoError::AcquisitionFailure)
    } else {
        match platform {
            Platform::Linux => Ok(MemSources::Linux { meminfo: o[0] }),
            Platform::MacOS => Ok(MemSources::MacOS { memsize: o[0] }),
            _ => Ok(MemSources::Windows { helper_output: o[0] }),
        }
    }
}

/// Gathers what the steps of the identity plan of `platform` gave, in the
/// plan's order, into the sources of the operating system's identity. An
/// existence check counts as finding its file where it gave text. Outcomes
/// that do not fit the plan are an acquisition failure.
pub fn os_sources(platform: Platform, outcomes: Vec<Acquired>) -> (r: Result<
    OsSources,
    InfoError,
>)
    ensures
        r == os_sources_of(platform, outcomes@),
{
    let mut o = outcomes;
    match platform {
        Platform::Linux => {
            if o.len() != 8 {
                return Err(InfoError::AcquisitionFailure);
            }
            let markers = DistroMarkers {
                arch_release: matches!(o[0], Acquired::Text(_)),
                debian_version: matches!(o[1], Acquired::Text(_)),
                fedora_release: matches!(o[2], Acquired::Text(_)),
                gentoo_release: matches!(o[3], Acquired::Text(_)),
                suse_release: matches!(o[4], Acquired::Text(_)),
                redhat_release: matches!(o[5], Acquired::Text(_)),
            };
            let kernel_release = o.remove(7);
            let os_release = o.remove(6);
            Ok(OsSources::Linux { markers, os_release, kernel_release })
        },
        Platform::MacOS => {
            if o.len() != 1 {
                return Err(InfoError::AcquisitionFailure);
            }
            Ok(OsSources::MacOS { product_version: o.remove(0) })
        },
        Platform::Windows => {
            if o.len() != 1 {
                return Err(InfoError::AcquisitionFailure);
            }
            Ok(OsSources::Windows { systeminfo: o.remove(0) })
        },
        Platform::Other => Err(InfoError::UnsupportedPlatform),
    }
}

/// Gathers what the steps of the processor plan of `platform` gave, in the
/// plan's order, into the sources of the processor description.
pub fn cpu_sources(platform: Platform, outcomes: Vec<Acquired>) -> (r: Result<
    CpuSources,
    InfoError,
>)
    ensures
        r == cpu_sources_of(platform, outcomes@),
{
    let mut o = outcomes;
    match platform {
        Platform::Linux => {
            if o.len() != 1 {
                return Err(InfoError::AcquisitionFailure);
            }
            Ok(CpuSources::Linux { cpuinfo: o.remove(0) })
        },
        Platform::MacOS => {
            if o.len() != 3 {
                return Err(InfoError::AcquisitionFailure);
            }
            let frequency = o.remove(2);
            let brand_string = o.remove(1);
            let ncpu = o.remove(0);
            Ok(CpuSources::MacOS { ncpu, brand_string, frequency })
        },
        _ => Err(InfoError::UnsupportedPlatform),
    }
}

/// Gathers what the step of the memory plan of `platform` gave into the
/// source of the memory measurement.
pub fn mem_sources(platform: Platform, outcomes: Vec<Acquired>) -> (r: Result<
    MemSources,
    InfoError,
>)
    ensures
        r == mem_sources_of(platform, outcomes@),
{
    let mut o = outcomes;
    if platform == Platform::Other {
        return Err(InfoError::UnsupportedPlatform);
    }
    if o.len() != 1 {
        return Err(InfoError::AcquisitionFailure);
    }
    let a = o.remove(0);
    match platform {
        Platform::Linux => Ok(MemSources::Linux { meminfo: a }),
        Platform::MacOS => Ok(MemSources::MacOS { memsize: a }),
        _ => Ok(MemSources::Windows { helper_output: a }),
    }
}

} // verus!
