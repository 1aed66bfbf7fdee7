//! Configuration resolution: one pure pass merges the command-line
//! options with an optional project file into an immutable resolved
//! configuration, before any stage runs.
//!
//! Precedence: a command-line value wins over a project-file value,
//! which wins over the fixed default — except that the boolean enable
//! flags (shrink, checkpoint, compact banner) are OR-combined, and the
//! explicit disable flag for class-data sharing always wins.

use vstd::prelude::*;

verus! {

/// The closed set of supported target platforms.
#[derive(Clone, Copy, Debug, PartialEq, Eq, Structural)]
pub enum Target {
    LinuxX64,
    LinuxAarch64,
    MacosX64,
    MacosAarch64,
}

/// Which target a platform name denotes; exactly four names are valid.
pub open spec fn spec_target_of(s: Seq<char>) -> Option<Target> {
    if s == "linux-x64"@ {
        Some(Target::LinuxX64)
    } else if s == "linux-aarch64"@ {
        Some(Target::LinuxAarch64)
    } else if s == "macos-x64"@ {
        Some(Target::MacosX64)
    } else if s == "macos-aarch64"@ {
        Some(Target::MacosAarch64)
    } else {
        None
    }
}

/// The canonical name of a target platform.
pub open spec fn spec_target_name(t: Target) -> Seq<char> {
    match t {
        Target::LinuxX64 => "linux-x64"@,
        Target::LinuxAarch64 => "linux-aarch64"@,
        Target::MacosX64 => "macos-x64"@,
        Target::MacosAarch64 => "macos-aarch64"@,
    }
}

impl Target {
    /// Parses a platform name; only the four supported names are accepted.
    pub fn from_str(s: &str) -> (r: Option<Target>)
        ensures
            r == spec_target_of(s@),
    {
        let o = s.to_owned();
        if o == String::from_str("linux-x64") {
            Some(Target::LinuxX64)
        } else if o == String::from_str("linux-aarch64") {
            Some(Target::LinuxAarch64)
        } else if o == String::from_str("macos-x64") {
            Some(Target::MacosX64)
        } else if o == String::from_str("macos-aarch64") {
            Some(Target::MacosAarch64)
        } else {
            None
        }
    }

    /// The canonical name of this target platform.
    pub fn name(&self) -> (r: String)
        ensures
            r@ == spec_target_name(*self),
    {
        match self {
            Target::LinuxX64 => String::from_str("linux-x64"),
            Target::LinuxAarch64 => String::from_str("linux-aarch64"),
            Target::MacosX64 => String::from_str("macos-x64"),
            Target::MacosAarch64 => String::from_str("macos-aarch64"),
        }
    }
}

/// The closed set of runtime profiles.
#[derive(Clone, Copy, Debug, PartialEq, Eq, Structural)]
pub enum JvmProfile {
    Server,
    Native,
}

/// Which profile a name denotes.
pub open spec fn spec_profile_of(s: Seq<char>) -> Option<JvmProfile> {
    if s == "server"@ {
        Some(JvmProfile::Server)
    } else if s == "native"@ {
        Some(JvmProfile::Native)
    } else {
        None
    }
}

impl JvmProfile {
    /// Parses a profile name; only the supported names are accepted.
    pub fn from_str(s: &str) -> (r: Option<JvmProfile>)
        ensures
            r == spec_profile_of(s@),
    {
        let o = s.to_owned();
        if o == String::from_str("server") {
            Some(JvmProfile::Server)
        } else if o == String::from_str("native") {
            Some(JvmProfile::Native)
        } else {
            None
        }
    }
}

/// A configuration error, surfaced before any stage starts.
#[derive(Debug, PartialEq, Eq)]
pub enum ConfigError {
    /// The given target platform name is not one of the supported four.
    InvalidTarget(String),
    /// The given runtime profile name is not supported.
    InvalidProfile(String),
}

impl ConfigError {
    /// A human-readable description of the error.
    pub fn message(&self) -> (r: String)
        ensures
            match self {
                ConfigError::InvalidTarget(t) => r@ == "invalid target: "@ + t@,
                ConfigError::InvalidProfile(p) => r@ == "invalid profile: "@ + p@,
            },
    {
        match self {
            ConfigError::InvalidTarget(t) => {
                let mut s = String::from_str("invalid target: ");
                s.append(t.as_str());
                s
            },
            ConfigError::InvalidProfile(p) => {
                let mut s = String::from_str("invalid profile: ");
                s.append(p.as_str());
                s
            },
        }
    }
}

/// What the command line supplied; `None` or an empty list means the
/// option was not given.
pub struct CliOptions {
    pub input: String,
    pub output: String,
    pub java_version: Option<u32>,
    pub target: Option<String>,
    pub jvm_args: Vec<String>,
    pub shrink: bool,
    pub profile: Option<String>,
    pub no_appcds: bool,
    pub crac: bool,
    pub compact_banner: bool,
}

/// What the project file supplied, each option optional.
pub struct ProjectConfig {
    pub target: Option<String>,
    pub java_version: Option<u32>,
    pub jvm_args: Option<Vec<String>>,
    pub shrink: Option<bool>,
    pub profile: Option<String>,
    pub appcds: Option<bool>,
    pub crac: Option<bool>,
    pub compact_banner: Option<bool>,
}

/// The immutable resolved configuration the whole pipeline reads.
pub struct BuildConfig {
    pub input: String,
    pub output: String,
    pub java_version: u32,
    pub java_version_explicit: bool,
    pub target: Target,
    pub jvm_args: Vec<String>,
    pub shrink: bool,
    pub profile: JvmProfile,
    pub appcds: bool,
    pub crac: bool,
    pub compact_banner: bool,
}

/// The target name that resolution will parse, if any was supplied.
pub open spec fn spec_target_str(cli: CliOptions, proj: Option<ProjectConfig>) -> Option<Seq<char>> {
    match cli.target {
        Some(t) => Some(t@),
        None => match proj {
            Some(p) => match p.target {
                Some(t) => Some(t@),
                None => None,
            },
            None => None,
        },
    }
}

/// Whether the supplied target name (if any) is valid.
pub open spec fn spec_target_ok(cli: CliOptions, proj: Option<ProjectConfig>) -> bool {
    match spec_target_str(cli, proj) {
        Some(t) => spec_target_of(t) is Some,
        None => true,
    }
}

/// The resolved target: command line, else project file, else the host
/// platform.
pub open spec fn spec_resolved_target(
    cli: CliOptions,
    proj: Option<ProjectConfig>,
    host: Target,
) -> Target {
    match spec_target_str(cli, proj) {
        Some(t) => spec_target_of(t)->Some_0,
        None => host,
    }
}

/// The resolved runtime version: command line, else project file, else 21.
pub open spec fn spec_resolved_version(cli: CliOptions, proj: Option<ProjectConfig>) -> u32 {
    match cli.java_version {
        Some(v) => v,
        None => match proj {
            Some(p) => match p.java_version {
                Some(v) => v,
                None => 21,
            },
            None => 21,
        },
    }
}

/// Whether a runtime version was requested explicitly anywhere.
pub open spec fn spec_version_explicit(cli: CliOptions, proj: Option<ProjectConfig>) -> bool {
    cli.java_version is Some || (match proj {
        Some(p) => p.java_version is Some,
        None => false,
    })
}

/// The resolved extra runtime arguments: the command line's if any were
/// given, else the project file's, else none.
pub open spec fn spec_resolved_jvm_args(cli: CliOptions, proj: Option<ProjectConfig>) -> Seq<
    Seq<char>,
> {
    if cli.jvm_args@.len() > 0 {
        cli.jvm_args.deep_view()
    } else {
        match proj {
            Some(p) => match p.jvm_args {
                Some(v) => v.deep_view(),
                None => Seq::empty(),
            },
            None => Seq::empty(),
        }
    }
}

/// An OR-combined enable flag: true if either side enabled it.
pub open spec fn spec_or_flag(cli_flag: bool, proj_flag: Option<Option<bool>>) -> bool {
    cli_flag || (match proj_flag {
        Some(Some(b)) => b,
        _ => false,
    })
}

/// The resolved shrink flag.
pub open spec fn spec_resolved_shrink(cli: CliOptions, proj: Option<ProjectConfig>) -> bool {
    spec_or_flag(
        cli.shrink,
        match proj {
            Some(p) => Some(p.shrink),
            None => None,
        },
    )
}

/// The resolved checkpoint flag.
pub open spec fn spec_resolved_crac(cli: CliOptions, proj: Option<ProjectConfig>) -> bool {
    spec_or_flag(
        cli.crac,
        match proj {
            Some(p) => Some(p.crac),
            None => None,
        },
    )
}

/// The resolved compact-banner flag.
pub open spec fn spec_resolved_compact_banner(
    cli: CliOptions,
    proj: Option<ProjectConfig>,
) -> bool {
    spec_or_flag(
        cli.compact_banner,
        match proj {
            Some(p) => Some(p.compact_banner),
            None => None,
        },
    )
}

/// The resolved class-data-sharing flag: the explicit disable flag
/// always wins; otherwise the project file decides; the default is
/// enabled.
pub open spec fn spec_resolved_appcds(cli: CliOptions, proj: Option<ProjectConfig>) -> bool {
    if cli.no_appcds {
        false
    } else {
        match proj {
            Some(p) => match p.appcds {
                Some(b) => b,
                None => true,
            },
            None => true,
        }
    }
}

/// The profile name that resolution will parse: command line, else
/// project file, else "server".
pub open spec fn spec_profile_str(cli: CliOptions, proj: Option<ProjectConfig>) -> Seq<char> {
    match cli.profile {
        Some(p) => p@,
        None => match proj {
            Some(pc) => match pc.profile {
                Some(p) => p@,
                None => "server"@,
            },
            None => "server"@,
        },
    }
}

/// Whether the supplied profile name is valid.
pub open spec fn spec_profile_ok(cli: CliOptions, proj: Option<ProjectConfig>) -> bool {
    spec_profile_of(spec_profile_str(cli, proj)) is Some
}

/// Merges the command line and the optional project file into the
/// resolved configuration, per the stated precedence; rejects an
/// invalid target name (checked first) or profile name.
pub fn resolve_config(cli: CliOptions, project: Option<ProjectConfig>, host: Target) -> (r: Result<
    BuildConfig,
    ConfigError,
>)
    ensures
        r is Ok <==> spec_target_ok(cli, project) && spec_profile_ok(cli, project),
        !spec_target_ok(cli, project) ==> (r matches Err(e) && (e matches ConfigError::InvalidTarget(t)
            && Some(t@) == spec_target_str(cli, project))),
        spec_target_ok(cli, project) && !spec_profile_ok(cli, project) ==> (r matches Err(e) && (
        e matches ConfigError::InvalidProfile(p) && p@ == spec_profile_str(cli, project))),
        r matches Ok(c) ==> c.input@ == cli.input@ && c.output@ == cli.output@ && c.target
            == spec_resolved_target(cli, project, host) && c.java_version == spec_resolved_version(
            cli,
            project,
        ) && c.java_version_explicit == spec_version_explicit(cli, project)
            && c.jvm_args.deep_view() == spec_resolved_jvm_args(cli, project) && c.shrink
            == spec_resolved_shrink(cli, project) && c.crac == spec_resolved_crac(cli, project)
            && c.compact_banner == spec_resolved_compact_banner(cli, project) && c.appcds
            == spec_resolved_appcds(cli, project) && Some(c.profile) == spec_profile_of(
            spec_profile_str(cli, project),
        ),
{
    let CliOptions {
        input,
        output,
        java_version: cli_version,
        target: cli_target,
        jvm_args: cli_jvm_args,
        shrink: cli_shrink,
        profile: cli_profile,
        no_appcds,
        crac: cli_crac,
        compact_banner: cli_banner,
    } = cli;
    let (p_target, p_version, p_jvm_args, p_shrink, p_profile, p_appcds, p_crac, p_banner): (
        Option<String>,
        Option<u32>,
        Option<Vec<String>>,
        Option<bool>,
        Option<String>,
        Option<bool>,
        Option<bool>,
        Option<bool>,
    ) = match project {
        Some(p) => (
            p.target,
            p.java_version,
            p.jvm_args,
            p.shrink,
            p.profile,
            p.appcds,
            p.crac,
            p.compact_banner,
        ),
        None => (None, None, None, None, None, None, None, None),
    };

    let target: Target = match cli_target {
        Some(t) => match Target::from_str(t.as_str()) {
            Some(tt) => tt,
            None => {
                return Err(ConfigError::InvalidTarget(t));
            },
        },
        None => match p_target {
            Some(t) => match Target::from_str(t.as_str()) {
                Some(tt) => tt,
                None => {
                    return Err(ConfigError::InvalidTarget(t));
                },
            },
            None => host,
        },
    };

    let java_version_explicit = cli_version.is_some() || p_version.is_some();
    let java_version: u32 = match cli_version {
        Some(v) => v,
        None => match p_version {
            Some(v) => v,
            None => 21,
        },
    };

    let jvm_args: Vec<String> = if cli_jvm_args.len() > 0 {
        cli_jvm_args
    } else {
        match p_jvm_args {
            Some(v) => v,
            None => Vec::new(),
        }
    };

    let shrink = cli_shrink || (match p_shrink {
        Some(b) => b,
        None => false,
    });
    let crac = cli_crac || (match p_crac {
        Some(b) => b,
        None => false,
    });
    let compact_banner = cli_banner || (match p_banner {
        Some(b) => b,
        None => false,
    });
    let appcds = if no_appcds {
        false
    } else {
        match p_appcds {
            Some(b) => b,
            None => true,
        }
    };

    let profile_string: String = match cli_profile {
        Some(p) => p,
        None => match p_profile {
            Some(p) => p,
            None => String::from_str("server"),
        },
    };
    let profile: JvmProfile = match JvmProfile::from_str(profile_string.as_str()) {
        Some(p) => p,
        None => {
            return Err(ConfigError::InvalidProfile(profile_string));
        },
    };

    Ok(
        BuildConfig {
            input,
            output,
            java_version,
            java_version_explicit,
            target,
            jvm_args,
            shrink,
            profile,
            appcds,
            crac,
            compact_banner,
        },
    )
}

/// A command-line value always overrides a project-file value for the
/// non-boolean options: when the command line supplies the version,
/// the target, the profile, and any runtime arguments, the resolved
/// values are the command line's, whatever the project file says.
pub proof fn lemma_cli_overrides(cli: CliOptions, proj: ProjectConfig)
    requires
        cli.java_version is Some,
        cli.target is Some,
        cli.profile is Some,
        cli.jvm_args@.len() > 0,
    ensures
        spec_resolved_version(cli, Some(proj)) == cli.java_version->Some_0,
        spec_target_str(cli, Some(proj)) == Some(cli.target->Some_0@),
        spec_profile_str(cli, Some(proj)) == cli.profile->Some_0@,
        spec_resolved_jvm_args(cli, Some(proj)) == cli.jvm_args.deep_view(),
{
}

/// The boolean enable flags are OR-combined: either the command line
/// or the project file enabling one of them enables it.
pub proof fn lemma_enable_flags_or(cli: CliOptions, proj: ProjectConfig)
    ensures
        spec_resolved_shrink(cli, Some(proj)) == (cli.shrink || proj.shrink == Some(true)),
        spec_resolved_crac(cli, Some(proj)) == (cli.crac || proj.crac == Some(true)),
        spec_resolved_compact_banner(cli, Some(proj)) == (cli.compact_banner
            || proj.compact_banner == Some(true)),
{
}

/// The explicit disable flag for class-data sharing always wins over
/// the project file.
pub proof fn lemma_no_appcds_wins(cli: CliOptions, proj: ProjectConfig)
    requires
        cli.no_appcds,
    ensures
        !spec_resolved_appcds(cli, Some(proj)),
{
}

/// With every option absent on both sides, the stated defaults apply:
/// version 21, profile "server", class-data sharing enabled, the
/// enable flags off, no arguments, and the host as target.
pub proof fn lemma_defaults(cli: CliOptions, host: Target)
    requires
        cli.java_version is None,
        cli.target is None,
        cli.profile is None,
        cli.jvm_args@.len() == 0,
        !cli.shrink,
        !cli.crac,
        !cli.compact_banner,
        !cli.no_appcds,
    ensures
        spec_resolved_version(cli, None) == 21,
        !spec_version_explicit(cli, None),
        spec_resolved_target(cli, None, host) == host,
        spec_profile_of(spec_profile_str(cli, None)) == Some(JvmProfile::Server),
        spec_resolved_jvm_args(cli, None) == Seq::<Seq<char>>::empty(),
        !spec_resolved_shrink(cli, None),
        !spec_resolved_crac(cli, None),
        !spec_resolved_compact_banner(cli, None),
        spec_resolved_appcds(cli, None),
{
}

} // verus!
