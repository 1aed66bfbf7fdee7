use jbundle::config::{
    resolve_config, BuildConfig, CliOptions, ConfigError, JvmProfile, ProjectConfig, Target,
};

fn bare_cli() -> CliOptions {
    CliOptions {
        input: "app.jar".to_string(),
        output: "app".to_string(),
        java_version: None,
        target: None,
        jvm_args: Vec::new(),
        shrink: false,
        profile: None,
        no_appcds: false,
        crac: false,
        compact_banner: false,
    }
}

fn full_project() -> ProjectConfig {
    ProjectConfig {
        target: Some("macos-aarch64".to_string()),
        java_version: Some(17),
        jvm_args: Some(vec!["-Xmx256m".to_string()]),
        shrink: Some(true),
        profile: Some("native".to_string()),
        appcds: Some(false),
        crac: Some(true),
        compact_banner: Some(true),
    }
}

fn unwrap_ok(r: Result<BuildConfig, ConfigError>) -> BuildConfig {
    match r {
        Ok(c) => c,
        Err(e) => panic!("unexpected config error: {:?}", e),
    }
}

#[test]
fn target_names_parse() {
    assert_eq!(Target::from_str("linux-x64"), Some(Target::LinuxX64));
    assert_eq!(Target::from_str("linux-aarch64"), Some(Target::LinuxAarch64));
    assert_eq!(Target::from_str("macos-x64"), Some(Target::MacosX64));
    assert_eq!(Target::from_str("macos-aarch64"), Some(Target::MacosAarch64));
    assert_eq!(Target::from_str("windows-x64"), None);
    assert_eq!(Target::from_str(""), None);
}

#[test]
fn target_name_round_trip() {
    for t in [
        Target::LinuxX64,
        Target::LinuxAarch64,
        Target::MacosX64,
        Target::MacosAarch64,
    ] {
        assert_eq!(Target::from_str(t.name().as_str()), Some(t));
    }
}

#[test]
fn profile_names_parse() {
    assert_eq!(JvmProfile::from_str("server"), Some(JvmProfile::Server));
    assert_eq!(JvmProfile::from_str("native"), Some(JvmProfile::Native));
    assert_eq!(JvmProfile::from_str("client"), None);
}

#[test]
fn defaults_apply_when_absent_everywhere() {
    let c = unwrap_ok(resolve_config(bare_cli(), None, Target::LinuxX64));
    assert_eq!(c.java_version, 21);
    assert!(!c.java_version_explicit);
    assert_eq!(c.target, Target::LinuxX64);
    assert!(c.jvm_args.is_empty());
    assert!(!c.shrink);
    assert_eq!(c.profile, JvmProfile::Server);
    assert!(c.appcds);
    assert!(!c.crac);
    assert!(!c.compact_banner);
}

#[test]
fn project_file_fills_absent_options() {
    let c = unwrap_ok(resolve_config(bare_cli(), Some(full_project()), Target::LinuxX64));
    assert_eq!(c.java_version, 17);
    assert!(c.java_version_explicit);
    assert_eq!(c.target, Target::MacosAarch64);
    assert_eq!(c.jvm_args, vec!["-Xmx256m".to_string()]);
    assert!(c.shrink);
    assert_eq!(c.profile, JvmProfile::Native);
    assert!(!c.appcds);
    assert!(c.crac);
    assert!(c.compact_banner);
}

#[test]
fn cli_overrides_project_file() {
    let cli = CliOptions {
        java_version: Some(22),
        target: Some("linux-aarch64".to_string()),
        jvm_args: vec!["-Xmx1g".to_string(), "-ea".to_string()],
        profile: Some("server".to_string()),
        ..bare_cli()
    };
    let c = unwrap_ok(resolve_config(cli, Some(full_project()), Target::LinuxX64));
    assert_eq!(c.java_version, 22);
    assert!(c.java_version_explicit);
    assert_eq!(c.target, Target::LinuxAarch64);
    assert_eq!(c.jvm_args, vec!["-Xmx1g".to_string(), "-ea".to_string()]);
    assert_eq!(c.profile, JvmProfile::Server);
}

#[test]
fn enable_flags_or_combine() {
    // CLI true, file absent.
    let cli = CliOptions { shrink: true, crac: true, compact_banner: true, ..bare_cli() };
    let c = unwrap_ok(resolve_config(cli, None, Target::LinuxX64));
    assert!(c.shrink && c.crac && c.compact_banner);

    // CLI false, file true.
    let c = unwrap_ok(resolve_config(bare_cli(), Some(full_project()), Target::LinuxX64));
    assert!(c.shrink && c.crac && c.compact_banner);

    // CLI false, file explicitly false.
    let proj = ProjectConfig {
        shrink: Some(false),
        crac: Some(false),
        compact_banner: Some(false),
        appcds: None,
        target: None,
        java_version: None,
        jvm_args: None,
        profile: None,
    };
    let c = unwrap_ok(resolve_config(bare_cli(), Some(proj), Target::LinuxX64));
    assert!(!c.shrink && !c.crac && !c.compact_banner);
}

#[test]
fn no_appcds_flag_always_wins() {
    let proj = ProjectConfig { appcds: Some(true), ..full_project() };
    let cli = CliOptions { no_appcds: true, ..bare_cli() };
    let c = unwrap_ok(resolve_config(cli, Some(proj), Target::LinuxX64));
    assert!(!c.appcds);
}

#[test]
fn invalid_cli_target_is_rejected() {
    let cli = CliOptions { target: Some("win-x64".to_string()), ..bare_cli() };
    let r = resolve_config(cli, Some(full_project()), Target::LinuxX64);
    assert_eq!(r.err(), Some(ConfigError::InvalidTarget("win-x64".to_string())));
}

#[test]
fn invalid_project_target_is_rejected() {
    let proj = ProjectConfig { target: Some("sparc".to_string()), ..full_project() };
    let r = resolve_config(bare_cli(), Some(proj), Target::LinuxX64);
    assert_eq!(r.err(), Some(ConfigError::InvalidTarget("sparc".to_string())));
}

#[test]
fn invalid_profile_is_rejected() {
    let cli = CliOptions { profile: Some("client".to_string()), ..bare_cli() };
    let r = resolve_config(cli, None, Target::LinuxX64);
    assert_eq!(r.err(), Some(ConfigError::InvalidProfile("client".to_string())));
}

#[test]
fn error_messages_name_the_input() {
    let e = ConfigError::InvalidTarget("sparc".to_string());
    assert_eq!(e.message(), "invalid target: sparc");
    let e = ConfigError::InvalidProfile("client".to_string());
    assert_eq!(e.message(), "invalid profile: client");
}
