use pyoxidizer_config::config::{
    Config, Distribution, InstallLocation, PythonDistribution, PythonPackaging, RawAllocator,
    RunMode, TerminfoResolution,
};
use pyoxidizer_config::error::ConfigError;
use pyoxidizer_config::manifest::{
    ConfigBuild, ConfigDistribution, ConfigPython, ConfigPythonDistribution,
    ConfigPythonPackaging, ConfigRunMode, ConfigTerminfoResolution, ParsedConfig,
};
use pyoxidizer_config::resolve::{parse_config, resolve};

fn build(target: &str, name: Option<&str>, path: Option<&str>) -> ConfigBuild {
    ConfigBuild {
        build_target: target.to_string(),
        application_name: name.map(|s| s.to_string()),
        build_path: path.map(|s| s.to_string()),
    }
}

fn local(target: &str, path: &str) -> ConfigPythonDistribution {
    ConfigPythonDistribution::Local {
        build_target: target.to_string(),
        local_path: path.to_string(),
        sha256: format!("sha-of-{}", path),
    }
}

fn url(target: &str, address: &str) -> ConfigPythonDistribution {
    ConfigPythonDistribution::Url {
        build_target: target.to_string(),
        url: address.to_string(),
        sha256: format!("sha-of-{}", address),
    }
}

fn python(target: &str) -> ConfigPython {
    ConfigPython {
        build_target: target.to_string(),
        dont_write_bytecode: None,
        ignore_environment: None,
        no_site: None,
        no_user_site_directory: None,
        optimize_level: None,
        stdio_encoding: None,
        unbuffered_stdio: None,
        filesystem_importer: None,
        sys_frozen: None,
        sys_meipass: None,
        sys_paths: None,
        raw_allocator: None,
        terminfo_resolution: None,
        terminfo_dirs: None,
        write_modules_directory_env: None,
    }
}

fn stdlib(target: &str, location: &str) -> ConfigPythonPackaging {
    ConfigPythonPackaging::Stdlib {
        build_target: target.to_string(),
        optimize_level: 0,
        exclude_test_modules: true,
        include_source: true,
        include_resources: false,
        install_location: location.to_string(),
    }
}

fn extensions_policy(target: &str, policy: &str) -> ConfigPythonPackaging {
    ConfigPythonPackaging::StdlibExtensionsPolicy {
        build_target: target.to_string(),
        policy: policy.to_string(),
    }
}

fn minimal() -> ParsedConfig {
    ParsedConfig {
        builds: vec![build("all", Some("myapp"), None)],
        python_distributions: vec![local("all", "/dist/cpython.tar")],
        python_configs: vec![],
        packaging_rules: vec![stdlib("all", "embedded"), extensions_policy("all", "all")],
        python_run: vec![],
        distributions: vec![],
    }
}

fn run(manifest: &ParsedConfig, target: &str) -> Result<Config, ConfigError> {
    resolve(manifest, "/proj/pyoxidizer.toml", "/proj", "/proj/build".to_string(), target)
}

#[test]
fn end_to_end_minimal_manifest_for_linux() {
    let manifest = ParsedConfig {
        builds: vec![build("all", Some("myapp"), None)],
        python_distributions: vec![local("all", "/dist/cpython.tar")],
        python_configs: vec![],
        packaging_rules: vec![stdlib("all", "embedded"), extensions_policy("all", "all")],
        python_run: vec![],
        distributions: vec![],
    };
    let config = run(&manifest, "linux").unwrap();
    assert_eq!(config.python_packaging.len(), 2);
    match &config.python_packaging[0] {
        PythonPackaging::Stdlib(rule) => {
            assert_eq!(rule.optimize_level, 0);
            assert!(rule.exclude_test_modules);
            assert!(rule.include_source);
            assert!(!rule.include_resources);
            assert!(matches!(rule.install_location, InstallLocation::Embedded));
        }
        other => panic!("unexpected first rule: {:?}", other),
    }
    match &config.python_packaging[1] {
        PythonPackaging::StdlibExtensionsPolicy(rule) => assert_eq!(rule.policy, "all"),
        other => panic!("unexpected second rule: {:?}", other),
    }
    assert_eq!(config.build_config.application_name, "myapp");
    assert_eq!(config.build_config.build_path, "/proj/build");
    assert_eq!(config.config_path, "/proj/pyoxidizer.toml");
}

#[test]
fn defaults_of_a_minimal_manifest() {
    let config = run(&minimal(), "linux").unwrap();
    assert!(config.dont_write_bytecode);
    assert!(config.ignore_environment);
    assert!(config.no_site);
    assert!(config.no_user_site_directory);
    assert_eq!(config.optimize_level, 0);
    assert_eq!(config.stdio_encoding_name, None);
    assert_eq!(config.stdio_encoding_errors, None);
    assert!(!config.unbuffered_stdio);
    assert!(!config.filesystem_importer);
    assert!(!config.sys_frozen);
    assert!(!config.sys_meipass);
    assert!(config.sys_paths.is_empty());
    assert_eq!(config.raw_allocator, RawAllocator::Jemalloc);
    assert!(matches!(config.terminfo_resolution, TerminfoResolution::Dynamic));
    assert_eq!(config.write_modules_directory_env, None);
    assert!(matches!(config.run, RunMode::Noop));
    assert!(config.distributions.is_empty());
}

#[test]
fn default_allocator_on_windows_msvc_is_system() {
    let config = run(&minimal(), "x86_64-pc-windows-msvc").unwrap();
    assert_eq!(config.raw_allocator, RawAllocator::System);
}

#[test]
fn single_build_entry_for_all_serves_every_target() {
    let mut manifest = minimal();
    manifest.builds = vec![build("all", Some("tool"), Some("$ORIGIN/out/$ORIGIN"))];
    for target in ["linux", "x86_64-apple-darwin", "all", ""] {
        let config = run(&manifest, target).unwrap();
        assert_eq!(config.build_config.application_name, "tool");
        assert_eq!(config.build_config.build_path, "/proj/out//proj");
    }
}

#[test]
fn build_entries_layer_field_by_field() {
    let mut manifest = minimal();
    manifest.builds = vec![
        build("all", Some("first"), Some("$ORIGIN/one")),
        build("linux", None, Some("/abs/two")),
        build("linux", Some("third"), None),
        build("macos", Some("never"), Some("/never")),
    ];
    let config = run(&manifest, "linux").unwrap();
    assert_eq!(config.build_config.application_name, "third");
    assert_eq!(config.build_config.build_path, "/abs/two");
    let other = run(&manifest, "freebsd").unwrap();
    assert_eq!(other.build_config.application_name, "first");
    assert_eq!(other.build_config.build_path, "/proj/one");
}

#[test]
fn missing_application_name_is_reported() {
    let mut manifest = minimal();
    manifest.builds = vec![build("all", None, Some("/x")), build("macos", Some("mac"), None)];
    let fault = run(&manifest, "linux").unwrap_err();
    assert!(matches!(fault, ConfigError::MissingApplicationName));
    assert_eq!(fault.message(), "no [[build]] application_name defined");
    manifest.builds = vec![];
    assert!(matches!(run(&manifest, "linux"), Err(ConfigError::MissingApplicationName)));
}

#[test]
fn target_filter_is_exact_and_case_sensitive() {
    let mut manifest = minimal();
    manifest.builds = vec![
        build("all", Some("base"), None),
        build("Linux", Some("upper"), None),
        build("linux ", Some("padded"), None),
        build("ALL", Some("shout"), None),
        build("lin*", Some("glob"), None),
    ];
    let config = run(&manifest, "linux").unwrap();
    assert_eq!(config.build_config.application_name, "base");
}

#[test]
fn first_matching_distribution_wins() {
    let mut manifest = minimal();
    manifest.python_distributions = vec![
        local("other", "/dist/other.tar"),
        url("x", "https://example.com/first"),
        local("x", "/dist/second.tar"),
        url("all", "https://example.com/third"),
    ];
    match run(&manifest, "x").unwrap().python_distribution {
        PythonDistribution::Url { url, sha256 } => {
            assert_eq!(url, "https://example.com/first");
            assert_eq!(sha256, "sha-of-https://example.com/first");
        }
        other => panic!("unexpected distribution: {:?}", other),
    }
    match run(&manifest, "other").unwrap().python_distribution {
        PythonDistribution::Local { local_path, sha256 } => {
            assert_eq!(local_path, "/dist/other.tar");
            assert_eq!(sha256, "sha-of-/dist/other.tar");
        }
        other => panic!("unexpected distribution: {:?}", other),
    }
    match run(&manifest, "y").unwrap().python_distribution {
        PythonDistribution::Url { url, .. } => assert_eq!(url, "https://example.com/third"),
        other => panic!("unexpected distribution: {:?}", other),
    }
}

#[test]
fn no_distribution_sections_is_reported() {
    let mut manifest = minimal();
    manifest.python_distributions = vec![];
    let fault = run(&manifest, "linux").unwrap_err();
    assert!(matches!(fault, ConfigError::NoDistributionSections));
    assert_eq!(fault.message(), "no [[python_distribution]] sections");
}

#[test]
fn no_matching_distribution_is_reported() {
    let mut manifest = minimal();
    manifest.python_distributions = vec![local("macos", "/dist/mac.tar")];
    let fault = run(&manifest, "linux").unwrap_err();
    match &fault {
        ConfigError::NoMatchingDistribution { target } => assert_eq!(target, "linux"),
        other => panic!("unexpected fault: {:?}", other),
    }
    assert_eq!(fault.message(), "no suitable Python distributions found for target linux");
}

#[test]
fn application_name_is_checked_before_distributions() {
    let mut manifest = minimal();
    manifest.builds = vec![];
    manifest.python_distributions = vec![];
    assert!(matches!(run(&manifest, "linux"), Err(ConfigError::MissingApplicationName)));
}

#[test]
fn interpreter_settings_layer_field_by_field() {
    let mut manifest = minimal();
    let mut first = python("all");
    first.dont_write_bytecode = Some(false);
    first.optimize_level = Some(1);
    first.sys_paths = Some(vec!["a".to_string(), "b".to_string()]);
    first.stdio_encoding = Some("utf-8:strict".to_string());
    first.write_modules_directory_env = Some("FIRST".to_string());
    let mut second = python("linux");
    second.optimize_level = Some(2);
    second.no_site = Some(false);
    second.raw_allocator = Some(RawAllocator::Rust);
    let mut skipped = python("macos");
    skipped.optimize_level = Some(0);
    skipped.unbuffered_stdio = Some(true);
    let mut third = python("all");
    third.dont_write_bytecode = Some(true);
    third.sys_frozen = Some(true);
    third.write_modules_directory_env = Some("THIRD".to_string());
    manifest.python_configs = vec![first, second, skipped, third];
    let config = run(&manifest, "linux").unwrap();
    assert!(config.dont_write_bytecode);
    assert_eq!(config.optimize_level, 2);
    assert!(!config.no_site);
    assert_eq!(config.raw_allocator, RawAllocator::Rust);
    assert!(config.sys_frozen);
    assert!(!config.unbuffered_stdio);
    assert_eq!(config.sys_paths, vec!["a".to_string(), "b".to_string()]);
    assert_eq!(config.stdio_encoding_name, Some("utf-8".to_string()));
    assert_eq!(config.stdio_encoding_errors, Some("strict".to_string()));
    assert_eq!(config.write_modules_directory_env, Some("THIRD".to_string()));
    assert!(config.ignore_environment);
    assert!(config.no_user_site_directory);
    assert!(!config.sys_meipass);
}

#[test]
fn optimize_levels_zero_one_two_succeed() {
    for level in [0, 1, 2] {
        let mut manifest = minimal();
        let mut entry = python("all");
        entry.optimize_level = Some(level);
        manifest.python_configs = vec![entry];
        assert_eq!(run(&manifest, "linux").unwrap().optimize_level, level);
    }
}

#[test]
fn other_optimize_levels_fail() {
    for level in [-1, 3, 10, i64::MAX, i64::MIN] {
        let mut manifest = minimal();
        let mut entry = python("all");
        entry.optimize_level = Some(level);
        manifest.python_configs = vec![entry];
        match run(&manifest, "linux") {
            Err(ConfigError::InvalidOptimizeLevel { value }) => assert_eq!(value, level),
            other => panic!("unexpected outcome: {:?}", other),
        }
    }
}

#[test]
fn invalid_optimize_level_message_names_the_value() {
    assert_eq!(
        ConfigError::InvalidOptimizeLevel { value: 3 }.message(),
        "illegal optimize_level 3; value must be 0, 1, or 2"
    );
    assert_eq!(
        ConfigError::InvalidOptimizeLevel { value: -17 }.message(),
        "illegal optimize_level -17; value must be 0, 1, or 2"
    );
    assert_eq!(
        ConfigError::InvalidOptimizeLevel { value: i64::MIN }.message(),
        "illegal optimize_level -9223372036854775808; value must be 0, 1, or 2"
    );
}

#[test]
fn invalid_optimize_level_for_another_target_is_ignored() {
    let mut manifest = minimal();
    let mut entry = python("macos");
    entry.optimize_level = Some(7);
    manifest.python_configs = vec![entry];
    assert_eq!(run(&manifest, "linux").unwrap().optimize_level, 0);
}

#[test]
fn later_valid_level_does_not_excuse_an_earlier_invalid_one() {
    let mut manifest = minimal();
    let mut bad = python("all");
    bad.optimize_level = Some(5);
    let mut good = python("all");
    good.optimize_level = Some(1);
    manifest.python_configs = vec![bad, good];
    assert!(matches!(
        run(&manifest, "linux"),
        Err(ConfigError::InvalidOptimizeLevel { value: 5 })
    ));
}

#[test]
fn stdio_encoding_splits_at_the_first_colon() {
    let mut manifest = minimal();
    let mut entry = python("all");
    entry.stdio_encoding = Some("latin-1:replace:extra".to_string());
    manifest.python_configs = vec![entry];
    let config = run(&manifest, "linux").unwrap();
    assert_eq!(config.stdio_encoding_name, Some("latin-1".to_string()));
    assert_eq!(config.stdio_encoding_errors, Some("replace".to_string()));
}

#[test]
fn stdio_encoding_parts_may_be_empty() {
    let mut manifest = minimal();
    let mut entry = python("all");
    entry.stdio_encoding = Some(":".to_string());
    manifest.python_configs = vec![entry];
    let config = run(&manifest, "linux").unwrap();
    assert_eq!(config.stdio_encoding_name, Some(String::new()));
    assert_eq!(config.stdio_encoding_errors, Some(String::new()));
}

#[test]
fn stdio_encoding_without_separator_is_a_fault() {
    let mut manifest = minimal();
    let mut entry = python("all");
    entry.stdio_encoding = Some("utf-8".to_string());
    manifest.python_configs = vec![entry];
    let fault = run(&manifest, "linux").unwrap_err();
    match &fault {
        ConfigError::InvalidStdioEncoding { value } => assert_eq!(value, "utf-8"),
        other => panic!("unexpected fault: {:?}", other),
    }
    assert_eq!(
        fault.message(),
        "illegal stdio_encoding utf-8; value must be of the form name:errors"
    );
}

#[test]
fn static_terminfo_without_dirs_fails() {
    let mut manifest = minimal();
    let mut entry = python("all");
    entry.terminfo_resolution = Some(ConfigTerminfoResolution::Static);
    manifest.python_configs = vec![entry];
    let fault = run(&manifest, "linux").unwrap_err();
    assert!(matches!(fault, ConfigError::TerminfoDirsRequired));
    assert_eq!(
        fault.message(),
        "terminfo_resolution = static requires terminfo_dirs to be set"
    );
}

#[test]
fn static_terminfo_with_dirs_carries_them() {
    let mut manifest = minimal();
    let mut entry = python("all");
    entry.terminfo_resolution = Some(ConfigTerminfoResolution::Static);
    entry.terminfo_dirs = Some("/usr/share/terminfo:/lib/terminfo".to_string());
    manifest.python_configs = vec![entry];
    match run(&manifest, "linux").unwrap().terminfo_resolution {
        TerminfoResolution::Static(dirs) => assert_eq!(dirs, "/usr/share/terminfo:/lib/terminfo"),
        other => panic!("unexpected terminfo resolution: {:?}", other),
    }
}

#[test]
fn terminfo_dirs_alone_change_nothing() {
    let mut manifest = minimal();
    let mut entry = python("all");
    entry.terminfo_dirs = Some("/usr/share/terminfo".to_string());
    let mut off = python("all");
    off.terminfo_resolution = Some(ConfigTerminfoResolution::Disabled);
    manifest.python_configs = vec![entry];
    assert!(matches!(
        run(&manifest, "linux").unwrap().terminfo_resolution,
        TerminfoResolution::Dynamic
    ));
    manifest.python_configs.push(off);
    assert!(matches!(
        run(&manifest, "linux").unwrap().terminfo_resolution,
        TerminfoResolution::Disabled
    ));
}

#[test]
fn faults_within_an_entry_come_in_field_order() {
    let mut manifest = minimal();
    let mut entry = python("all");
    entry.optimize_level = Some(9);
    entry.stdio_encoding = Some("nocolon".to_string());
    entry.terminfo_resolution = Some(ConfigTerminfoResolution::Static);
    manifest.python_configs = vec![entry.clone()];
    assert!(matches!(run(&manifest, "linux"), Err(ConfigError::InvalidOptimizeLevel { value: 9 })));
    entry.optimize_level = Some(1);
    manifest.python_configs = vec![entry.clone()];
    assert!(matches!(run(&manifest, "linux"), Err(ConfigError::InvalidStdioEncoding { .. })));
    entry.stdio_encoding = None;
    manifest.python_configs = vec![entry];
    assert!(matches!(run(&manifest, "linux"), Err(ConfigError::TerminfoDirsRequired)));
}

#[test]
fn filesystem_importer_follows_search_paths() {
    let mut manifest = minimal();
    let mut entry = python("all");
    entry.sys_paths = Some(vec!["$ORIGIN/lib".to_string()]);
    manifest.python_configs = vec![entry];
    let config = run(&manifest, "linux").unwrap();
    assert!(config.filesystem_importer);
    assert_eq!(config.sys_paths, vec!["$ORIGIN/lib".to_string()]);

    let mut explicit = python("all");
    explicit.filesystem_importer = Some(true);
    manifest.python_configs = vec![explicit];
    assert!(run(&manifest, "linux").unwrap().filesystem_importer);

    let mut off = python("all");
    off.filesystem_importer = Some(false);
    off.sys_paths = Some(vec!["x".to_string()]);
    manifest.python_configs = vec![off];
    assert!(run(&manifest, "linux").unwrap().filesystem_importer);

    let mut named = python("all");
    named.sys_paths = Some(vec!["x".to_string()]);
    let mut cleared = python("all");
    cleared.sys_paths = Some(vec![]);
    manifest.python_configs = vec![named, cleared];
    let config = run(&manifest, "linux").unwrap();
    assert!(config.sys_paths.is_empty());
    assert!(!config.filesystem_importer);
}

#[test]
fn missing_extensions_policy_for_the_target() {
    let mut manifest = minimal();
    manifest.packaging_rules = vec![stdlib("all", "embedded"), extensions_policy("macos", "all")];
    let fault = run(&manifest, "linux").unwrap_err();
    assert!(matches!(fault, ConfigError::MissingStdlibExtensionsPolicy));
    assert_eq!(
        fault.message(),
        "no `type = \"stdlib-extensions-policy\"` entry in `[[packaging_rule]]`"
    );
    assert!(run(&manifest, "macos").is_ok());
}

#[test]
fn missing_stdlib_rule_for_the_target() {
    let mut manifest = minimal();
    manifest.packaging_rules = vec![stdlib("macos", "embedded"), extensions_policy("all", "all")];
    let fault = run(&manifest, "linux").unwrap_err();
    assert!(matches!(fault, ConfigError::MissingStdlibRule));
    assert_eq!(fault.message(), "no `type = \"stdlib\"` entry in `[[packaging_rule]]`");
    assert!(run(&manifest, "macos").is_ok());
}

#[test]
fn missing_policy_is_reported_before_missing_stdlib() {
    let mut manifest = minimal();
    manifest.packaging_rules = vec![];
    assert!(matches!(run(&manifest, "linux"), Err(ConfigError::MissingStdlibExtensionsPolicy)));
}

#[test]
fn invalid_install_location_ends_resolution() {
    let mut manifest = minimal();
    manifest.packaging_rules = vec![stdlib("all", "bogus"), extensions_policy("all", "all")];
    let fault = run(&manifest, "linux").unwrap_err();
    match &fault {
        ConfigError::InvalidInstallLocation { value } => assert_eq!(value, "bogus"),
        other => panic!("unexpected fault: {:?}", other),
    }
    assert_eq!(fault.message(), "invalid install_location: bogus");
}

#[test]
fn invalid_install_location_comes_before_missing_rules() {
    let mut manifest = minimal();
    manifest.packaging_rules = vec![stdlib("all", "Embedded")];
    assert!(matches!(run(&manifest, "linux"), Err(ConfigError::InvalidInstallLocation { .. })));
}

#[test]
fn invalid_install_location_for_another_target_is_ignored() {
    let mut manifest = minimal();
    manifest.packaging_rules.push(stdlib("macos", "bogus"));
    assert_eq!(run(&manifest, "linux").unwrap().python_packaging.len(), 2);
    assert!(matches!(run(&manifest, "macos"), Err(ConfigError::InvalidInstallLocation { .. })));
}

#[test]
fn packaging_rules_keep_their_order_and_fields() {
    let mut env = std::collections::HashMap::new();
    env.insert("CC".to_string(), "clang".to_string());
    let mut manifest = minimal();
    manifest.packaging_rules = vec![
        ConfigPythonPackaging::WriteLicenseFiles {
            build_target: "all".to_string(),
            path: "licenses".to_string(),
        },
        extensions_policy("linux", "minimal"),
        ConfigPythonPackaging::SetupPyInstall {
            build_target: "linux".to_string(),
            package_path: "/src/pkg".to_string(),
            extra_env: env.clone(),
            extra_global_arguments: vec!["--quiet".to_string()],
            optimize_level: 2,
            include_source: false,
            install_location: "app-relative:lib".to_string(),
        },
        ConfigPythonPackaging::Virtualenv {
            build_target: "macos".to_string(),
            path: "/venv".to_string(),
            optimize_level: 0,
            excludes: vec![],
            include_source: true,
            install_location: "embedded".to_string(),
        },
        stdlib("all", "app-relative:"),
        ConfigPythonPackaging::PipInstallSimple {
            build_target: "all".to_string(),
            package: "requests".to_string(),
            optimize_level: 1,
            excludes: vec!["tests".to_string()],
            include_source: true,
            install_location: "embedded".to_string(),
            extra_args: Some(vec!["--no-deps".to_string()]),
        },
        ConfigPythonPackaging::FilterInclude {
            build_target: "all".to_string(),
            files: vec!["keep.txt".to_string()],
            glob_files: vec!["*.keep".to_string()],
        },
    ];
    let config = run(&manifest, "linux").unwrap();
    assert_eq!(config.python_packaging.len(), 6);
    match &config.python_packaging[0] {
        PythonPackaging::WriteLicenseFiles(rule) => assert_eq!(rule.path, "licenses"),
        other => panic!("unexpected rule: {:?}", other),
    }
    match &config.python_packaging[1] {
        PythonPackaging::StdlibExtensionsPolicy(rule) => assert_eq!(rule.policy, "minimal"),
        other => panic!("unexpected rule: {:?}", other),
    }
    match &config.python_packaging[2] {
        PythonPackaging::SetupPyInstall(rule) => {
            assert_eq!(rule.path, "/src/pkg");
            assert_eq!(rule.extra_env, env);
            assert_eq!(rule.extra_global_arguments, vec!["--quiet".to_string()]);
            assert_eq!(rule.optimize_level, 2);
            assert!(!rule.include_source);
            match &rule.install_location {
                InstallLocation::AppRelative { path } => assert_eq!(path, "lib"),
                other => panic!("unexpected location: {:?}", other),
            }
        }
        other => panic!("unexpected rule: {:?}", other),
    }
    match &config.python_packaging[3] {
        PythonPackaging::Stdlib(rule) => match &rule.install_location {
            InstallLocation::AppRelative { path } => assert_eq!(path, ""),
            other => panic!("unexpected location: {:?}", other),
        },
        other => panic!("unexpected rule: {:?}", other),
    }
    match &config.python_packaging[4] {
        PythonPackaging::PipInstallSimple(rule) => {
            assert_eq!(rule.package, "requests");
            assert_eq!(rule.optimize_level, 1);
            assert_eq!(rule.excludes, vec!["tests".to_string()]);
            assert_eq!(rule.extra_args, Some(vec!["--no-deps".to_string()]));
        }
        other => panic!("unexpected rule: {:?}", other),
    }
    match &config.python_packaging[5] {
        PythonPackaging::FilterInclude(rule) => {
            assert_eq!(rule.files, vec!["keep.txt".to_string()]);
            assert_eq!(rule.glob_files, vec!["*.keep".to_string()]);
        }
        other => panic!("unexpected rule: {:?}", other),
    }
}

#[test]
fn every_kind_of_rule_is_carried_over() {
    let all = "all".to_string();
    let mut manifest = minimal();
    manifest.packaging_rules.extend(vec![
        ConfigPythonPackaging::StdlibExtensionsExplicitIncludes {
            build_target: all.clone(),
            includes: vec!["_ssl".to_string()],
        },
        ConfigPythonPackaging::StdlibExtensionsExplicitExcludes {
            build_target: all.clone(),
            excludes: vec!["_tkinter".to_string()],
        },
        ConfigPythonPackaging::StdlibExtensionVariant {
            build_target: all.clone(),
            extension: "readline".to_string(),
            variant: "libedit".to_string(),
        },
        ConfigPythonPackaging::PackageRoot {
            build_target: all.clone(),
            path: "src".to_string(),
            packages: vec!["app".to_string()],
            optimize_level: 0,
            excludes: vec![],
            include_source: true,
            install_location: "embedded".to_string(),
        },
        ConfigPythonPackaging::PipRequirementsFile {
            build_target: all.clone(),
            requirements_path: "requirements.txt".to_string(),
            optimize_level: 0,
            include_source: false,
            install_location: "app-relative:site".to_string(),
        },
    ]);
    let rules = run(&manifest, "linux").unwrap().python_packaging;
    assert_eq!(rules.len(), 7);
    match &rules[2] {
        PythonPackaging::StdlibExtensionsExplicitIncludes(rule) => {
            assert_eq!(rule.includes, vec!["_ssl".to_string()])
        }
        other => panic!("unexpected rule: {:?}", other),
    }
    match &rules[3] {
        PythonPackaging::StdlibExtensionsExplicitExcludes(rule) => {
            assert_eq!(rule.excludes, vec!["_tkinter".to_string()])
        }
        other => panic!("unexpected rule: {:?}", other),
    }
    match &rules[4] {
        PythonPackaging::StdlibExtensionVariant(rule) => {
            assert_eq!(rule.extension, "readline");
            assert_eq!(rule.variant, "libedit");
        }
        other => panic!("unexpected rule: {:?}", other),
    }
    match &rules[5] {
        PythonPackaging::PackageRoot(rule) => {
            assert_eq!(rule.path, "src");
            assert_eq!(rule.packages, vec!["app".to_string()]);
        }
        other => panic!("unexpected rule: {:?}", other),
    }
    match &rules[6] {
        PythonPackaging::PipRequirementsFile(rule) => {
            assert_eq!(rule.requirements_path, "requirements.txt");
            assert!(!rule.include_source);
            match &rule.install_location {
                InstallLocation::AppRelative { path } => assert_eq!(path, "site"),
                other => panic!("unexpected location: {:?}", other),
            }
        }
        other => panic!("unexpected rule: {:?}", other),
    }
}

#[test]
fn last_matching_run_mode_wins() {
    let mut manifest = minimal();
    manifest.python_run = vec![
        ConfigRunMode::Repl { build_target: "all".to_string() },
        ConfigRunMode::Module { build_target: "linux".to_string(), module: "app.main".to_string() },
        ConfigRunMode::Eval { build_target: "macos".to_string(), code: "print(1)".to_string() },
    ];
    match run(&manifest, "linux").unwrap().run {
        RunMode::Module { module } => assert_eq!(module, "app.main"),
        other => panic!("unexpected run mode: {:?}", other),
    }
    match run(&manifest, "macos").unwrap().run {
        RunMode::Eval { code } => assert_eq!(code, "print(1)"),
        other => panic!("unexpected run mode: {:?}", other),
    }
    assert!(matches!(run(&manifest, "freebsd").unwrap().run, RunMode::Repl));
    manifest.python_run.push(ConfigRunMode::Noop { build_target: "linux".to_string() });
    assert!(matches!(run(&manifest, "linux").unwrap().run, RunMode::Noop));
}

#[test]
fn distribution_rules_are_filtered_in_order() {
    let mut manifest = minimal();
    manifest.distributions = vec![
        ConfigDistribution::Tarball {
            build_target: "all".to_string(),
            path_prefix: Some("app-1.0".to_string()),
        },
        ConfigDistribution::WixInstaller {
            build_target: "x86_64-pc-windows-msvc".to_string(),
            msi_upgrade_code_x86: Some("x86".to_string()),
            msi_upgrade_code_amd64: None,
            bundle_upgrade_code: Some("bundle".to_string()),
        },
        ConfigDistribution::Tarball { build_target: "linux".to_string(), path_prefix: None },
    ];
    let linux = run(&manifest, "linux").unwrap().distributions;
    assert_eq!(linux.len(), 2);
    match &linux[0] {
        Distribution::Tarball(rule) => assert_eq!(rule.path_prefix, Some("app-1.0".to_string())),
        other => panic!("unexpected rule: {:?}", other),
    }
    match &linux[1] {
        Distribution::Tarball(rule) => assert_eq!(rule.path_prefix, None),
        other => panic!("unexpected rule: {:?}", other),
    }
    let windows = run(&manifest, "x86_64-pc-windows-msvc").unwrap().distributions;
    assert_eq!(windows.len(), 2);
    match &windows[1] {
        Distribution::WixInstaller(rule) => {
            assert_eq!(rule.msi_upgrade_code_x86, Some("x86".to_string()));
            assert_eq!(rule.msi_upgrade_code_amd64, None);
            assert_eq!(rule.bundle_upgrade_code, Some("bundle".to_string()));
        }
        other => panic!("unexpected rule: {:?}", other),
    }
}

#[test]
fn parse_config_builds_under_the_origin_by_default() {
    let config = parse_config(&minimal(), "/proj/pyoxidizer.toml", "/proj", "linux").unwrap();
    let expected = std::path::Path::new("/proj").join("build");
    assert_eq!(config.build_config.build_path, expected.to_string_lossy());
    assert_eq!(config.build_config.application_name, "myapp");
}

#[test]
fn default_build_path_lies_under_the_origin() {
    for origin in ["/proj", "/", "/a/b/", "relative/dir", ""] {
        let config = parse_config(&minimal(), "pyoxidizer.toml", origin, "linux").unwrap();
        let expected = std::path::Path::new(origin).join("build");
        assert_eq!(config.build_config.build_path, expected.to_string_lossy());
        assert!(config.build_config.build_path.starts_with(origin));
        assert!(config.build_config.build_path.ends_with("build"));
    }
}

#[test]
fn parse_config_keeps_a_stated_build_path() {
    let mut manifest = minimal();
    manifest.builds.push(build("linux", None, Some("$ORIGIN/../out")));
    let config = parse_config(&manifest, "/proj/pyoxidizer.toml", "/proj", "linux").unwrap();
    assert_eq!(config.build_config.build_path, "/proj/../out");
}

#[test]
fn parse_config_reports_faults_as_resolve_does() {
    let mut manifest = minimal();
    manifest.python_distributions = vec![];
    assert!(matches!(
        parse_config(&manifest, "/proj/pyoxidizer.toml", "/proj", "linux"),
        Err(ConfigError::NoDistributionSections)
    ));
}
