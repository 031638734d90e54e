//! The resolver: from a manifest and a build target to one configuration.
//!
//! Each category of entries is filtered by target on its own. Build entries,
//! interpreter settings and run modes are layered in declaration order, a
//! later applicable entry overwriting only what it states. The distribution
//! is the first applicable one. Packaging rules and distribution rules keep
//! their order. The first fault ends the resolution.

use crate::config::{
    BuildConfig, BuildConfigView, Config, ConfigView, Distribution, DistributionTarball,
    DistributionView, DistributionWixInstaller, PythonDistribution, PythonDistributionView,
    PythonPackaging, RawAllocator, RunMode, RunModeView, TerminfoResolution,
    TerminfoResolutionView, views,
};
use crate::error::{ConfigError, ConfigErrorView};
use crate::manifest::{
    ConfigBuild, ConfigDistribution, ConfigPythonDistribution, ConfigRunMode, ParsedConfig,
};
use crate::rules::{resolve_packaging, resolved_packaging};
use crate::settings::{python_upto, resolve_python};
use crate::target::{target_applies, target_matches};
use crate::text::{clone_optional, has_prefix, has_suffix, replace, replace_all, str_eq};
use vstd::prelude::*;
use vstd::string::*;

verus! {

/// The views of an outcome: of the value on success, of the fault otherwise.
pub open spec fn outcome<T: View, E: View>(result: Result<T, E>) -> Result<T::V, E::V> {
    match result {
        Ok(value) => Ok(value@),
        Err(fault) => Err(fault@),
    }
}

/// A build path as it is stored: each `$ORIGIN` in it stands for the
/// directory that holds the manifest.
pub open spec fn expand_origin(path: Seq<char>, origin: Seq<char>) -> Seq<char> {
    replace_all(path, "$ORIGIN"@, origin)
}

/// Application name and build path as the build entries read so far leave them.
pub struct BuildState {
    pub application_name: Option<Seq<char>>,
    pub build_path: Seq<char>,
}

/// The effect of one build entry: none unless it applies to the target;
/// else each field that it states replaces the running value.
pub open spec fn apply_build(
    state: BuildState,
    entry: ConfigBuild,
    origin: Seq<char>,
    target: Seq<char>,
) -> BuildState {
    if !target_applies(entry.build_target@, target) {
        state
    } else {
        BuildState {
            application_name: match entry.application_name {
                Some(name) => Some(name@),
                None => state.application_name,
            },
            build_path: match entry.build_path {
                Some(path) => expand_origin(path@, origin),
                None => state.build_path,
            },
        }
    }
}

/// The state after the first `n` build entries, starting from no name and
/// the default build path.
pub open spec fn builds_upto(
    builds: Seq<ConfigBuild>,
    n: nat,
    default_path: Seq<char>,
    origin: Seq<char>,
    target: Seq<char>,
) -> BuildState
    decreases n,
{
    if n == 0 {
        BuildState { application_name: None, build_path: default_path }
    } else {
        apply_build(
            builds_upto(builds, (n - 1) as nat, default_path, origin, target),
            builds[n - 1],
            origin,
            target,
        )
    }
}

/// The build settings of a manifest: those left by all its build entries,
/// provided that one of them named the application.
pub open spec fn resolved_build(
    builds: Seq<ConfigBuild>,
    default_path: Seq<char>,
    origin: Seq<char>,
    target: Seq<char>,
) -> Result<BuildConfigView, ConfigErrorView> {
    let state = builds_upto(builds, builds.len(), default_path, origin, target);
    match state.application_name {
        Some(name) => Ok(BuildConfigView { application_name: name, build_path: state.build_path }),
        None => Err(ConfigErrorView::MissingApplicationName),
    }
}

/// Layers the build entries that apply to `target` over the default build path.
pub fn resolve_build(
    builds: &Vec<ConfigBuild>,
    default_path: String,
    origin: &str,
    target: &str,
) -> (resolved: Result<BuildConfig, ConfigError>)
    ensures
        outcome(resolved) == resolved_build(builds@, default_path@, origin@, target@),
{
    let ghost start = default_path@;
    let mut application_name: Option<String> = None;
    let mut build_path = default_path;
    let mut i: usize = 0;
    while i < builds.len()
        invariant
            i <= builds.len(),
            builds_upto(builds@, i as nat, start, origin@, target@) == (BuildState {
                application_name: application_name.deep_view(),
                build_path: build_path@,
            }),
        decreases builds.len() - i,
    {
        let entry = &builds[i];
        if target_matches(entry.build_target.as_str(), target) {
            match &entry.application_name {
                Some(name) => {
                    application_name = Some(name.clone());
                },
                None => {},
            }
            match &entry.build_path {
                Some(path) => {
                    build_path = replace(path.as_str(), "$ORIGIN", origin);
                },
                None => {},
            }
        }
        i += 1;
    }
    match application_name {
        Some(name) => Ok(BuildConfig { application_name: name, build_path }),
        None => Err(ConfigError::MissingApplicationName),
    }
}

/// The distribution that an entry declares.
pub open spec fn distribution_source(entry: ConfigPythonDistribution) -> PythonDistributionView {
    match entry {
        ConfigPythonDistribution::Local { local_path, sha256, .. } => {
            PythonDistributionView::Local { local_path: local_path@, sha256: sha256@ }
        },
        ConfigPythonDistribution::Url { url, sha256, .. } => {
            PythonDistributionView::Url { url: url@, sha256: sha256@ }
        },
    }
}

/// The position of the first entry at or after `from` that applies to
/// `target`, or the number of entries when none does.
pub open spec fn first_applicable(
    entries: Seq<ConfigPythonDistribution>,
    target: Seq<char>,
    from: int,
) -> int
    decreases entries.len() - from,
{
    if from < 0 || from >= entries.len() {
        entries.len() as int
    } else if target_applies(entries[from].target(), target) {
        from
    } else {
        first_applicable(entries, target, from + 1)
    }
}

/// The distribution of a manifest: that of the first entry that applies.
pub open spec fn resolved_distribution(
    entries: Seq<ConfigPythonDistribution>,
    target: Seq<char>,
) -> Result<PythonDistributionView, ConfigErrorView> {
    let first = first_applicable(entries, target, 0);
    if entries.len() == 0 {
        Err(ConfigErrorView::NoDistributionSections)
    } else if first < entries.len() {
        Ok(distribution_source(entries[first]))
    } else {
        Err(ConfigErrorView::NoMatchingDistribution { target })
    }
}

/// Picks the first distribution entry that applies to `target`.
pub fn resolve_distribution(entries: &Vec<ConfigPythonDistribution>, target: &str) -> (resolved:
    Result<PythonDistribution, ConfigError>)
    ensures
        outcome(resolved) == resolved_distribution(entries@, target@),
{
    if entries.len() == 0 {
        return Err(ConfigError::NoDistributionSections);
    }
    let mut i: usize = 0;
    while i < entries.len()
        invariant
            i <= entries.len(),
            first_applicable(entries@, target@, i as int) == first_applicable(
                entries@,
                target@,
                0,
            ),
        decreases entries.len() - i,
    {
        let entry = &entries[i];
        if target_matches(entry.build_target().as_str(), target) {
            return Ok(
                match entry {
                    ConfigPythonDistribution::Local { local_path, sha256, .. } => {
                        PythonDistribution::Local {
                            local_path: local_path.clone(),
                            sha256: sha256.clone(),
                        }
                    },
                    ConfigPythonDistribution::Url { url, sha256, .. } => PythonDistribution::Url {
                        url: url.clone(),
                        sha256: sha256.clone(),
                    },
                },
            );
        }
        i += 1;
    }
    Err(ConfigError::NoMatchingDistribution { target: target.to_owned() })
}

/// The run mode that an entry declares.
pub open spec fn run_mode_of(entry: ConfigRunMode) -> RunModeView {
    match entry {
        ConfigRunMode::Noop { .. } => RunModeView::Noop,
        ConfigRunMode::Repl { .. } => RunModeView::Repl,
        ConfigRunMode::Module { module, .. } => RunModeView::Module { module: module@ },
        ConfigRunMode::Eval { code, .. } => RunModeView::Eval { code: code@ },
    }
}

/// The run mode after the first `n` entries: that of the last of them that
/// applies to `target`, and doing nothing when none applies.
pub open spec fn run_upto(entries: Seq<ConfigRunMode>, n: nat, target: Seq<char>) -> RunModeView
    decreases n,
{
    if n == 0 {
        RunModeView::Noop
    } else if target_applies(entries[n - 1].target(), target) {
        run_mode_of(entries[n - 1])
    } else {
        run_upto(entries, (n - 1) as nat, target)
    }
}

/// Picks the run mode of the last entry that applies to `target`.
pub fn resolve_run(entries: &Vec<ConfigRunMode>, target: &str) -> (run: RunMode)
    ensures
        run@ == run_upto(entries@, entries@.len(), target@),
{
    let mut run = RunMode::Noop;
    let mut i: usize = 0;
    while i < entries.len()
        invariant
            i <= entries.len(),
            run@ == run_upto(entries@, i as nat, target@),
        decreases entries.len() - i,
    {
        let entry = &entries[i];
        if target_matches(entry.build_target().as_str(), target) {
            run = match entry {
                ConfigRunMode::Noop { .. } => RunMode::Noop,
                ConfigRunMode::Repl { .. } => RunMode::Repl,
                ConfigRunMode::Module { module, .. } => RunMode::Module { module: module.clone() },
                ConfigRunMode::Eval { code, .. } => RunMode::Eval { code: code.clone() },
            };
        }
        i += 1;
    }
    run
}

/// The distribution rule that an entry declares.
pub open spec fn distribution_of(entry: ConfigDistribution) -> DistributionView {
    match entry {
        ConfigDistribution::Tarball { path_prefix, .. } => DistributionView::Tarball {
            path_prefix: path_prefix.deep_view(),
        },
        ConfigDistribution::WixInstaller {
            msi_upgrade_code_x86,
            msi_upgrade_code_amd64,
            bundle_upgrade_code,
            ..
        } => DistributionView::WixInstaller {
            msi_upgrade_code_x86: msi_upgrade_code_x86.deep_view(),
            msi_upgrade_code_amd64: msi_upgrade_code_amd64.deep_view(),
            bundle_upgrade_code: bundle_upgrade_code.deep_view(),
        },
    }
}

/// The distribution rules among the first `n` entries that apply to
/// `target`, in the order of the manifest.
pub open spec fn distributions_upto(
    entries: Seq<ConfigDistribution>,
    n: nat,
    target: Seq<char>,
) -> Seq<DistributionView>
    decreases n,
{
    if n == 0 {
        Seq::empty()
    } else if target_applies(entries[n - 1].target(), target) {
        distributions_upto(entries, (n - 1) as nat, target).push(distribution_of(entries[n - 1]))
    } else {
        distributions_upto(entries, (n - 1) as nat, target)
    }
}

/// Converts one distribution entry, whatever its target.
pub fn convert_distribution(entry: &ConfigDistribution) -> (converted: Distribution)
    ensures
        converted@ == distribution_of(*entry),
{
    match entry {
        ConfigDistribution::Tarball { path_prefix, .. } => Distribution::Tarball(
            DistributionTarball { path_prefix: clone_optional(path_prefix) },
        ),
        ConfigDistribution::WixInstaller {
            msi_upgrade_code_x86,
            msi_upgrade_code_amd64,
            bundle_upgrade_code,
            ..
        } => Distribution::WixInstaller(
            DistributionWixInstaller {
                msi_upgrade_code_x86: clone_optional(msi_upgrade_code_x86),
                msi_upgrade_code_amd64: clone_optional(msi_upgrade_code_amd64),
                bundle_upgrade_code: clone_optional(bundle_upgrade_code),
            },
        ),
    }
}

/// Converts the distribution entries that apply to `target`.
pub fn resolve_distributions(entries: &Vec<ConfigDistribution>, target: &str) -> (list: Vec<
    Distribution,
>)
    ensures
        views(list@) == distributions_upto(entries@, entries@.len(), target@),
{
    let mut list: Vec<Distribution> = Vec::new();
    let mut i: usize = 0;
    assert(views(list@) =~= Seq::<DistributionView>::empty());
    while i < entries.len()
        invariant
            i <= entries.len(),
            views(list@) == distributions_upto(entries@, i as nat, target@),
        decreases entries.len() - i,
    {
        let entry = &entries[i];
        let ghost before = views(list@);
        if target_matches(entry.build_target().as_str(), target) {
            let converted = convert_distribution(entry);
            list.push(converted);
            assert(views(list@) =~= before.push(converted@));
        }
        i += 1;
    }
    list
}

/// The raw allocator of a target for which the manifest names none.
pub open spec fn default_allocator(target: Seq<char>) -> RawAllocator {
    if target == "x86_64-pc-windows-msvc"@ {
        RawAllocator::System
    } else {
        RawAllocator::Jemalloc
    }
}

/// The configuration before any interpreter setting, packaging rule, run
/// mode or distribution rule of the manifest has been read.
pub open spec fn base_config(
    config_path: Seq<char>,
    build: BuildConfigView,
    distribution: PythonDistributionView,
    target: Seq<char>,
) -> ConfigView {
    ConfigView {
        config_path,
        build_config: build,
        dont_write_bytecode: true,
        ignore_environment: true,
        no_site: true,
        no_user_site_directory: true,
        optimize_level: 0,
        python_distribution: distribution,
        stdio_encoding_name: None,
        stdio_encoding_errors: None,
        unbuffered_stdio: false,
        python_packaging: Seq::empty(),
        run: RunModeView::Noop,
        filesystem_importer: false,
        sys_frozen: false,
        sys_meipass: false,
        sys_paths: Seq::empty(),
        raw_allocator: default_allocator(target),
        terminfo_resolution: TerminfoResolutionView::Dynamic,
        write_modules_directory_env: None,
        distributions: Seq::empty(),
    }
}

/// Builds the configuration that holds the defaults.
pub fn default_config(
    config_path: &str,
    build: BuildConfig,
    distribution: PythonDistribution,
    target: &str,
) -> (config: Config)
    ensures
        config@ == base_config(config_path@, build@, distribution@, target@),
{
    let raw_allocator = if str_eq(target, "x86_64-pc-windows-msvc") {
        RawAllocator::System
    } else {
        RawAllocator::Jemalloc
    };
    let config = Config {
        config_path: config_path.to_owned(),
        build_config: build,
        dont_write_bytecode: true,
        ignore_environment: true,
        no_site: true,
        no_user_site_directory: true,
        optimize_level: 0,
        python_distribution: distribution,
        stdio_encoding_name: None,
        stdio_encoding_errors: None,
        unbuffered_stdio: false,
        python_packaging: Vec::new(),
        run: RunMode::Noop,
        filesystem_importer: false,
        sys_frozen: false,
        sys_meipass: false,
        sys_paths: Vec::new(),
        raw_allocator,
        terminfo_resolution: TerminfoResolution::Dynamic,
        write_modules_directory_env: None,
        distributions: Vec::new(),
    };
    assert(config@.python_packaging =~= Seq::empty());
    assert(config@.distributions =~= Seq::empty());
    assert(config@.sys_paths =~= Seq::empty());
    config
}

/// The configuration made of resolved settings and the three resolved
/// lists. Importing from the filesystem is on when the settings say so, and
/// also whenever they name a search path.
pub open spec fn assembled(
    settings: ConfigView,
    rules: Seq<crate::config::PythonPackagingView>,
    run: RunModeView,
    distributions: Seq<DistributionView>,
) -> ConfigView {
    ConfigView {
        python_packaging: rules,
        run,
        filesystem_importer: settings.filesystem_importer || settings.sys_paths.len() > 0,
        distributions,
        ..settings
    }
}

/// Puts the resolved lists and the run mode into the resolved settings.
pub fn assemble(
    settings: Config,
    rules: Vec<PythonPackaging>,
    run: RunMode,
    distributions: Vec<Distribution>,
) -> (config: Config)
    ensures
        config@ == assembled(settings@, views(rules@), run@, views(distributions@)),
{
    let filesystem_importer = settings.filesystem_importer || settings.sys_paths.len() > 0;
    Config {
        config_path: settings.config_path,
        build_config: settings.build_config,
        dont_write_bytecode: settings.dont_write_bytecode,
        ignore_environment: settings.ignore_environment,
        no_site: settings.no_site,
        no_user_site_directory: settings.no_user_site_directory,
        optimize_level: settings.optimize_level,
        python_distribution: settings.python_distribution,
        stdio_encoding_name: settings.stdio_encoding_name,
        stdio_encoding_errors: settings.stdio_encoding_errors,
        unbuffered_stdio: settings.unbuffered_stdio,
        python_packaging: rules,
        run,
        filesystem_importer,
        sys_frozen: settings.sys_frozen,
        sys_meipass: settings.sys_meipass,
        sys_paths: settings.sys_paths,
        raw_allocator: settings.raw_allocator,
        terminfo_resolution: settings.terminfo_resolution,
        write_modules_directory_env: settings.write_modules_directory_env,
        distributions,
    }
}

/// What a manifest means for a target: the build settings, then the
/// distribution, then the interpreter settings, then the packaging rules,
/// each of which may end the resolution with its fault; then the run mode
/// and the distribution rules, which cannot.
pub open spec fn resolved(
    manifest: ParsedConfig,
    config_path: Seq<char>,
    origin: Seq<char>,
    default_build_path: Seq<char>,
    target: Seq<char>,
) -> Result<ConfigView, ConfigErrorView> {
    match resolved_build(manifest.builds@, default_build_path, origin, target) {
        Err(fault) => Err(fault),
        Ok(build) => match resolved_distribution(manifest.python_distributions@, target) {
            Err(fault) => Err(fault),
            Ok(distribution) => match python_upto(
                manifest.python_configs@,
                manifest.python_configs@.len(),
                target,
                base_config(config_path, build, distribution, target),
            ) {
                Err(fault) => Err(fault),
                Ok(settings) => match resolved_packaging(manifest.packaging_rules@, target) {
                    Err(fault) => Err(fault),
                    Ok(rules) => Ok(
                        assembled(
                            settings,
                            rules,
                            run_upto(manifest.python_run@, manifest.python_run@.len(), target),
                            distributions_upto(
                                manifest.distributions@,
                                manifest.distributions@.len(),
                                target,
                            ),
                        ),
                    ),
                },
            },
        },
    }
}

/// Resolves a manifest against `target`. `origin` is the directory that
/// holds the manifest, `config_path` the manifest's own path, and
/// `default_build_path` the build directory when no entry names one.
pub fn resolve(
    manifest: &ParsedConfig,
    config_path: &str,
    origin: &str,
    default_build_path: String,
    target: &str,
) -> (resolution: Result<Config, ConfigError>)
    ensures
        outcome(resolution) == resolved(
            *manifest,
            config_path@,
            origin@,
            default_build_path@,
            target@,
        ),
{
    let build = match resolve_build(&manifest.builds, default_build_path, origin, target) {
        Ok(build) => build,
        Err(fault) => {
            return Err(fault);
        },
    };
    let distribution = match resolve_distribution(&manifest.python_distributions, target) {
        Ok(distribution) => distribution,
        Err(fault) => {
            return Err(fault);
        },
    };
    let base = default_config(config_path, build, distribution, target);
    let settings = match resolve_python(base, &manifest.python_configs, target) {
        Ok(settings) => settings,
        Err(fault) => {
            return Err(fault);
        },
    };
    let rules = match resolve_packaging(&manifest.packaging_rules, target) {
        Ok(rules) => rules,
        Err(fault) => {
            return Err(fault);
        },
    };
    let run = resolve_run(&manifest.python_run, target);
    let distributions = resolve_distributions(&manifest.distributions, target);
    Ok(assemble(settings, rules, run, distributions))
}

/// A name that every platform reads as one step down from a directory: it
/// holds no path separator and no colon, and is neither `.` nor `..`.
pub open spec fn plain_component(name: Seq<char>) -> bool {
    &&& forall|i: int|
        0 <= i < name.len() ==> name[i] != '/' && name[i] != '\\' && name[i] != ':'
    &&& name != "."@
    &&& name != ".."@
}

/// What is known of the build directory that is used when no build entry
/// names one: it is the directory `build`, and it lies under `origin`. How
/// the two are joined is the platform's business. Of an `origin` that
/// begins with the verbatim prefix `\\?\`, which one platform writes anew
/// when it joins, only the first is known.
pub open spec fn default_build_path_of(origin: Seq<char>, path: Seq<char>) -> bool {
    &&& has_suffix(path, "build"@)
    &&& !has_prefix(origin, "\\\\?\\"@) ==> has_prefix(path, origin)
}

/// `std::path::Path::join`, on paths held as text: `child` adjoined to
/// `base` as the platform joins paths. A plain component extends the path,
/// so the result ends with it; and the result begins with `base`, unless
/// `base` has the verbatim prefix, under which the path is normalized.
#[verifier::external_body]
fn join_path(base: &str, child: &str) -> (joined: String)
    requires
        plain_component(child@),
    ensures
        has_suffix(joined@, child@),
        !has_prefix(base@, "\\\\?\\"@) ==> has_prefix(joined@, base@),
{
    std::path::Path::new(base).join(child).to_string_lossy().into_owned()
}

/// Resolves a manifest against `target`, with the directory `build` under
/// `origin` as the build directory when no entry names one. Everything in
/// the outcome, and whether there is a configuration at all, is as
/// `resolved` says for that default.
pub fn parse_config(manifest: &ParsedConfig, config_path: &str, origin: &str, target: &str) -> (
    resolution: Result<Config, ConfigError>)
    ensures
        exists|default_build_path: Seq<char>|
            default_build_path_of(origin@, default_build_path) && outcome(resolution)
                == #[trigger] resolved(
                *manifest,
                config_path@,
                origin@,
                default_build_path,
                target@,
            ),
{
    proof {
        reveal_strlit("build");
        reveal_strlit(".");
        reveal_strlit("..");
    }
    let default_build_path = join_path(origin, "build");
    resolve(manifest, config_path, origin, default_build_path, target)
}

} // verus!
