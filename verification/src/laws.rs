//! What holds of every resolution: which entry decides each part of a
//! configuration, and when there is no configuration at all.

use crate::config::{
    BuildConfigView, ConfigView, RawAllocator, RunModeView, TerminfoResolutionView,
};
use crate::error::ConfigErrorView;
use crate::manifest::{
    ConfigBuild, ConfigDistribution, ConfigPython, ConfigPythonDistribution,
    ConfigPythonPackaging, ConfigRunMode, ConfigTerminfoResolution, ParsedConfig,
};
use crate::resolve::{
    apply_build, assembled, base_config, builds_upto, distribution_of, distribution_source,
    distributions_upto, expand_origin, first_applicable, resolved, resolved_build,
    resolved_distribution, run_mode_of, run_upto,
};
use crate::rules::{
    applies_as_extensions_policy, applies_as_stdlib, has_extensions_policy, resolved_packaging,
    rule_view, rules_upto,
};
use crate::settings::{
    apply_python, lemma_fault_stays, overlay, python_upto, setting_fault, stated_encoding,
};
use crate::target::target_applies;
use vstd::prelude::*;

verus! {

/// The settings that `[[embedded_python_config]]` entries can state.
pub enum Setting {
    DontWriteBytecode,
    IgnoreEnvironment,
    NoSite,
    NoUserSiteDirectory,
    OptimizeLevel,
    StdioEncodingName,
    StdioEncodingErrors,
    UnbufferedStdio,
    FilesystemImporter,
    SysFrozen,
    SysMeipass,
    SysPaths,
    RawAllocator,
    TerminfoResolution,
    WriteModulesDirectoryEnv,
}

/// The value of a setting, whatever its type.
pub enum SettingValue {
    Flag(bool),
    Level(i64),
    Text(Option<Seq<char>>),
    Paths(Seq<Seq<char>>),
    Allocator(RawAllocator),
    Terminfo(TerminfoResolutionView),
}

/// The value that a configuration gives to a setting.
pub open spec fn value_of(config: ConfigView, setting: Setting) -> SettingValue {
    match setting {
        Setting::DontWriteBytecode => SettingValue::Flag(config.dont_write_bytecode),
        Setting::IgnoreEnvironment => SettingValue::Flag(config.ignore_environment),
        Setting::NoSite => SettingValue::Flag(config.no_site),
        Setting::NoUserSiteDirectory => SettingValue::Flag(config.no_user_site_directory),
        Setting::OptimizeLevel => SettingValue::Level(config.optimize_level),
        Setting::StdioEncodingName => SettingValue::Text(config.stdio_encoding_name),
        Setting::StdioEncodingErrors => SettingValue::Text(config.stdio_encoding_errors),
        Setting::UnbufferedStdio => SettingValue::Flag(config.unbuffered_stdio),
        Setting::FilesystemImporter => SettingValue::Flag(config.filesystem_importer),
        Setting::SysFrozen => SettingValue::Flag(config.sys_frozen),
        Setting::SysMeipass => SettingValue::Flag(config.sys_meipass),
        Setting::SysPaths => SettingValue::Paths(config.sys_paths),
        Setting::RawAllocator => SettingValue::Allocator(config.raw_allocator),
        Setting::TerminfoResolution => SettingValue::Terminfo(config.terminfo_resolution),
        Setting::WriteModulesDirectoryEnv => SettingValue::Text(
            config.write_modules_directory_env,
        ),
    }
}

/// The value that a usable entry states for a setting, if it states one.
pub open spec fn stated_by(entry: ConfigPython, setting: Setting) -> Option<SettingValue> {
    match setting {
        Setting::DontWriteBytecode => match entry.dont_write_bytecode {
            Some(flag) => Some(SettingValue::Flag(flag)),
            None => None,
        },
        Setting::IgnoreEnvironment => match entry.ignore_environment {
            Some(flag) => Some(SettingValue::Flag(flag)),
            None => None,
        },
        Setting::NoSite => match entry.no_site {
            Some(flag) => Some(SettingValue::Flag(flag)),
            None => None,
        },
        Setting::NoUserSiteDirectory => match entry.no_user_site_directory {
            Some(flag) => Some(SettingValue::Flag(flag)),
            None => None,
        },
        Setting::OptimizeLevel => match entry.optimize_level {
            Some(level) => Some(SettingValue::Level(level)),
            None => None,
        },
        Setting::StdioEncodingName => match stated_encoding(entry) {
            Some(parts) => Some(SettingValue::Text(Some(parts.0))),
            None => None,
        },
        Setting::StdioEncodingErrors => match stated_encoding(entry) {
            Some(parts) => Some(SettingValue::Text(Some(parts.1))),
            None => None,
        },
        Setting::UnbufferedStdio => match entry.unbuffered_stdio {
            Some(flag) => Some(SettingValue::Flag(flag)),
            None => None,
        },
        Setting::FilesystemImporter => match entry.filesystem_importer {
            Some(flag) => Some(SettingValue::Flag(flag)),
            None => None,
        },
        Setting::SysFrozen => match entry.sys_frozen {
            Some(flag) => Some(SettingValue::Flag(flag)),
            None => None,
        },
        Setting::SysMeipass => match entry.sys_meipass {
            Some(flag) => Some(SettingValue::Flag(flag)),
            None => None,
        },
        Setting::SysPaths => match entry.sys_paths {
            Some(paths) => Some(SettingValue::Paths(paths.deep_view())),
            None => None,
        },
        Setting::RawAllocator => match entry.raw_allocator {
            Some(allocator) => Some(SettingValue::Allocator(allocator)),
            None => None,
        },
        Setting::TerminfoResolution => match entry.terminfo_resolution {
            None => None,
            Some(ConfigTerminfoResolution::Dynamic) => Some(
                SettingValue::Terminfo(TerminfoResolutionView::Dynamic),
            ),
            Some(ConfigTerminfoResolution::Disabled) => Some(
                SettingValue::Terminfo(TerminfoResolutionView::Disabled),
            ),
            Some(ConfigTerminfoResolution::Static) => match entry.terminfo_dirs {
                Some(dirs) => Some(SettingValue::Terminfo(TerminfoResolutionView::Static(dirs@))),
                None => None,
            },
        },
        Setting::WriteModulesDirectoryEnv => match entry.write_modules_directory_env {
            Some(name) => Some(SettingValue::Text(Some(name@))),
            None => None,
        },
    }
}

/// An entry that is laid over the settings changes exactly the settings
/// that it states: each of them takes the stated value, and every other
/// setting keeps its value.
pub proof fn law_overlay_by_setting(current: ConfigView, entry: ConfigPython, setting: Setting)
    ensures
        value_of(overlay(current, entry), setting) == match stated_by(entry, setting) {
            Some(value) => value,
            None => value_of(current, setting),
        },
{
    let next = overlay(current, entry);
    match setting {
        Setting::DontWriteBytecode => {
            assert(value_of(next, setting) == SettingValue::Flag(next.dont_write_bytecode));
        },
        Setting::IgnoreEnvironment => {
            assert(value_of(next, setting) == SettingValue::Flag(next.ignore_environment));
        },
        Setting::NoSite => {
            assert(value_of(next, setting) == SettingValue::Flag(next.no_site));
        },
        Setting::NoUserSiteDirectory => {
            assert(value_of(next, setting) == SettingValue::Flag(next.no_user_site_directory));
        },
        Setting::OptimizeLevel => {
            assert(value_of(next, setting) == SettingValue::Level(next.optimize_level));
        },
        Setting::StdioEncodingName => {
            assert(value_of(next, setting) == SettingValue::Text(next.stdio_encoding_name));
        },
        Setting::StdioEncodingErrors => {
            assert(value_of(next, setting) == SettingValue::Text(next.stdio_encoding_errors));
        },
        Setting::UnbufferedStdio => {
            assert(value_of(next, setting) == SettingValue::Flag(next.unbuffered_stdio));
        },
        Setting::FilesystemImporter => {
            assert(value_of(next, setting) == SettingValue::Flag(next.filesystem_importer));
        },
        Setting::SysFrozen => {
            assert(value_of(next, setting) == SettingValue::Flag(next.sys_frozen));
        },
        Setting::SysMeipass => {
            assert(value_of(next, setting) == SettingValue::Flag(next.sys_meipass));
        },
        Setting::SysPaths => {
            assert(value_of(next, setting) == SettingValue::Paths(next.sys_paths));
        },
        Setting::RawAllocator => {
            assert(value_of(next, setting) == SettingValue::Allocator(next.raw_allocator));
        },
        Setting::TerminfoResolution => {
            assert(value_of(next, setting) == SettingValue::Terminfo(next.terminfo_resolution));
        },
        Setting::WriteModulesDirectoryEnv => {
            assert(value_of(next, setting) == SettingValue::Text(next.write_modules_directory_env));
        },
    }
}

/// Interpreter settings are layered: the value of a setting is the one
/// stated by the last applicable entry that states it, whatever earlier
/// entries said.
pub proof fn law_last_statement_wins(
    entries: Seq<ConfigPython>,
    n: nat,
    target: Seq<char>,
    base: ConfigView,
    setting: Setting,
    j: int,
)
    requires
        n <= entries.len(),
        0 <= j < n,
        python_upto(entries, n, target, base) is Ok,
        target_applies(entries[j].build_target@, target),
        stated_by(entries[j], setting) is Some,
        forall|k: int|
            j < k < n && target_applies(#[trigger] entries[k].build_target@, target) ==> stated_by(
                entries[k],
                setting,
            ) is None,
    ensures
        Some(value_of(python_upto(entries, n, target, base)->Ok_0, setting)) == stated_by(
            entries[j],
            setting,
        ),
    decreases n,
{
    let before = python_upto(entries, (n - 1) as nat, target, base);
    let last = entries[n - 1];
    assert(before is Ok);
    if target_applies(last.build_target@, target) {
        law_overlay_by_setting(before->Ok_0, last, setting);
    }
    if j < n - 1 {
        law_last_statement_wins(entries, (n - 1) as nat, target, base, setting, j);
    }
}

/// A setting that no applicable entry states keeps the value it started with.
pub proof fn law_unstated_setting_keeps_its_value(
    entries: Seq<ConfigPython>,
    n: nat,
    target: Seq<char>,
    base: ConfigView,
    setting: Setting,
)
    requires
        n <= entries.len(),
        python_upto(entries, n, target, base) is Ok,
        forall|k: int|
            0 <= k < n && target_applies(#[trigger] entries[k].build_target@, target) ==> stated_by(
                entries[k],
                setting,
            ) is None,
    ensures
        value_of(python_upto(entries, n, target, base)->Ok_0, setting) == value_of(base, setting),
    decreases n,
{
    if n > 0 {
        let before = python_upto(entries, (n - 1) as nat, target, base);
        let last = entries[n - 1];
        assert(before is Ok);
        if target_applies(last.build_target@, target) {
            law_overlay_by_setting(before->Ok_0, last, setting);
        }
        law_unstated_setting_keeps_its_value(entries, (n - 1) as nat, target, base, setting);
    }
}

/// Interpreter settings leave every other part of a configuration alone.
pub proof fn law_settings_keep_the_rest(
    entries: Seq<ConfigPython>,
    n: nat,
    target: Seq<char>,
    base: ConfigView,
)
    requires
        python_upto(entries, n, target, base) is Ok,
    ensures
        ({
            let settings = python_upto(entries, n, target, base)->Ok_0;
            &&& settings.config_path == base.config_path
            &&& settings.build_config == base.build_config
            &&& settings.python_distribution == base.python_distribution
            &&& settings.python_packaging == base.python_packaging
            &&& settings.run == base.run
            &&& settings.distributions == base.distributions
        }),
    decreases n,
{
    if n > 0 {
        law_settings_keep_the_rest(entries, (n - 1) as nat, target, base);
    }
}

/// The application name is the one stated by the last applicable build
/// entry that states one.
pub proof fn law_last_application_name_wins(
    builds: Seq<ConfigBuild>,
    n: nat,
    default_path: Seq<char>,
    origin: Seq<char>,
    target: Seq<char>,
    j: int,
)
    requires
        n <= builds.len(),
        0 <= j < n,
        target_applies(builds[j].build_target@, target),
        builds[j].application_name is Some,
        forall|k: int|
            j < k < n && target_applies(#[trigger] builds[k].build_target@, target)
                ==> builds[k].application_name is None,
    ensures
        builds_upto(builds, n, default_path, origin, target).application_name == Some(
            builds[j].application_name->0@,
        ),
    decreases n,
{
    if j < n - 1 {
        law_last_application_name_wins(builds, (n - 1) as nat, default_path, origin, target, j);
    }
}

/// The build path is the one stated by the last applicable build entry that
/// states one, with the manifest's directory in place of each `$ORIGIN`.
pub proof fn law_last_build_path_wins(
    builds: Seq<ConfigBuild>,
    n: nat,
    default_path: Seq<char>,
    origin: Seq<char>,
    target: Seq<char>,
    j: int,
)
    requires
        n <= builds.len(),
        0 <= j < n,
        target_applies(builds[j].build_target@, target),
        builds[j].build_path is Some,
        forall|k: int|
            j < k < n && target_applies(#[trigger] builds[k].build_target@, target)
                ==> builds[k].build_path is None,
    ensures
        builds_upto(builds, n, default_path, origin, target).build_path == expand_origin(
            builds[j].build_path->0@,
            origin,
        ),
    decreases n,
{
    if j < n - 1 {
        law_last_build_path_wins(builds, (n - 1) as nat, default_path, origin, target, j);
    }
}

/// A build path that no applicable entry states is the default one.
pub proof fn law_unstated_build_path_is_default(
    builds: Seq<ConfigBuild>,
    n: nat,
    default_path: Seq<char>,
    origin: Seq<char>,
    target: Seq<char>,
)
    requires
        n <= builds.len(),
        forall|k: int|
            0 <= k < n && target_applies(#[trigger] builds[k].build_target@, target)
                ==> builds[k].build_path is None,
    ensures
        builds_upto(builds, n, default_path, origin, target).build_path == default_path,
    decreases n,
{
    if n > 0 {
        law_unstated_build_path_is_default(builds, (n - 1) as nat, default_path, origin, target);
    }
}

/// The run mode is that of the last applicable entry.
pub proof fn law_last_run_mode_wins(
    entries: Seq<ConfigRunMode>,
    n: nat,
    target: Seq<char>,
    j: int,
)
    requires
        n <= entries.len(),
        0 <= j < n,
        target_applies(entries[j].target(), target),
        forall|k: int| j < k < n ==> !target_applies(#[trigger] entries[k].target(), target),
    ensures
        run_upto(entries, n, target) == run_mode_of(entries[j]),
    decreases n,
{
    if j < n - 1 {
        assert(!target_applies(entries[n - 1].target(), target));
        law_last_run_mode_wins(entries, (n - 1) as nat, target, j);
    }
}

/// Without an applicable entry the interpreter does nothing once started.
pub proof fn law_no_run_mode_is_noop(entries: Seq<ConfigRunMode>, n: nat, target: Seq<char>)
    requires
        n <= entries.len(),
        forall|k: int| 0 <= k < n ==> !target_applies(#[trigger] entries[k].target(), target),
    ensures
        run_upto(entries, n, target) == RunModeView::Noop,
    decreases n,
{
    if n > 0 {
        assert(!target_applies(entries[n - 1].target(), target));
        law_no_run_mode_is_noop(entries, (n - 1) as nat, target);
    }
}

/// The parts of a configuration: each is what its own category of entries
/// resolves to, and the filesystem importer is on when the settings say so
/// or name a search path.
pub proof fn law_resolution_parts(
    manifest: ParsedConfig,
    config_path: Seq<char>,
    origin: Seq<char>,
    default_build_path: Seq<char>,
    target: Seq<char>,
)
    requires
        resolved(manifest, config_path, origin, default_build_path, target) is Ok,
    ensures
        ({
            let config = resolved(manifest, config_path, origin, default_build_path, target)->Ok_0;
            let build = resolved_build(manifest.builds@, default_build_path, origin, target);
            let distribution = resolved_distribution(manifest.python_distributions@, target);
            let settings = python_upto(
                manifest.python_configs@,
                manifest.python_configs@.len(),
                target,
                base_config(config_path, build->Ok_0, distribution->Ok_0, target),
            );
            &&& build == Ok::<BuildConfigView, ConfigErrorView>(config.build_config)
            &&& distribution == Ok::<_, ConfigErrorView>(config.python_distribution)
            &&& settings is Ok
            &&& config == assembled(
                settings->Ok_0,
                config.python_packaging,
                config.run,
                config.distributions,
            )
            &&& config.config_path == config_path
            &&& resolved_packaging(manifest.packaging_rules@, target) == Ok::<_, ConfigErrorView>(
                config.python_packaging,
            )
            &&& config.run == run_upto(manifest.python_run@, manifest.python_run@.len(), target)
            &&& config.distributions == distributions_upto(
                manifest.distributions@,
                manifest.distributions@.len(),
                target,
            )
        }),
{
    let build = resolved_build(manifest.builds@, default_build_path, origin, target);
    let distribution = resolved_distribution(manifest.python_distributions@, target);
    law_settings_keep_the_rest(
        manifest.python_configs@,
        manifest.python_configs@.len(),
        target,
        base_config(config_path, build->Ok_0, distribution->Ok_0, target),
    );
}

/// A manifest with a single build entry, declared for every target, gives
/// every target that entry's application name and its build path, with the
/// manifest's directory in place of each `$ORIGIN`; or the default build
/// path if the entry states none.
pub proof fn law_single_build_entry(
    manifest: ParsedConfig,
    config_path: Seq<char>,
    origin: Seq<char>,
    default_build_path: Seq<char>,
    target: Seq<char>,
)
    requires
        manifest.builds@.len() == 1,
        manifest.builds@[0].build_target@ == "all"@,
        resolved(manifest, config_path, origin, default_build_path, target) is Ok,
    ensures
        ({
            let config = resolved(manifest, config_path, origin, default_build_path, target)->Ok_0;
            let entry = manifest.builds@[0];
            &&& entry.application_name is Some
            &&& config.build_config.application_name == entry.application_name->0@
            &&& config.build_config.build_path == match entry.build_path {
                Some(path) => expand_origin(path@, origin),
                None => default_build_path,
            }
        }),
{
    law_resolution_parts(manifest, config_path, origin, default_build_path, target);
    let builds = manifest.builds@;
    assert(builds_upto(builds, 1, default_build_path, origin, target) == apply_build(
        builds_upto(builds, 0, default_build_path, origin, target),
        builds[0],
        origin,
        target,
    ));
}

/// The distribution is the first applicable one: whatever follows that
/// entry in the manifest has no part in the result.
pub proof fn law_first_distribution_wins(
    entries: Seq<ConfigPythonDistribution>,
    target: Seq<char>,
    i: int,
)
    requires
        0 <= i < entries.len(),
        target_applies(entries[i].target(), target),
        forall|k: int| 0 <= k < i ==> !target_applies(#[trigger] entries[k].target(), target),
    ensures
        resolved_distribution(entries, target) == Ok::<_, ConfigErrorView>(
            distribution_source(entries[i]),
        ),
{
    lemma_first_applicable(entries, target, i, 0);
}

proof fn lemma_first_applicable(
    entries: Seq<ConfigPythonDistribution>,
    target: Seq<char>,
    i: int,
    from: int,
)
    requires
        0 <= from <= i < entries.len(),
        target_applies(entries[i].target(), target),
        forall|k: int| 0 <= k < i ==> !target_applies(#[trigger] entries[k].target(), target),
    ensures
        first_applicable(entries, target, from) == i,
    decreases i - from,
{
    if from < i {
        assert(!target_applies(entries[from].target(), target));
        lemma_first_applicable(entries, target, i, from + 1);
    }
}

/// Without an applicable distribution entry there is no configuration.
pub proof fn law_no_distribution_fails(
    manifest: ParsedConfig,
    config_path: Seq<char>,
    origin: Seq<char>,
    default_build_path: Seq<char>,
    target: Seq<char>,
)
    requires
        forall|k: int|
            0 <= k < manifest.python_distributions@.len() ==> !target_applies(
                #[trigger] manifest.python_distributions@[k].target(),
                target,
            ),
    ensures
        resolved(manifest, config_path, origin, default_build_path, target) is Err,
{
    lemma_none_applicable(manifest.python_distributions@, target, 0);
}

proof fn lemma_none_applicable(
    entries: Seq<ConfigPythonDistribution>,
    target: Seq<char>,
    from: int,
)
    requires
        0 <= from <= entries.len(),
        forall|k: int|
            0 <= k < entries.len() ==> !target_applies(#[trigger] entries[k].target(), target),
    ensures
        first_applicable(entries, target, from) == entries.len(),
    decreases entries.len() - from,
{
    if from < entries.len() {
        assert(!target_applies(entries[from].target(), target));
        lemma_none_applicable(entries, target, from + 1);
    }
}

/// The number of rules among the first `n` that apply to `target`.
pub open spec fn applicable_rules(
    rules: Seq<ConfigPythonPackaging>,
    n: nat,
    target: Seq<char>,
) -> nat
    decreases n,
{
    if n == 0 {
        0
    } else if target_applies(rules[n - 1].target(), target) {
        applicable_rules(rules, (n - 1) as nat, target) + 1
    } else {
        applicable_rules(rules, (n - 1) as nat, target)
    }
}

/// Packaging rules keep the order of the manifest: the resolved list holds
/// one rule for each rule that applies, and a rule that applies stands
/// behind exactly the applicable rules that come before it in the manifest.
pub proof fn law_rules_keep_their_order(
    rules: Seq<ConfigPythonPackaging>,
    n: nat,
    target: Seq<char>,
)
    requires
        n <= rules.len(),
        rules_upto(rules, n, target) is Ok,
    ensures
        ({
            let list = rules_upto(rules, n, target)->Ok_0;
            &&& list.len() == applicable_rules(rules, n, target)
            &&& forall|i: int|
                0 <= i < n && target_applies(#[trigger] rules[i].target(), target) ==> {
                    &&& applicable_rules(rules, i as nat, target) < list.len()
                    &&& rule_view(rules[i]) == Ok::<_, ConfigErrorView>(
                        list[applicable_rules(rules, i as nat, target) as int],
                    )
                }
        }),
    decreases n,
{
    if n > 0 {
        law_rules_keep_their_order(rules, (n - 1) as nat, target);
    }
}

/// The number of distribution entries among the first `n` that apply to
/// `target`.
pub open spec fn applicable_distributions(
    entries: Seq<ConfigDistribution>,
    n: nat,
    target: Seq<char>,
) -> nat
    decreases n,
{
    if n == 0 {
        0
    } else if target_applies(entries[n - 1].target(), target) {
        applicable_distributions(entries, (n - 1) as nat, target) + 1
    } else {
        applicable_distributions(entries, (n - 1) as nat, target)
    }
}

/// Distribution rules keep the order of the manifest, as packaging rules do.
pub proof fn law_distributions_keep_their_order(
    entries: Seq<ConfigDistribution>,
    n: nat,
    target: Seq<char>,
)
    requires
        n <= entries.len(),
    ensures
        ({
            let list = distributions_upto(entries, n, target);
            &&& list.len() == applicable_distributions(entries, n, target)
            &&& forall|i: int|
                0 <= i < n && target_applies(#[trigger] entries[i].target(), target) ==> {
                    &&& applicable_distributions(entries, i as nat, target) < list.len()
                    &&& distribution_of(entries[i]) == list[applicable_distributions(
                        entries,
                        i as nat,
                        target,
                    ) as int]
                }
        }),
    decreases n,
{
    if n > 0 {
        law_distributions_keep_their_order(entries, (n - 1) as nat, target);
    }
}

/// Whether everything that is resolved before the two mandatory kinds of
/// packaging rule are looked for is free of faults: the build settings, the
/// distribution, the interpreter settings, and each applicable rule.
pub open spec fn faultless_so_far(
    manifest: ParsedConfig,
    config_path: Seq<char>,
    origin: Seq<char>,
    default_build_path: Seq<char>,
    target: Seq<char>,
) -> bool {
    let build = resolved_build(manifest.builds@, default_build_path, origin, target);
    let distribution = resolved_distribution(manifest.python_distributions@, target);
    &&& build is Ok
    &&& distribution is Ok
    &&& python_upto(
        manifest.python_configs@,
        manifest.python_configs@.len(),
        target,
        base_config(config_path, build->Ok_0, distribution->Ok_0, target),
    ) is Ok
    &&& rules_upto(manifest.packaging_rules@, manifest.packaging_rules@.len(), target) is Ok
}

/// A manifest in which no rule that applies to the target states the policy
/// on stdlib extensions has no configuration, whatever it states for other
/// targets; and where nothing before is at fault, that is the fault reported.
pub proof fn law_missing_extensions_policy(
    manifest: ParsedConfig,
    config_path: Seq<char>,
    origin: Seq<char>,
    default_build_path: Seq<char>,
    target: Seq<char>,
)
    requires
        forall|k: int|
            0 <= k < manifest.packaging_rules@.len() ==> !applies_as_extensions_policy(
                #[trigger] manifest.packaging_rules@[k],
                target,
            ),
    ensures
        resolved(manifest, config_path, origin, default_build_path, target) is Err,
        faultless_so_far(manifest, config_path, origin, default_build_path, target) ==> resolved(
            manifest,
            config_path,
            origin,
            default_build_path,
            target,
        ) == Err::<ConfigView, _>(ConfigErrorView::MissingStdlibExtensionsPolicy),
{
}

/// A manifest in which no rule that applies to the target packages the
/// standard library has no configuration; and where nothing before is at
/// fault and the policy on stdlib extensions is stated, that is the fault
/// reported.
pub proof fn law_missing_stdlib_rule(
    manifest: ParsedConfig,
    config_path: Seq<char>,
    origin: Seq<char>,
    default_build_path: Seq<char>,
    target: Seq<char>,
)
    requires
        forall|k: int|
            0 <= k < manifest.packaging_rules@.len() ==> !applies_as_stdlib(
                #[trigger] manifest.packaging_rules@[k],
                target,
            ),
    ensures
        resolved(manifest, config_path, origin, default_build_path, target) is Err,
        faultless_so_far(manifest, config_path, origin, default_build_path, target)
            && has_extensions_policy(
            manifest.packaging_rules@,
            manifest.packaging_rules@.len() as int,
            target,
        ) ==> resolved(manifest, config_path, origin, default_build_path, target) == Err::<
            ConfigView,
            _,
        >(ConfigErrorView::MissingStdlibRule),
{
}

/// An applicable entry whose optimization level is not 0, 1 or 2 leaves no
/// configuration; and its own fault is that level.
pub proof fn law_other_optimize_levels_fail(
    manifest: ParsedConfig,
    config_path: Seq<char>,
    origin: Seq<char>,
    default_build_path: Seq<char>,
    target: Seq<char>,
    i: int,
)
    requires
        0 <= i < manifest.python_configs@.len(),
        target_applies(manifest.python_configs@[i].build_target@, target),
        manifest.python_configs@[i].optimize_level is Some,
        !(0 <= manifest.python_configs@[i].optimize_level->0 <= 2),
    ensures
        resolved(manifest, config_path, origin, default_build_path, target) is Err,
        setting_fault(manifest.python_configs@[i]) == Some(
            ConfigErrorView::InvalidOptimizeLevel {
                value: manifest.python_configs@[i].optimize_level->0,
            },
        ),
{
    let build = resolved_build(manifest.builds@, default_build_path, origin, target);
    let distribution = resolved_distribution(manifest.python_distributions@, target);
    if build is Ok && distribution is Ok {
        lemma_unusable_entry_fails(
            manifest.python_configs@,
            target,
            base_config(config_path, build->Ok_0, distribution->Ok_0, target),
            i,
        );
    }
}

/// An applicable entry that is unusable makes the settings fail.
pub proof fn lemma_unusable_entry_fails(
    entries: Seq<ConfigPython>,
    target: Seq<char>,
    base: ConfigView,
    i: int,
)
    requires
        0 <= i < entries.len(),
        target_applies(entries[i].build_target@, target),
        setting_fault(entries[i]) is Some,
    ensures
        python_upto(entries, entries.len(), target, base) is Err,
{
    assert(python_upto(entries, (i + 1) as nat, target, base) is Err);
    lemma_fault_stays(entries, (i + 1) as nat, entries.len(), target, base);
}

/// Optimization levels 0, 1 and 2 are accepted: where every applicable
/// entry states one of them or none, no fault is about the level.
pub proof fn law_optimize_levels_accepted(
    entries: Seq<ConfigPython>,
    n: nat,
    target: Seq<char>,
    base: ConfigView,
)
    requires
        n <= entries.len(),
        forall|k: int|
            0 <= k < n && target_applies(#[trigger] entries[k].build_target@, target) ==> (
            entries[k].optimize_level is None || 0 <= entries[k].optimize_level->0 <= 2),
    ensures
        python_upto(entries, n, target, base) matches Err(fault) ==> !(fault
            is InvalidOptimizeLevel),
        python_upto(entries, n, target, base) matches Ok(settings) ==> (0 <= base.optimize_level
            <= 2 ==> 0 <= settings.optimize_level <= 2),
    decreases n,
{
    if n > 0 {
        law_optimize_levels_accepted(entries, (n - 1) as nat, target, base);
    }
}

/// A static terminfo database needs its directories: an applicable entry
/// that asks for one without naming them leaves no configuration.
pub proof fn law_static_terminfo_needs_dirs(
    manifest: ParsedConfig,
    config_path: Seq<char>,
    origin: Seq<char>,
    default_build_path: Seq<char>,
    target: Seq<char>,
    i: int,
)
    requires
        0 <= i < manifest.python_configs@.len(),
        target_applies(manifest.python_configs@[i].build_target@, target),
        manifest.python_configs@[i].terminfo_resolution == Some(ConfigTerminfoResolution::Static),
        manifest.python_configs@[i].terminfo_dirs is None,
    ensures
        resolved(manifest, config_path, origin, default_build_path, target) is Err,
{
    let build = resolved_build(manifest.builds@, default_build_path, origin, target);
    let distribution = resolved_distribution(manifest.python_distributions@, target);
    if build is Ok && distribution is Ok {
        lemma_unusable_entry_fails(
            manifest.python_configs@,
            target,
            base_config(config_path, build->Ok_0, distribution->Ok_0, target),
            i,
        );
    }
}

/// A static terminfo database with its directories is taken as it stands:
/// the entry is not at fault for it, and the settings carry the directories.
pub proof fn law_static_terminfo_carries_dirs(
    current: ConfigView,
    entry: ConfigPython,
    target: Seq<char>,
)
    requires
        target_applies(entry.build_target@, target),
        entry.terminfo_resolution == Some(ConfigTerminfoResolution::Static),
        entry.terminfo_dirs is Some,
    ensures
        setting_fault(entry) != Some(ConfigErrorView::TerminfoDirsRequired),
        apply_python(current, entry, target) matches Ok(settings)
            ==> settings.terminfo_resolution == TerminfoResolutionView::Static(
            entry.terminfo_dirs->0@,
        ),
{
}

} // verus!
