//! Packaging rules: which of a manifest's rules apply to a target, and what
//! each of them becomes.

use crate::config::{
    PackagingFilterInclude, PackagingPackageRoot, PackagingPipInstallSimple,
    PackagingPipRequirementsFile, PackagingSetupPyInstall, PackagingStdlib,
    PackagingStdlibExtensionVariant, PackagingStdlibExtensionsExplicitExcludes,
    PackagingStdlibExtensionsExplicitIncludes, PackagingStdlibExtensionsPolicy,
    PackagingVirtualenv, PackagingWriteLicenseFiles, PythonPackaging, PythonPackagingView, views,
};
use crate::error::{ConfigError, ConfigErrorView};
use crate::install_location::{located, resolve_install_location};
use crate::manifest::ConfigPythonPackaging;
use crate::resolve::outcome;
use crate::target::{target_applies, target_matches};
use crate::text::clone_strings;
use vstd::prelude::*;
use vstd::string::*;

verus! {

/// What a rule of the manifest becomes: the same kind with the same fields,
/// its install location parsed. A rule whose install location does not parse
/// becomes the fault that names it.
pub open spec fn rule_view(rule: ConfigPythonPackaging) -> Result<
    PythonPackagingView,
    ConfigErrorView,
> {
    match rule {
        ConfigPythonPackaging::SetupPyInstall {
            package_path,
            extra_env,
            extra_global_arguments,
            optimize_level,
            include_source,
            install_location,
            ..
        } => match located(install_location@) {
            Ok(location) => Ok(
                PythonPackagingView::SetupPyInstall {
                    path: package_path@,
                    extra_env: extra_env@,
                    extra_global_arguments: extra_global_arguments.deep_view(),
                    optimize_level,
                    include_source,
                    install_location: location,
                },
            ),
            Err(fault) => Err(fault),
        },
        ConfigPythonPackaging::StdlibExtensionsPolicy { policy, .. } => Ok(
            PythonPackagingView::StdlibExtensionsPolicy { policy: policy@ },
        ),
        ConfigPythonPackaging::StdlibExtensionsExplicitIncludes { includes, .. } => Ok(
            PythonPackagingView::StdlibExtensionsExplicitIncludes { includes: includes.deep_view() },
        ),
        ConfigPythonPackaging::StdlibExtensionsExplicitExcludes { excludes, .. } => Ok(
            PythonPackagingView::StdlibExtensionsExplicitExcludes { excludes: excludes.deep_view() },
        ),
        ConfigPythonPackaging::StdlibExtensionVariant { extension, variant, .. } => Ok(
            PythonPackagingView::StdlibExtensionVariant { extension: extension@, variant: variant@ },
        ),
        ConfigPythonPackaging::Stdlib {
            optimize_level,
            exclude_test_modules,
            include_source,
            include_resources,
            install_location,
            ..
        } => match located(install_location@) {
            Ok(location) => Ok(
                PythonPackagingView::Stdlib {
                    optimize_level,
                    exclude_test_modules,
                    include_source,
                    include_resources,
                    install_location: location,
                },
            ),
            Err(fault) => Err(fault),
        },
        ConfigPythonPackaging::Virtualenv {
            path,
            optimize_level,
            excludes,
            include_source,
            install_location,
            ..
        } => match located(install_location@) {
            Ok(location) => Ok(
                PythonPackagingView::Virtualenv {
                    path: path@,
                    optimize_level,
                    excludes: excludes.deep_view(),
                    include_source,
                    install_location: location,
                },
            ),
            Err(fault) => Err(fault),
        },
        ConfigPythonPackaging::PackageRoot {
            path,
            packages,
            optimize_level,
            excludes,
            include_source,
            install_location,
            ..
        } => match located(install_location@) {
            Ok(location) => Ok(
                PythonPackagingView::PackageRoot {
                    path: path@,
                    packages: packages.deep_view(),
                    optimize_level,
                    excludes: excludes.deep_view(),
                    include_source,
                    install_location: location,
                },
            ),
            Err(fault) => Err(fault),
        },
        ConfigPythonPackaging::PipInstallSimple {
            package,
            optimize_level,
            excludes,
            include_source,
            install_location,
            extra_args,
            ..
        } => match located(install_location@) {
            Ok(location) => Ok(
                PythonPackagingView::PipInstallSimple {
                    package: package@,
                    optimize_level,
                    excludes: excludes.deep_view(),
                    include_source,
                    install_location: location,
                    extra_args: extra_args.deep_view(),
                },
            ),
            Err(fault) => Err(fault),
        },
        ConfigPythonPackaging::PipRequirementsFile {
            requirements_path,
            optimize_level,
            include_source,
            install_location,
            ..
        } => match located(install_location@) {
            Ok(location) => Ok(
                PythonPackagingView::PipRequirementsFile {
                    requirements_path: requirements_path@,
                    optimize_level,
                    include_source,
                    install_location: location,
                },
            ),
            Err(fault) => Err(fault),
        },
        ConfigPythonPackaging::FilterInclude { files, glob_files, .. } => Ok(
            PythonPackagingView::FilterInclude {
                files: files.deep_view(),
                glob_files: glob_files.deep_view(),
            },
        ),
        ConfigPythonPackaging::WriteLicenseFiles { path, .. } => Ok(
            PythonPackagingView::WriteLicenseFiles { path: path@ },
        ),
    }
}

/// A copy of a list of strings that may be absent.
fn clone_optional_strings(list: &Option<Vec<String>>) -> (copy: Option<Vec<String>>)
    ensures
        copy.deep_view() == list.deep_view(),
{
    match list {
        Some(items) => Some(clone_strings(items)),
        None => None,
    }
}

/// Converts one rule of the manifest, whatever its target.
pub fn convert_rule(rule: &ConfigPythonPackaging) -> (converted: Result<
    PythonPackaging,
    ConfigError,
>)
    ensures
        outcome(converted) == rule_view(*rule),
{
    match rule {
        ConfigPythonPackaging::SetupPyInstall {
            package_path,
            extra_env,
            extra_global_arguments,
            optimize_level,
            include_source,
            install_location,
            ..
        } => match resolve_install_location(install_location.as_str()) {
            Ok(location) => Ok(
                PythonPackaging::SetupPyInstall(
                    PackagingSetupPyInstall {
                        path: package_path.clone(),
                        extra_env: extra_env.clone(),
                        extra_global_arguments: clone_strings(extra_global_arguments),
                        optimize_level: *optimize_level,
                        include_source: *include_source,
                        install_location: location,
                    },
                ),
            ),
            Err(fault) => Err(fault),
        },
        ConfigPythonPackaging::StdlibExtensionsPolicy { policy, .. } => Ok(
            PythonPackaging::StdlibExtensionsPolicy(
                PackagingStdlibExtensionsPolicy { policy: policy.clone() },
            ),
        ),
        ConfigPythonPackaging::StdlibExtensionsExplicitIncludes { includes, .. } => Ok(
            PythonPackaging::StdlibExtensionsExplicitIncludes(
                PackagingStdlibExtensionsExplicitIncludes { includes: clone_strings(includes) },
            ),
        ),
        ConfigPythonPackaging::StdlibExtensionsExplicitExcludes { excludes, .. } => Ok(
            PythonPackaging::StdlibExtensionsExplicitExcludes(
                PackagingStdlibExtensionsExplicitExcludes { excludes: clone_strings(excludes) },
            ),
        ),
        ConfigPythonPackaging::StdlibExtensionVariant { extension, variant, .. } => Ok(
            PythonPackaging::StdlibExtensionVariant(
                PackagingStdlibExtensionVariant {
                    extension: extension.clone(),
                    variant: variant.clone(),
                },
            ),
        ),
        ConfigPythonPackaging::Stdlib {
            optimize_level,
            exclude_test_modules,
            include_source,
            include_resources,
            install_location,
            ..
        } => match resolve_install_location(install_location.as_str()) {
            Ok(location) => Ok(
                PythonPackaging::Stdlib(
                    PackagingStdlib {
                        optimize_level: *optimize_level,
                        exclude_test_modules: *exclude_test_modules,
                        include_source: *include_source,
                        include_resources: *include_resources,
                        install_location: location,
                    },
                ),
            ),
            Err(fault) => Err(fault),
        },
        ConfigPythonPackaging::Virtualenv {
            path,
            optimize_level,
            excludes,
            include_source,
            install_location,
            ..
        } => match resolve_install_location(install_location.as_str()) {
            Ok(location) => Ok(
                PythonPackaging::Virtualenv(
                    PackagingVirtualenv {
                        path: path.clone(),
                        optimize_level: *optimize_level,
                        excludes: clone_strings(excludes),
                        include_source: *include_source,
                        install_location: location,
                    },
                ),
            ),
            Err(fault) => Err(fault),
        },
        ConfigPythonPackaging::PackageRoot {
            path,
            packages,
            optimize_level,
            excludes,
            include_source,
            install_location,
            ..
        } => match resolve_install_location(install_location.as_str()) {
            Ok(location) => Ok(
                PythonPackaging::PackageRoot(
                    PackagingPackageRoot {
                        path: path.clone(),
                        packages: clone_strings(packages),
                        optimize_level: *optimize_level,
                        excludes: clone_strings(excludes),
                        include_source: *include_source,
                        install_location: location,
                    },
                ),
            ),
            Err(fault) => Err(fault),
        },
        ConfigPythonPackaging::PipInstallSimple {
            package,
            optimize_level,
            excludes,
            include_source,
            install_location,
            extra_args,
            ..
        } => match resolve_install_location(install_location.as_str()) {
            Ok(location) => Ok(
                PythonPackaging::PipInstallSimple(
                    PackagingPipInstallSimple {
                        package: package.clone(),
                        optimize_level: *optimize_level,
                        excludes: clone_strings(excludes),
                        include_source: *include_source,
                        install_location: location,
                        extra_args: clone_optional_strings(extra_args),
                    },
                ),
            ),
            Err(fault) => Err(fault),
        },
        ConfigPythonPackaging::PipRequirementsFile {
            requirements_path,
            optimize_level,
            include_source,
            install_location,
            ..
        } => match resolve_install_location(install_location.as_str()) {
            Ok(location) => Ok(
                PythonPackaging::PipRequirementsFile(
                    PackagingPipRequirementsFile {
                        requirements_path: requirements_path.clone(),
                        optimize_level: *optimize_level,
                        include_source: *include_source,
                        install_location: location,
                    },
                ),
            ),
            Err(fault) => Err(fault),
        },
        ConfigPythonPackaging::FilterInclude { files, glob_files, .. } => Ok(
            PythonPackaging::FilterInclude(
                PackagingFilterInclude {
                    files: clone_strings(files),
                    glob_files: clone_strings(glob_files),
                },
            ),
        ),
        ConfigPythonPackaging::WriteLicenseFiles { path, .. } => Ok(
            PythonPackaging::WriteLicenseFiles(PackagingWriteLicenseFiles { path: path.clone() }),
        ),
    }
}

/// The rules among the first `n` that apply to `target`, converted and in
/// the order of the manifest; or the fault of the first of them that cannot
/// be converted.
pub open spec fn rules_upto(rules: Seq<ConfigPythonPackaging>, n: nat, target: Seq<char>) -> Result<
    Seq<PythonPackagingView>,
    ConfigErrorView,
>
    decreases n,
{
    if n == 0 {
        Ok(Seq::empty())
    } else {
        match rules_upto(rules, (n - 1) as nat, target) {
            Err(fault) => Err(fault),
            Ok(list) => if !target_applies(rules[n - 1].target(), target) {
                Ok(list)
            } else {
                match rule_view(rules[n - 1]) {
                    Ok(rule) => Ok(list.push(rule)),
                    Err(fault) => Err(fault),
                }
            },
        }
    }
}

/// The rule packages the standard library and applies to `target`.
pub open spec fn applies_as_stdlib(rule: ConfigPythonPackaging, target: Seq<char>) -> bool {
    rule is Stdlib && target_applies(rule.target(), target)
}

/// The rule states the policy on the standard library's extension modules
/// and applies to `target`.
pub open spec fn applies_as_extensions_policy(
    rule: ConfigPythonPackaging,
    target: Seq<char>,
) -> bool {
    rule is StdlibExtensionsPolicy && target_applies(rule.target(), target)
}

/// Some rule among the first `n` packages the standard library for `target`.
pub open spec fn has_stdlib(rules: Seq<ConfigPythonPackaging>, n: int, target: Seq<char>) -> bool {
    exists|i: int| 0 <= i < n && i < rules.len() && #[trigger] applies_as_stdlib(rules[i], target)
}

/// Some rule among the first `n` states the extensions policy for `target`.
pub open spec fn has_extensions_policy(
    rules: Seq<ConfigPythonPackaging>,
    n: int,
    target: Seq<char>,
) -> bool {
    exists|i: int|
        0 <= i < n && i < rules.len() && #[trigger] applies_as_extensions_policy(rules[i], target)
}

/// The packaging rules of a configuration: every applicable rule, converted,
/// in the order of the manifest. There must be among them a policy on the
/// standard library's extension modules and a rule for the standard library.
pub open spec fn resolved_packaging(rules: Seq<ConfigPythonPackaging>, target: Seq<char>) -> Result<
    Seq<PythonPackagingView>,
    ConfigErrorView,
> {
    match rules_upto(rules, rules.len(), target) {
        Err(fault) => Err(fault),
        Ok(list) => if !has_extensions_policy(rules, rules.len() as int, target) {
            Err(ConfigErrorView::MissingStdlibExtensionsPolicy)
        } else if !has_stdlib(rules, rules.len() as int, target) {
            Err(ConfigErrorView::MissingStdlibRule)
        } else {
            Ok(list)
        },
    }
}

/// Once the first `n` rules have given a fault, more rules give the same.
pub proof fn lemma_rule_fault_stays(
    rules: Seq<ConfigPythonPackaging>,
    n: nat,
    m: nat,
    target: Seq<char>,
)
    requires
        n <= m,
        rules_upto(rules, n, target) is Err,
    ensures
        rules_upto(rules, m, target) == rules_upto(rules, n, target),
    decreases m,
{
    if n < m {
        lemma_rule_fault_stays(rules, n, (m - 1) as nat, target);
    }
}

fn is_stdlib(rule: &ConfigPythonPackaging) -> (yes: bool)
    ensures
        yes == (*rule is Stdlib),
{
    match rule {
        ConfigPythonPackaging::Stdlib { .. } => true,
        _ => false,
    }
}

fn is_extensions_policy(rule: &ConfigPythonPackaging) -> (yes: bool)
    ensures
        yes == (*rule is StdlibExtensionsPolicy),
{
    match rule {
        ConfigPythonPackaging::StdlibExtensionsPolicy { .. } => true,
        _ => false,
    }
}

/// Converts the rules that apply to `target`, and checks that the two
/// mandatory kinds are among them.
pub fn resolve_packaging(rules: &Vec<ConfigPythonPackaging>, target: &str) -> (resolved: Result<
    Vec<PythonPackaging>,
    ConfigError,
>)
    ensures
        match resolved_packaging(rules@, target@) {
            Ok(list) => resolved matches Ok(found) && views(found@) == list,
            Err(fault) => resolved matches Err(found) && found@ == fault,
        },
{
    let mut list: Vec<PythonPackaging> = Vec::new();
    let mut have_stdlib = false;
    let mut have_extensions_policy = false;
    let mut i: usize = 0;
    assert(views(list@) =~= Seq::<PythonPackagingView>::empty());
    while i < rules.len()
        invariant
            i <= rules.len(),
            rules_upto(rules@, i as nat, target@) == Ok::<Seq<PythonPackagingView>, ConfigErrorView>(
                views(list@),
            ),
            have_stdlib == has_stdlib(rules@, i as int, target@),
            have_extensions_policy == has_extensions_policy(rules@, i as int, target@),
        decreases rules.len() - i,
    {
        let rule = &rules[i];
        let ghost before = views(list@);
        if target_matches(rule.build_target().as_str(), target) {
            match convert_rule(rule) {
                Ok(converted) => {
                    list.push(converted);
                    assert(views(list@) =~= before.push(converted@));
                },
                Err(fault) => {
                    proof {
                        lemma_rule_fault_stays(rules@, (i + 1) as nat, rules@.len(), target@);
                    }
                    return Err(fault);
                },
            }
            if is_stdlib(rule) {
                assert(applies_as_stdlib(rules@[i as int], target@));
                have_stdlib = true;
            }
            if is_extensions_policy(rule) {
                assert(applies_as_extensions_policy(rules@[i as int], target@));
                have_extensions_policy = true;
            }
        }
        i += 1;
    }
    if !have_extensions_policy {
        return Err(ConfigError::MissingStdlibExtensionsPolicy);
    }
    if !have_stdlib {
        return Err(ConfigError::MissingStdlibRule);
    }
    Ok(list)
}

} // verus!
