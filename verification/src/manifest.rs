//! The manifest document: one record per declared entry, each tagged with the
//! build target it is meant for, with nothing resolved yet.

use std::collections::HashMap;
use vstd::prelude::*;

verus! {

/// Default of a flag that is on unless the manifest turns it off.
#[allow(non_snake_case)]
pub fn TRUE() -> (flag: bool)
    ensures
        flag,
{
    true
}

/// Default optimization level of a packaging rule.
#[allow(non_snake_case)]
pub fn ZERO() -> (level: i64)
    ensures
        level == 0,
{
    0
}

/// Default build target of an entry: the wildcard that applies to every target.
#[allow(non_snake_case)]
pub fn ALL() -> (target: String)
    ensures
        target@ == "all"@,
{
    "all".to_owned()
}

/// Default install location of a packaging rule, as written in a manifest.
#[allow(non_snake_case)]
pub fn EMBEDDED() -> (location: String)
    ensures
        location@ == "embedded"@,
{
    "embedded".to_owned()
}

/// Default of a table of extra environment variables.
#[allow(non_snake_case)]
pub fn EMPTY_MAP() -> (table: HashMap<String, String>)
    ensures
        table@ == Map::<String, String>::empty(),
{
    HashMap::new()
}

/// Default of a list of strings.
#[allow(non_snake_case)]
pub fn EMPTY_STRING_ARRAY() -> (list: Vec<String>)
    ensures
        list@ == Seq::<String>::empty(),
{
    Vec::new()
}

/// A `[[build]]` entry.
#[derive(Clone, Debug)]
pub struct ConfigBuild {
    pub build_target: String,
    pub application_name: Option<String>,
    pub build_path: Option<String>,
}

/// A `[[python_distribution]]` entry.
#[derive(Clone, Debug)]
pub enum ConfigPythonDistribution {
    Local { build_target: String, local_path: String, sha256: String },
    Url { build_target: String, url: String, sha256: String },
}

impl ConfigPythonDistribution {
    /// The target the entry is declared for.
    pub open spec fn target(&self) -> Seq<char> {
        match self {
            ConfigPythonDistribution::Local { build_target, .. } => build_target@,
            ConfigPythonDistribution::Url { build_target, .. } => build_target@,
        }
    }

    pub fn build_target(&self) -> (target: &String)
        ensures
            target@ == self.target(),
    {
        match self {
            ConfigPythonDistribution::Local { build_target, .. } => build_target,
            ConfigPythonDistribution::Url { build_target, .. } => build_target,
        }
    }
}

/// The `terminfo_resolution` setting as a manifest writes it.
#[derive(Clone, Debug)]
pub enum ConfigTerminfoResolution {
    Dynamic,
    Disabled,
    Static,
}

/// An `[[embedded_python_config]]` entry. A field that is absent leaves the
/// setting as earlier entries, or the defaults, made it.
#[derive(Clone, Debug)]
pub struct ConfigPython {
    pub build_target: String,
    pub dont_write_bytecode: Option<bool>,
    pub ignore_environment: Option<bool>,
    pub no_site: Option<bool>,
    pub no_user_site_directory: Option<bool>,
    pub optimize_level: Option<i64>,
    pub stdio_encoding: Option<String>,
    pub unbuffered_stdio: Option<bool>,
    pub filesystem_importer: Option<bool>,
    pub sys_frozen: Option<bool>,
    pub sys_meipass: Option<bool>,
    pub sys_paths: Option<Vec<String>>,
    pub raw_allocator: Option<crate::config::RawAllocator>,
    pub terminfo_resolution: Option<ConfigTerminfoResolution>,
    pub terminfo_dirs: Option<String>,
    pub write_modules_directory_env: Option<String>,
}

/// A `[[packaging_rule]]` entry, told apart by its `type`.
#[derive(Clone, Debug)]
pub enum ConfigPythonPackaging {
    SetupPyInstall {
        build_target: String,
        package_path: String,
        extra_env: HashMap<String, String>,
        extra_global_arguments: Vec<String>,
        optimize_level: i64,
        include_source: bool,
        install_location: String,
    },
    StdlibExtensionsPolicy { build_target: String, policy: String },
    StdlibExtensionsExplicitIncludes { build_target: String, includes: Vec<String> },
    StdlibExtensionsExplicitExcludes { build_target: String, excludes: Vec<String> },
    StdlibExtensionVariant { build_target: String, extension: String, variant: String },
    Stdlib {
        build_target: String,
        optimize_level: i64,
        exclude_test_modules: bool,
        include_source: bool,
        include_resources: bool,
        install_location: String,
    },
    Virtualenv {
        build_target: String,
        path: String,
        optimize_level: i64,
        excludes: Vec<String>,
        include_source: bool,
        install_location: String,
    },
    PackageRoot {
        build_target: String,
        path: String,
        packages: Vec<String>,
        optimize_level: i64,
        excludes: Vec<String>,
        include_source: bool,
        install_location: String,
    },
    PipInstallSimple {
        build_target: String,
        package: String,
        optimize_level: i64,
        excludes: Vec<String>,
        include_source: bool,
        install_location: String,
        extra_args: Option<Vec<String>>,
    },
    PipRequirementsFile {
        build_target: String,
        requirements_path: String,
        optimize_level: i64,
        include_source: bool,
        install_location: String,
    },
    FilterInclude { build_target: String, files: Vec<String>, glob_files: Vec<String> },
    WriteLicenseFiles { build_target: String, path: String },
}

impl ConfigPythonPackaging {
    /// The target the rule is declared for.
    pub open spec fn target(&self) -> Seq<char> {
        match self {
            ConfigPythonPackaging::SetupPyInstall { build_target, .. } => build_target@,
            ConfigPythonPackaging::StdlibExtensionsPolicy { build_target, .. } => build_target@,
            ConfigPythonPackaging::StdlibExtensionsExplicitIncludes { build_target, .. } => {
                build_target@
            },
            ConfigPythonPackaging::StdlibExtensionsExplicitExcludes { build_target, .. } => {
                build_target@
            },
            ConfigPythonPackaging::StdlibExtensionVariant { build_target, .. } => build_target@,
            ConfigPythonPackaging::Stdlib { build_target, .. } => build_target@,
            ConfigPythonPackaging::Virtualenv { build_target, .. } => build_target@,
            ConfigPythonPackaging::PackageRoot { build_target, .. } => build_target@,
            ConfigPythonPackaging::PipInstallSimple { build_target, .. } => build_target@,
            ConfigPythonPackaging::PipRequirementsFile { build_target, .. } => build_target@,
            ConfigPythonPackaging::FilterInclude { build_target, .. } => build_target@,
            ConfigPythonPackaging::WriteLicenseFiles { build_target, .. } => build_target@,
        }
    }

    pub fn build_target(&self) -> (target: &String)
        ensures
            target@ == self.target(),
    {
        match self {
            ConfigPythonPackaging::SetupPyInstall { build_target, .. } => build_target,
            ConfigPythonPackaging::StdlibExtensionsPolicy { build_target, .. } => build_target,
            ConfigPythonPackaging::StdlibExtensionsExplicitIncludes { build_target, .. } => {
                build_target
            },
            ConfigPythonPackaging::StdlibExtensionsExplicitExcludes { build_target, .. } => {
                build_target
            },
            ConfigPythonPackaging::StdlibExtensionVariant { build_target, .. } => build_target,
            ConfigPythonPackaging::Stdlib { build_target, .. } => build_target,
            ConfigPythonPackaging::Virtualenv { build_target, .. } => build_target,
            ConfigPythonPackaging::PackageRoot { build_target, .. } => build_target,
            ConfigPythonPackaging::PipInstallSimple { build_target, .. } => build_target,
            ConfigPythonPackaging::PipRequirementsFile { build_target, .. } => build_target,
            ConfigPythonPackaging::FilterInclude { build_target, .. } => build_target,
            ConfigPythonPackaging::WriteLicenseFiles { build_target, .. } => build_target,
        }
    }
}

/// An `[[embedded_python_run]]` entry, told apart by its `mode`.
#[derive(Clone, Debug)]
pub enum ConfigRunMode {
    Noop { build_target: String },
    Repl { build_target: String },
    Module { build_target: String, module: String },
    Eval { build_target: String, code: String },
}

impl ConfigRunMode {
    /// The target the entry is declared for.
    pub open spec fn target(&self) -> Seq<char> {
        match self {
            ConfigRunMode::Noop { build_target } => build_target@,
            ConfigRunMode::Repl { build_target } => build_target@,
            ConfigRunMode::Module { build_target, .. } => build_target@,
            ConfigRunMode::Eval { build_target, .. } => build_target@,
        }
    }

    pub fn build_target(&self) -> (target: &String)
        ensures
            target@ == self.target(),
    {
        match self {
            ConfigRunMode::Noop { build_target } => build_target,
            ConfigRunMode::Repl { build_target } => build_target,
            ConfigRunMode::Module { build_target, .. } => build_target,
            ConfigRunMode::Eval { build_target, .. } => build_target,
        }
    }
}

/// A `[[distribution]]` entry, told apart by its `type`.
#[derive(Clone, Debug)]
pub enum ConfigDistribution {
    Tarball { build_target: String, path_prefix: Option<String> },
    WixInstaller {
        build_target: String,
        msi_upgrade_code_x86: Option<String>,
        msi_upgrade_code_amd64: Option<String>,
        bundle_upgrade_code: Option<String>,
    },
}

impl ConfigDistribution {
    /// The target the entry is declared for.
    pub open spec fn target(&self) -> Seq<char> {
        match self {
            ConfigDistribution::Tarball { build_target, .. } => build_target@,
            ConfigDistribution::WixInstaller { build_target, .. } => build_target@,
        }
    }

    pub fn build_target(&self) -> (target: &String)
        ensures
            target@ == self.target(),
    {
        match self {
            ConfigDistribution::Tarball { build_target, .. } => build_target,
            ConfigDistribution::WixInstaller { build_target, .. } => build_target,
        }
    }
}

/// A whole manifest, entries in the order in which they were declared.
#[derive(Clone, Debug)]
pub struct ParsedConfig {
    pub builds: Vec<ConfigBuild>,
    pub python_distributions: Vec<ConfigPythonDistribution>,
    pub python_configs: Vec<ConfigPython>,
    pub packaging_rules: Vec<ConfigPythonPackaging>,
    pub python_run: Vec<ConfigRunMode>,
    pub distributions: Vec<ConfigDistribution>,
}

} // verus!
