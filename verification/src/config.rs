//! The resolved configuration: what one manifest means for one build target.
//!
//! Every type here has a view that holds its strings as character sequences;
//! the contracts of the resolver are stated over those views.

use std::collections::HashMap;
use vstd::prelude::*;

verus! {

/// Backend of the interpreter's raw memory allocator.
#[derive(Clone, Copy, Debug, PartialEq, Eq, Structural)]
pub enum RawAllocator {
    Jemalloc,
    Rust,
    System,
}

/// Name and output directory of the application being built.
#[derive(Clone, Debug)]
pub struct BuildConfig {
    pub application_name: String,
    pub build_path: String,
}

pub struct BuildConfigView {
    pub application_name: Seq<char>,
    pub build_path: Seq<char>,
}

impl View for BuildConfig {
    type V = BuildConfigView;

    open spec fn view(&self) -> BuildConfigView {
        BuildConfigView {
            application_name: self.application_name@,
            build_path: self.build_path@,
        }
    }
}

/// Where the Python distribution to package comes from.
#[derive(Clone, Debug)]
pub enum PythonDistribution {
    Local { local_path: String, sha256: String },
    Url { url: String, sha256: String },
}

pub enum PythonDistributionView {
    Local { local_path: Seq<char>, sha256: Seq<char> },
    Url { url: Seq<char>, sha256: Seq<char> },
}

impl View for PythonDistribution {
    type V = PythonDistributionView;

    open spec fn view(&self) -> PythonDistributionView {
        match self {
            PythonDistribution::Local { local_path, sha256 } => PythonDistributionView::Local {
                local_path: local_path@,
                sha256: sha256@,
            },
            PythonDistribution::Url { url, sha256 } => PythonDistributionView::Url {
                url: url@,
                sha256: sha256@,
            },
        }
    }
}

/// Where a packaged resource lives relative to the produced binary.
#[derive(Clone, Debug)]
pub enum InstallLocation {
    Embedded,
    AppRelative { path: String },
}

pub enum InstallLocationView {
    Embedded,
    AppRelative { path: Seq<char> },
}

impl View for InstallLocation {
    type V = InstallLocationView;

    open spec fn view(&self) -> InstallLocationView {
        match self {
            InstallLocation::Embedded => InstallLocationView::Embedded,
            InstallLocation::AppRelative { path } => InstallLocationView::AppRelative { path: path@ },
        }
    }
}

#[derive(Clone, Debug)]
pub struct PackagingSetupPyInstall {
    pub path: String,
    pub extra_env: HashMap<String, String>,
    pub extra_global_arguments: Vec<String>,
    pub optimize_level: i64,
    pub include_source: bool,
    pub install_location: InstallLocation,
}

#[derive(Clone, Debug)]
pub struct PackagingStdlibExtensionsPolicy {
    pub policy: String,
}

#[derive(Clone, Debug)]
pub struct PackagingStdlibExtensionsExplicitIncludes {
    pub includes: Vec<String>,
}

#[derive(Clone, Debug)]
pub struct PackagingStdlibExtensionsExplicitExcludes {
    pub excludes: Vec<String>,
}

#[derive(Clone, Debug)]
pub struct PackagingStdlibExtensionVariant {
    pub extension: String,
    pub variant: String,
}

#[derive(Clone, Debug)]
pub struct PackagingStdlib {
    pub optimize_level: i64,
    pub exclude_test_modules: bool,
    pub include_source: bool,
    pub include_resources: bool,
    pub install_location: InstallLocation,
}

#[derive(Clone, Debug)]
pub struct PackagingVirtualenv {
    pub path: String,
    pub optimize_level: i64,
    pub excludes: Vec<String>,
    pub include_source: bool,
    pub install_location: InstallLocation,
}

#[derive(Clone, Debug)]
pub struct PackagingPackageRoot {
    pub path: String,
    pub packages: Vec<String>,
    pub optimize_level: i64,
    pub excludes: Vec<String>,
    pub include_source: bool,
    pub install_location: InstallLocation,
}

#[derive(Clone, Debug)]
pub struct PackagingPipInstallSimple {
    pub package: String,
    pub optimize_level: i64,
    pub excludes: Vec<String>,
    pub include_source: bool,
    pub install_location: InstallLocation,
    pub extra_args: Option<Vec<String>>,
}

#[derive(Clone, Debug)]
pub struct PackagingPipRequirementsFile {
    pub requirements_path: String,
    pub optimize_level: i64,
    pub include_source: bool,
    pub install_location: InstallLocation,
}

#[derive(Clone, Debug)]
pub struct PackagingFilterInclude {
    pub files: Vec<String>,
    pub glob_files: Vec<String>,
}

#[derive(Clone, Debug)]
pub struct PackagingWriteLicenseFiles {
    pub path: String,
}

/// One instruction on how to source and place a set of Python resources.
#[derive(Clone, Debug)]
pub enum PythonPackaging {
    SetupPyInstall(PackagingSetupPyInstall),
    StdlibExtensionsPolicy(PackagingStdlibExtensionsPolicy),
    StdlibExtensionsExplicitIncludes(PackagingStdlibExtensionsExplicitIncludes),
    StdlibExtensionsExplicitExcludes(PackagingStdlibExtensionsExplicitExcludes),
    StdlibExtensionVariant(PackagingStdlibExtensionVariant),
    Stdlib(PackagingStdlib),
    Virtualenv(PackagingVirtualenv),
    PackageRoot(PackagingPackageRoot),
    PipInstallSimple(PackagingPipInstallSimple),
    PipRequirementsFile(PackagingPipRequirementsFile),
    FilterInclude(PackagingFilterInclude),
    WriteLicenseFiles(PackagingWriteLicenseFiles),
}

/// The view of a packaging rule: the rule's kind with its fields.
pub enum PythonPackagingView {
    SetupPyInstall {
        path: Seq<char>,
        extra_env: Map<String, String>,
        extra_global_arguments: Seq<Seq<char>>,
        optimize_level: i64,
        include_source: bool,
        install_location: InstallLocationView,
    },
    StdlibExtensionsPolicy { policy: Seq<char> },
    StdlibExtensionsExplicitIncludes { includes: Seq<Seq<char>> },
    StdlibExtensionsExplicitExcludes { excludes: Seq<Seq<char>> },
    StdlibExtensionVariant { extension: Seq<char>, variant: Seq<char> },
    Stdlib {
        optimize_level: i64,
        exclude_test_modules: bool,
        include_source: bool,
        include_resources: bool,
        install_location: InstallLocationView,
    },
    Virtualenv {
        path: Seq<char>,
        optimize_level: i64,
        excludes: Seq<Seq<char>>,
        include_source: bool,
        install_location: InstallLocationView,
    },
    PackageRoot {
        path: Seq<char>,
        packages: Seq<Seq<char>>,
        optimize_level: i64,
        excludes: Seq<Seq<char>>,
        include_source: bool,
        install_location: InstallLocationView,
    },
    PipInstallSimple {
        package: Seq<char>,
        optimize_level: i64,
        excludes: Seq<Seq<char>>,
        include_source: bool,
        install_location: InstallLocationView,
        extra_args: Option<Seq<Seq<char>>>,
    },
    PipRequirementsFile {
        requirements_path: Seq<char>,
        optimize_level: i64,
        include_source: bool,
        install_location: InstallLocationView,
    },
    FilterInclude { files: Seq<Seq<char>>, glob_files: Seq<Seq<char>> },
    WriteLicenseFiles { path: Seq<char> },
}

impl View for PythonPackaging {
    type V = PythonPackagingView;

    open spec fn view(&self) -> PythonPackagingView {
        match self {
            PythonPackaging::SetupPyInstall(p) => PythonPackagingView::SetupPyInstall {
                path: p.path@,
                extra_env: p.extra_env@,
                extra_global_arguments: p.extra_global_arguments.deep_view(),
                optimize_level: p.optimize_level,
                include_source: p.include_source,
                install_location: p.install_location@,
            },
            PythonPackaging::StdlibExtensionsPolicy(p) => PythonPackagingView::StdlibExtensionsPolicy {
                policy: p.policy@,
            },
            PythonPackaging::StdlibExtensionsExplicitIncludes(p) => {
                PythonPackagingView::StdlibExtensionsExplicitIncludes {
                    includes: p.includes.deep_view(),
                }
            },
            PythonPackaging::StdlibExtensionsExplicitExcludes(p) => {
                PythonPackagingView::StdlibExtensionsExplicitExcludes {
                    excludes: p.excludes.deep_view(),
                }
            },
            PythonPackaging::StdlibExtensionVariant(p) => PythonPackagingView::StdlibExtensionVariant {
                extension: p.extension@,
                variant: p.variant@,
            },
            PythonPackaging::Stdlib(p) => PythonPackagingView::Stdlib {
                optimize_level: p.optimize_level,
                exclude_test_modules: p.exclude_test_modules,
                include_source: p.include_source,
                include_resources: p.include_resources,
                install_location: p.install_location@,
            },
            PythonPackaging::Virtualenv(p) => PythonPackagingView::Virtualenv {
                path: p.path@,
                optimize_level: p.optimize_level,
                excludes: p.excludes.deep_view(),
                include_source: p.include_source,
                install_location: p.install_location@,
            },
            PythonPackaging::PackageRoot(p) => PythonPackagingView::PackageRoot {
                path: p.path@,
                packages: p.packages.deep_view(),
                optimize_level: p.optimize_level,
                excludes: p.excludes.deep_view(),
                include_source: p.include_source,
                install_location: p.install_location@,
            },
            PythonPackaging::PipInstallSimple(p) => PythonPackagingView::PipInstallSimple {
                package: p.package@,
                optimize_level: p.optimize_level,
                excludes: p.excludes.deep_view(),
                include_source: p.include_source,
                install_location: p.install_location@,
                extra_args: p.extra_args.deep_view(),
            },
            PythonPackaging::PipRequirementsFile(p) => PythonPackagingView::PipRequirementsFile {
                requirements_path: p.requirements_path@,
                optimize_level: p.optimize_level,
                include_source: p.include_source,
                install_location: p.install_location@,
            },
            PythonPackaging::FilterInclude(p) => PythonPackagingView::FilterInclude {
                files: p.files.deep_view(),
                glob_files: p.glob_files.deep_view(),
            },
            PythonPackaging::WriteLicenseFiles(p) => PythonPackagingView::WriteLicenseFiles {
                path: p.path@,
            },
        }
    }
}

/// What the embedded interpreter does once it has started.
#[derive(Clone, Debug)]
pub enum RunMode {
    Noop,
    Repl,
    Module { module: String },
    Eval { code: String },
}

pub enum RunModeView {
    Noop,
    Repl,
    Module { module: Seq<char> },
    Eval { code: Seq<char> },
}

impl View for RunMode {
    type V = RunModeView;

    open spec fn view(&self) -> RunModeView {
        match self {
            RunMode::Noop => RunModeView::Noop,
            RunMode::Repl => RunModeView::Repl,
            RunMode::Module { module } => RunModeView::Module { module: module@ },
            RunMode::Eval { code } => RunModeView::Eval { code: code@ },
        }
    }
}

#[derive(Clone, Debug)]
pub struct DistributionTarball {
    pub path_prefix: Option<String>,
}

#[derive(Clone, Debug)]
pub struct DistributionWixInstaller {
    pub msi_upgrade_code_x86: Option<String>,
    pub msi_upgrade_code_amd64: Option<String>,
    pub bundle_upgrade_code: Option<String>,
}

/// One form in which the built application is distributed.
#[derive(Clone, Debug)]
pub enum Distribution {
    Tarball(DistributionTarball),
    WixInstaller(DistributionWixInstaller),
}

pub enum DistributionView {
    Tarball { path_prefix: Option<Seq<char>> },
    WixInstaller {
        msi_upgrade_code_x86: Option<Seq<char>>,
        msi_upgrade_code_amd64: Option<Seq<char>>,
        bundle_upgrade_code: Option<Seq<char>>,
    },
}

impl View for Distribution {
    type V = DistributionView;

    open spec fn view(&self) -> DistributionView {
        match self {
            Distribution::Tarball(d) => DistributionView::Tarball {
                path_prefix: d.path_prefix.deep_view(),
            },
            Distribution::WixInstaller(d) => DistributionView::WixInstaller {
                msi_upgrade_code_x86: d.msi_upgrade_code_x86.deep_view(),
                msi_upgrade_code_amd64: d.msi_upgrade_code_amd64.deep_view(),
                bundle_upgrade_code: d.bundle_upgrade_code.deep_view(),
            },
        }
    }
}

/// How the terminfo database is found at run time.
#[derive(Clone, Debug)]
pub enum TerminfoResolution {
    Dynamic,
    Disabled,
    Static(String),
}

pub enum TerminfoResolutionView {
    Dynamic,
    Disabled,
    Static(Seq<char>),
}

impl View for TerminfoResolution {
    type V = TerminfoResolutionView;

    open spec fn view(&self) -> TerminfoResolutionView {
        match self {
            TerminfoResolution::Dynamic => TerminfoResolutionView::Dynamic,
            TerminfoResolution::Disabled => TerminfoResolutionView::Disabled,
            TerminfoResolution::Static(dirs) => TerminfoResolutionView::Static(dirs@),
        }
    }
}

/// The view of each element of a vector, in order.
pub open spec fn views<T: View>(items: Seq<T>) -> Seq<T::V> {
    Seq::new(items.len(), |i: int| items[i]@)
}

/// A manifest resolved against one build target.
#[derive(Clone, Debug)]
pub struct Config {
    pub config_path: String,
    pub build_config: BuildConfig,
    pub dont_write_bytecode: bool,
    pub ignore_environment: bool,
    pub no_site: bool,
    pub no_user_site_directory: bool,
    pub optimize_level: i64,
    pub python_distribution: PythonDistribution,
    pub stdio_encoding_name: Option<String>,
    pub stdio_encoding_errors: Option<String>,
    pub unbuffered_stdio: bool,
    pub python_packaging: Vec<PythonPackaging>,
    pub run: RunMode,
    pub filesystem_importer: bool,
    pub sys_frozen: bool,
    pub sys_meipass: bool,
    pub sys_paths: Vec<String>,
    pub raw_allocator: RawAllocator,
    pub terminfo_resolution: TerminfoResolution,
    pub write_modules_directory_env: Option<String>,
    pub distributions: Vec<Distribution>,
}

pub struct ConfigView {
    pub config_path: Seq<char>,
    pub build_config: BuildConfigView,
    pub dont_write_bytecode: bool,
    pub ignore_environment: bool,
    pub no_site: bool,
    pub no_user_site_directory: bool,
    pub optimize_level: i64,
    pub python_distribution: PythonDistributionView,
    pub stdio_encoding_name: Option<Seq<char>>,
    pub stdio_encoding_errors: Option<Seq<char>>,
    pub unbuffered_stdio: bool,
    pub python_packaging: Seq<PythonPackagingView>,
    pub run: RunModeView,
    pub filesystem_importer: bool,
    pub sys_frozen: bool,
    pub sys_meipass: bool,
    pub sys_paths: Seq<Seq<char>>,
    pub raw_allocator: RawAllocator,
    pub terminfo_resolution: TerminfoResolutionView,
    pub write_modules_directory_env: Option<Seq<char>>,
    pub distributions: Seq<DistributionView>,
}

impl View for Config {
    type V = ConfigView;

    open spec fn view(&self) -> ConfigView {
        ConfigView {
            config_path: self.config_path@,
            build_config: self.build_config@,
            dont_write_bytecode: self.dont_write_bytecode,
            ignore_environment: self.ignore_environment,
            no_site: self.no_site,
            no_user_site_directory: self.no_user_site_directory,
            optimize_level: self.optimize_level,
            python_distribution: self.python_distribution@,
            stdio_encoding_name: self.stdio_encoding_name.deep_view(),
            stdio_encoding_errors: self.stdio_encoding_errors.deep_view(),
            unbuffered_stdio: self.unbuffered_stdio,
            python_packaging: views(self.python_packaging@),
            run: self.run@,
            filesystem_importer: self.filesystem_importer,
            sys_frozen: self.sys_frozen,
            sys_meipass: self.sys_meipass,
            sys_paths: self.sys_paths.deep_view(),
            raw_allocator: self.raw_allocator,
            terminfo_resolution: self.terminfo_resolution@,
            write_modules_directory_env: self.write_modules_directory_env.deep_view(),
            distributions: views(self.distributions@),
        }
    }
}

} // verus!
