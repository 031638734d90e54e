//! Why a manifest could not be resolved.

use crate::text::{decimal, decimal_text};
use vstd::prelude::*;
use vstd::string::*;

verus! {

/// The first fault met while resolving a manifest.
#[derive(Clone, Debug)]
pub enum ConfigError {
    /// No applicable `[[build]]` entry names the application.
    MissingApplicationName,
    /// The manifest declares no `[[python_distribution]]` at all.
    NoDistributionSections,
    /// No `[[python_distribution]]` entry applies to the target.
    NoMatchingDistribution { target: String },
    /// An applicable `optimize_level` is not 0, 1 or 2.
    InvalidOptimizeLevel { value: i64 },
    /// An applicable `stdio_encoding` has no `:` between name and error mode.
    InvalidStdioEncoding { value: String },
    /// `terminfo_resolution = "static"` comes without `terminfo_dirs`.
    TerminfoDirsRequired,
    /// No applicable packaging rule states the policy on stdlib extensions.
    MissingStdlibExtensionsPolicy,
    /// No applicable packaging rule packages the standard library.
    MissingStdlibRule,
    /// An applicable packaging rule names an install location that does not parse.
    InvalidInstallLocation { value: String },
}

pub enum ConfigErrorView {
    MissingApplicationName,
    NoDistributionSections,
    NoMatchingDistribution { target: Seq<char> },
    InvalidOptimizeLevel { value: i64 },
    InvalidStdioEncoding { value: Seq<char> },
    TerminfoDirsRequired,
    MissingStdlibExtensionsPolicy,
    MissingStdlibRule,
    InvalidInstallLocation { value: Seq<char> },
}

impl ConfigErrorView {
    /// The sentence that reports the fault to a user.
    pub open spec fn text(self) -> Seq<char> {
        match self {
            ConfigErrorView::MissingApplicationName => "no [[build]] application_name defined"@,
            ConfigErrorView::NoDistributionSections => "no [[python_distribution]] sections"@,
            ConfigErrorView::NoMatchingDistribution { target } => {
                "no suitable Python distributions found for target "@ + target
            },
            ConfigErrorView::InvalidOptimizeLevel { value } => {
                "illegal optimize_level "@ + decimal_text(value as int)
                    + "; value must be 0, 1, or 2"@
            },
            ConfigErrorView::InvalidStdioEncoding { value } => {
                "illegal stdio_encoding "@ + value + "; value must be of the form name:errors"@
            },
            ConfigErrorView::TerminfoDirsRequired => {
                "terminfo_resolution = static requires terminfo_dirs to be set"@
            },
            ConfigErrorView::MissingStdlibExtensionsPolicy => {
                "no `type = \"stdlib-extensions-policy\"` entry in `[[packaging_rule]]`"@
            },
            ConfigErrorView::MissingStdlibRule => {
                "no `type = \"stdlib\"` entry in `[[packaging_rule]]`"@
            },
            ConfigErrorView::InvalidInstallLocation { value } => {
                "invalid install_location: "@ + value
            },
        }
    }
}

impl View for ConfigError {
    type V = ConfigErrorView;

    open spec fn view(&self) -> ConfigErrorView {
        match self {
            ConfigError::MissingApplicationName => ConfigErrorView::MissingApplicationName,
            ConfigError::NoDistributionSections => ConfigErrorView::NoDistributionSections,
            ConfigError::NoMatchingDistribution { target } => {
                ConfigErrorView::NoMatchingDistribution { target: target@ }
            },
            ConfigError::InvalidOptimizeLevel { value } => {
                ConfigErrorView::InvalidOptimizeLevel { value: *value }
            },
            ConfigError::InvalidStdioEncoding { value } => {
                ConfigErrorView::InvalidStdioEncoding { value: value@ }
            },
            ConfigError::TerminfoDirsRequired => ConfigErrorView::TerminfoDirsRequired,
            ConfigError::MissingStdlibExtensionsPolicy => {
                ConfigErrorView::MissingStdlibExtensionsPolicy
            },
            ConfigError::MissingStdlibRule => ConfigErrorView::MissingStdlibRule,
            ConfigError::InvalidInstallLocation { value } => {
                ConfigErrorView::InvalidInstallLocation { value: value@ }
            },
        }
    }
}

impl ConfigError {
    /// The sentence that reports the fault to a user.
    pub fn message(&self) -> (text: String)
        ensures
            text@ == self@.text(),
    {
        match self {
            ConfigError::MissingApplicationName => {
                "no [[build]] application_name defined".to_owned()
            },
            ConfigError::NoDistributionSections => {
                "no [[python_distribution]] sections".to_owned()
            },
            ConfigError::NoMatchingDistribution { target } => {
                "no suitable Python distributions found for target ".to_owned().concat(
                    target.as_str(),
                )
            },
            ConfigError::InvalidOptimizeLevel { value } => {
                let number = decimal(*value);
                "illegal optimize_level ".to_owned().concat(number.as_str()).concat(
                    "; value must be 0, 1, or 2",
                )
            },
            ConfigError::InvalidStdioEncoding { value } => {
                "illegal stdio_encoding ".to_owned().concat(value.as_str()).concat(
                    "; value must be of the form name:errors",
                )
            },
            ConfigError::TerminfoDirsRequired => {
                "terminfo_resolution = static requires terminfo_dirs to be set".to_owned()
            },
            ConfigError::MissingStdlibExtensionsPolicy => {
                "no `type = \"stdlib-extensions-policy\"` entry in `[[packaging_rule]]`".to_owned()
            },
            ConfigError::MissingStdlibRule => {
                "no `type = \"stdlib\"` entry in `[[packaging_rule]]`".to_owned()
            },
            ConfigError::InvalidInstallLocation { value } => {
                "invalid install_location: ".to_owned().concat(value.as_str())
            },
        }
    }
}

/// The report of a fault met while reading the manifest at `config_path`.
pub open spec fn reading_error_text(config_path: Seq<char>, message: Seq<char>) -> Seq<char> {
    "err reading config "@ + config_path + ": "@ + message
}

/// Puts the manifest's path in front of a fault's message.
pub fn reading_error(config_path: &str, message: &str) -> (text: String)
    ensures
        text@ == reading_error_text(config_path@, message@),
{
    "err reading config ".to_owned().concat(config_path).concat(": ").concat(message)
}

} // verus!
