//! Parsing of install locations as manifests write them.

use crate::config::{InstallLocation, InstallLocationView};
use crate::error::{ConfigError, ConfigErrorView};
use crate::resolve::outcome;
use crate::text::{has_prefix, starts_with, str_eq};
use vstd::prelude::*;
use vstd::string::*;

verus! {

/// What an install location string means: `embedded` is the binary itself,
/// `app-relative:` followed by a path is that path beside the binary, and
/// every other string means nothing. Nothing is trimmed or case-folded.
pub open spec fn install_location_of(value: Seq<char>) -> Option<InstallLocationView> {
    if value == "embedded"@ {
        Some(InstallLocationView::Embedded)
    } else if has_prefix(value, "app-relative:"@) {
        Some(
            InstallLocationView::AppRelative {
                path: value.subrange("app-relative:"@.len() as int, value.len() as int),
            },
        )
    } else {
        None
    }
}

/// The install location that a string means, or the fault that names the
/// string when it means none.
pub open spec fn located(value: Seq<char>) -> Result<InstallLocationView, ConfigErrorView> {
    match install_location_of(value) {
        Some(location) => Ok(location),
        None => Err(ConfigErrorView::InvalidInstallLocation { value }),
    }
}

/// Parses an install location, or reports the string that does not parse.
pub fn resolve_install_location(value: &str) -> (parsed: Result<InstallLocation, ConfigError>)
    ensures
        outcome(parsed) == located(value@),
{
    if str_eq(value, "embedded") {
        Ok(InstallLocation::Embedded)
    } else if starts_with(value, "app-relative:") {
        let start = "app-relative:".unicode_len();
        let path = value.substring_char(start, value.unicode_len()).to_owned();
        Ok(InstallLocation::AppRelative { path })
    } else {
        Err(ConfigError::InvalidInstallLocation { value: value.to_owned() })
    }
}

} // verus!
