//! Interpreter settings: how `[[embedded_python_config]]` entries are
//! layered over the defaults.

use crate::config::{Config, ConfigView, TerminfoResolution, TerminfoResolutionView};
use crate::error::{ConfigError, ConfigErrorView};
use crate::manifest::{ConfigPython, ConfigTerminfoResolution};
use crate::resolve::outcome;
use crate::target::{target_applies, target_matches};
use crate::text::{clone_strings, find_char, find_from};
use vstd::prelude::*;
use vstd::string::*;

verus! {

/// The two parts of a `stdio_encoding` value: the encoding's name is what
/// stands before the first `:`, the error mode what follows it, up to a
/// second `:` if there is one. A value without `:` has no parts.
pub open spec fn stdio_encoding_of(value: Seq<char>) -> Option<(Seq<char>, Seq<char>)> {
    let first = find_from(value, ':', 0);
    if first >= value.len() {
        None
    } else {
        Some(
            (
                value.subrange(0, first),
                value.subrange(first + 1, find_from(value, ':', first + 1)),
            ),
        )
    }
}

/// Splits a `stdio_encoding` value into encoding name and error mode.
pub fn parse_stdio_encoding(value: &str) -> (parts: Option<(String, String)>)
    ensures
        parts.deep_view() == stdio_encoding_of(value@),
{
    let first = find_char(value, ':', 0);
    if first >= value.unicode_len() {
        return None;
    }
    let second = find_char(value, ':', first + 1);
    let name = value.substring_char(0, first).to_owned();
    let errors = value.substring_char(first + 1, second).to_owned();
    Some((name, errors))
}

/// The value that a setting takes when an entry may or may not state it.
pub open spec fn stated_or<T>(stated: Option<T>, current: T) -> T {
    match stated {
        Some(value) => value,
        None => current,
    }
}

/// The two parts of the entry's `stdio_encoding`, if it states one that has them.
pub open spec fn stated_encoding(entry: ConfigPython) -> Option<(Seq<char>, Seq<char>)> {
    match entry.stdio_encoding {
        Some(value) => stdio_encoding_of(value@),
        None => None,
    }
}

/// What makes an entry unusable, if anything: an optimization level other
/// than 0, 1 or 2, a `stdio_encoding` without its two parts, or a static
/// terminfo database without directories, looked for in this order.
pub open spec fn setting_fault(entry: ConfigPython) -> Option<ConfigErrorView> {
    if entry.optimize_level is Some && !(0 <= entry.optimize_level->0 <= 2) {
        Some(ConfigErrorView::InvalidOptimizeLevel { value: entry.optimize_level->0 })
    } else if entry.stdio_encoding is Some && stdio_encoding_of(entry.stdio_encoding->0@) is None {
        Some(ConfigErrorView::InvalidStdioEncoding { value: entry.stdio_encoding->0@ })
    } else if entry.terminfo_resolution matches Some(ConfigTerminfoResolution::Static)
        && entry.terminfo_dirs is None {
        Some(ConfigErrorView::TerminfoDirsRequired)
    } else {
        None
    }
}

/// The terminfo resolution after an entry, given the one before it.
pub open spec fn stated_terminfo(
    entry: ConfigPython,
    current: TerminfoResolutionView,
) -> TerminfoResolutionView {
    match entry.terminfo_resolution {
        None => current,
        Some(ConfigTerminfoResolution::Dynamic) => TerminfoResolutionView::Dynamic,
        Some(ConfigTerminfoResolution::Disabled) => TerminfoResolutionView::Disabled,
        Some(ConfigTerminfoResolution::Static) => match entry.terminfo_dirs {
            Some(dirs) => TerminfoResolutionView::Static(dirs@),
            None => current,
        },
    }
}

/// The settings after a usable entry that applies: each field that the entry
/// states replaces the running value, and every other field keeps it.
pub open spec fn overlay(current: ConfigView, entry: ConfigPython) -> ConfigView {
    ConfigView {
        dont_write_bytecode: stated_or(entry.dont_write_bytecode, current.dont_write_bytecode),
        ignore_environment: stated_or(entry.ignore_environment, current.ignore_environment),
        no_site: stated_or(entry.no_site, current.no_site),
        no_user_site_directory: stated_or(
            entry.no_user_site_directory,
            current.no_user_site_directory,
        ),
        optimize_level: stated_or(entry.optimize_level, current.optimize_level),
        stdio_encoding_name: match stated_encoding(entry) {
            Some(parts) => Some(parts.0),
            None => current.stdio_encoding_name,
        },
        stdio_encoding_errors: match stated_encoding(entry) {
            Some(parts) => Some(parts.1),
            None => current.stdio_encoding_errors,
        },
        unbuffered_stdio: stated_or(entry.unbuffered_stdio, current.unbuffered_stdio),
        filesystem_importer: stated_or(entry.filesystem_importer, current.filesystem_importer),
        sys_frozen: stated_or(entry.sys_frozen, current.sys_frozen),
        sys_meipass: stated_or(entry.sys_meipass, current.sys_meipass),
        sys_paths: match entry.sys_paths {
            Some(paths) => paths.deep_view(),
            None => current.sys_paths,
        },
        raw_allocator: stated_or(entry.raw_allocator, current.raw_allocator),
        terminfo_resolution: stated_terminfo(entry, current.terminfo_resolution),
        write_modules_directory_env: match entry.write_modules_directory_env {
            Some(name) => Some(name@),
            None => current.write_modules_directory_env,
        },
        ..current
    }
}

/// The effect of one entry on the settings: none unless it applies to the
/// target; a fault if it applies and is unusable; else its overlay.
pub open spec fn apply_python(
    current: ConfigView,
    entry: ConfigPython,
    target: Seq<char>,
) -> Result<ConfigView, ConfigErrorView> {
    if !target_applies(entry.build_target@, target) {
        Ok(current)
    } else {
        match setting_fault(entry) {
            Some(fault) => Err(fault),
            None => Ok(overlay(current, entry)),
        }
    }
}

/// The settings after the first `n` entries, starting from `base`; the fault
/// of the first unusable entry that applies.
pub open spec fn python_upto(
    entries: Seq<ConfigPython>,
    n: nat,
    target: Seq<char>,
    base: ConfigView,
) -> Result<ConfigView, ConfigErrorView>
    decreases n,
{
    if n == 0 {
        Ok(base)
    } else {
        match python_upto(entries, (n - 1) as nat, target, base) {
            Ok(current) => apply_python(current, entries[n - 1], target),
            Err(fault) => Err(fault),
        }
    }
}

/// The stated value, or else the current one.
fn pick<T>(stated: Option<T>, current: T) -> (value: T)
    ensures
        value == stated_or(stated, current),
{
    match stated {
        Some(value) => value,
        None => current,
    }
}

/// A copy of the stated text, or else the current one.
fn pick_text(stated: &Option<String>, current: Option<String>) -> (value: Option<String>)
    ensures
        value.deep_view() == match *stated {
            Some(text) => Some(text@),
            None => current.deep_view(),
        },
{
    match stated {
        Some(text) => Some(text.clone()),
        None => current,
    }
}

/// A copy of the stated list, or else the current one.
fn pick_list(stated: &Option<Vec<String>>, current: Vec<String>) -> (value: Vec<String>)
    ensures
        value.deep_view() == match *stated {
            Some(list) => list.deep_view(),
            None => current.deep_view(),
        },
{
    match stated {
        Some(list) => clone_strings(list),
        None => current,
    }
}

/// The terminfo resolution after the entry, given the one before it.
fn next_terminfo(entry: &ConfigPython, current: TerminfoResolution) -> (next: TerminfoResolution)
    ensures
        next@ == stated_terminfo(*entry, current@),
{
    match &entry.terminfo_resolution {
        Some(ConfigTerminfoResolution::Dynamic) => TerminfoResolution::Dynamic,
        Some(ConfigTerminfoResolution::Disabled) => TerminfoResolution::Disabled,
        Some(ConfigTerminfoResolution::Static) => match &entry.terminfo_dirs {
            Some(dirs) => TerminfoResolution::Static(dirs.clone()),
            None => current,
        },
        None => current,
    }
}

/// The stated text, or else the current one.
fn prefer(stated: Option<String>, current: Option<String>) -> (value: Option<String>)
    ensures
        value.deep_view() == match stated {
            Some(text) => Some(text@),
            None => current.deep_view(),
        },
{
    match stated {
        Some(text) => Some(text),
        None => current,
    }
}

/// Encoding name and error mode, each apart.
fn unzip(parts: Option<(String, String)>) -> (halves: (Option<String>, Option<String>))
    ensures
        halves.0.deep_view() == match parts {
            Some(pair) => Some(pair.0@),
            None => None,
        },
        halves.1.deep_view() == match parts {
            Some(pair) => Some(pair.1@),
            None => None,
        },
{
    match parts {
        Some(pair) => (Some(pair.0), Some(pair.1)),
        None => (None, None),
    }
}

/// Looks for what makes the entry unusable, and hands back the parts of its
/// `stdio_encoding` when nothing does.
pub fn check_entry(entry: &ConfigPython) -> (checked: Result<Option<(String, String)>, ConfigError>)
    ensures
        match setting_fault(*entry) {
            Some(fault) => checked matches Err(found) && found@ == fault,
            None => checked matches Ok(parts) && parts.deep_view() == stated_encoding(*entry),
        },
{
    match entry.optimize_level {
        Some(value) => {
            if value < 0 || value > 2 {
                return Err(ConfigError::InvalidOptimizeLevel { value });
            }
        },
        None => {},
    }
    let parts = match &entry.stdio_encoding {
        Some(value) => match parse_stdio_encoding(value.as_str()) {
            Some(parts) => Some(parts),
            None => {
                return Err(ConfigError::InvalidStdioEncoding { value: value.clone() });
            },
        },
        None => None,
    };
    match (&entry.terminfo_resolution, &entry.terminfo_dirs) {
        (Some(ConfigTerminfoResolution::Static), None) => Err(ConfigError::TerminfoDirsRequired),
        _ => Ok(parts),
    }
}

/// The settings with the entry laid over them, given the parts of its
/// `stdio_encoding`.
fn overlay_config(config: Config, entry: &ConfigPython, parts: Option<(String, String)>) -> (next:
    Config)
    requires
        parts.deep_view() == stated_encoding(*entry),
    ensures
        next@ == overlay(config@, *entry),
{
    let (name, errors) = unzip(parts);
    Config {
        config_path: config.config_path,
        build_config: config.build_config,
        dont_write_bytecode: pick(entry.dont_write_bytecode, config.dont_write_bytecode),
        ignore_environment: pick(entry.ignore_environment, config.ignore_environment),
        no_site: pick(entry.no_site, config.no_site),
        no_user_site_directory: pick(entry.no_user_site_directory, config.no_user_site_directory),
        optimize_level: pick(entry.optimize_level, config.optimize_level),
        python_distribution: config.python_distribution,
        stdio_encoding_name: prefer(name, config.stdio_encoding_name),
        stdio_encoding_errors: prefer(errors, config.stdio_encoding_errors),
        unbuffered_stdio: pick(entry.unbuffered_stdio, config.unbuffered_stdio),
        python_packaging: config.python_packaging,
        run: config.run,
        filesystem_importer: pick(entry.filesystem_importer, config.filesystem_importer),
        sys_frozen: pick(entry.sys_frozen, config.sys_frozen),
        sys_meipass: pick(entry.sys_meipass, config.sys_meipass),
        sys_paths: pick_list(&entry.sys_paths, config.sys_paths),
        raw_allocator: pick(entry.raw_allocator, config.raw_allocator),
        terminfo_resolution: next_terminfo(entry, config.terminfo_resolution),
        write_modules_directory_env: pick_text(
            &entry.write_modules_directory_env,
            config.write_modules_directory_env,
        ),
        distributions: config.distributions,
    }
}

/// Lays one entry over the settings in `config`.
pub fn apply_python_config(config: Config, entry: &ConfigPython, target: &str) -> (applied: Result<
    Config,
    ConfigError,
>)
    ensures
        outcome(applied) == apply_python(config@, *entry, target@),
{
    if !target_matches(entry.build_target.as_str(), target) {
        return Ok(config);
    }
    match check_entry(entry) {
        Ok(parts) => Ok(overlay_config(config, entry, parts)),
        Err(fault) => Err(fault),
    }
}

/// Lays every entry over the settings in `config`, in order, and stops at
/// the first fault.
pub fn resolve_python(config: Config, entries: &Vec<ConfigPython>, target: &str) -> (applied:
    Result<Config, ConfigError>)
    ensures
        outcome(applied) == python_upto(entries@, entries@.len(), target@, config@),
{
    let ghost base = config@;
    let mut current = config;
    let mut i: usize = 0;
    while i < entries.len()
        invariant
            i <= entries.len(),
            base == config@,
            python_upto(entries@, i as nat, target@, base) == Ok::<ConfigView, ConfigErrorView>(
                current@,
            ),
        decreases entries.len() - i,
    {
        match apply_python_config(current, &entries[i], target) {
            Ok(next) => {
                current = next;
            },
            Err(fault) => {
                proof {
                    lemma_fault_stays(entries@, (i + 1) as nat, entries@.len(), target@, base);
                }
                return Err(fault);
            },
        }
        i += 1;
    }
    Ok(current)
}

/// Once the first `n` entries have given a fault, more entries give the same.
pub proof fn lemma_fault_stays(
    entries: Seq<ConfigPython>,
    n: nat,
    m: nat,
    target: Seq<char>,
    base: ConfigView,
)
    requires
        n <= m,
        python_upto(entries, n, target, base) is Err,
    ensures
        python_upto(entries, m, target, base) == python_upto(entries, n, target, base),
    decreases m,
{
    if n < m {
        lemma_fault_stays(entries, n, (m - 1) as nat, target, base);
    }
}

} // verus!
