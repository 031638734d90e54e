//! The resource policy: whether resources are kept in the binary, beside
//! it, or in the binary where that is possible.

use crate::text::{has_prefix, starts_with, str_eq};
use vstd::prelude::*;
use vstd::string::*;

verus! {

/// A place in which a resource can be kept.
#[derive(Clone, Copy, Debug, PartialEq, Eq, Structural)]
pub enum ResourceLocation {
    /// In the produced binary, loaded from memory.
    InMemory,
    /// In a file at a path relative to the produced binary.
    RelativePath,
}

/// Where the resources of a packaging run may be kept.
#[derive(Clone, Debug)]
pub enum ResourcePolicy {
    /// In memory, and nowhere else.
    InMemoryOnly,
    /// In files under the given prefix, and nowhere else.
    FilesystemRelativeOnly(String),
    /// In memory where that is possible, else in files under the given prefix.
    PreferInMemoryFallbackFilesystemRelative(String),
}

pub enum ResourcePolicyView {
    InMemoryOnly,
    FilesystemRelativeOnly(Seq<char>),
    PreferInMemoryFallbackFilesystemRelative(Seq<char>),
}

impl View for ResourcePolicy {
    type V = ResourcePolicyView;

    open spec fn view(&self) -> ResourcePolicyView {
        match self {
            ResourcePolicy::InMemoryOnly => ResourcePolicyView::InMemoryOnly,
            ResourcePolicy::FilesystemRelativeOnly(prefix) => {
                ResourcePolicyView::FilesystemRelativeOnly(prefix@)
            },
            ResourcePolicy::PreferInMemoryFallbackFilesystemRelative(prefix) => {
                ResourcePolicyView::PreferInMemoryFallbackFilesystemRelative(prefix@)
            },
        }
    }
}

impl ResourcePolicyView {
    /// The string that names the policy.
    pub open spec fn text(self) -> Seq<char> {
        match self {
            ResourcePolicyView::InMemoryOnly => "in-memory-only"@,
            ResourcePolicyView::FilesystemRelativeOnly(prefix) => {
                "filesystem-relative-only:"@ + prefix
            },
            ResourcePolicyView::PreferInMemoryFallbackFilesystemRelative(prefix) => {
                "prefer-in-memory-fallback-filesystem-relative:"@ + prefix
            },
        }
    }

    /// Whether the policy lets a resource be kept in memory.
    pub open spec fn allows_in_memory(self) -> bool {
        !(self is FilesystemRelativeOnly)
    }

    /// The places in which the policy lets a resource be kept, the
    /// preferred one first.
    pub open spec fn locations(self) -> Seq<ResourceLocation> {
        match self {
            ResourcePolicyView::InMemoryOnly => seq![ResourceLocation::InMemory],
            ResourcePolicyView::FilesystemRelativeOnly(_) => seq![ResourceLocation::RelativePath],
            ResourcePolicyView::PreferInMemoryFallbackFilesystemRelative(_) => seq![
                ResourceLocation::InMemory,
                ResourceLocation::RelativePath,
            ],
        }
    }
}

/// The policy that a string names: `in-memory-only`, or one of the two
/// prefixed forms followed by a path prefix. Every other string names none.
/// Nothing is trimmed or case-folded.
pub open spec fn policy_of(value: Seq<char>) -> Option<ResourcePolicyView> {
    if value == "in-memory-only"@ {
        Some(ResourcePolicyView::InMemoryOnly)
    } else if has_prefix(value, "filesystem-relative-only:"@) {
        Some(
            ResourcePolicyView::FilesystemRelativeOnly(
                value.subrange("filesystem-relative-only:"@.len() as int, value.len() as int),
            ),
        )
    } else if has_prefix(value, "prefer-in-memory-fallback-filesystem-relative:"@) {
        Some(
            ResourcePolicyView::PreferInMemoryFallbackFilesystemRelative(
                value.subrange(
                    "prefer-in-memory-fallback-filesystem-relative:"@.len() as int,
                    value.len() as int,
                ),
            ),
        )
    } else {
        None
    }
}

impl ResourcePolicy {
    /// Parses the string that names a policy.
    pub fn parse(value: &str) -> (parsed: Option<ResourcePolicy>)
        ensures
            parsed.deep_view() == policy_of(value@),
    {
        if str_eq(value, "in-memory-only") {
            Some(ResourcePolicy::InMemoryOnly)
        } else if starts_with(value, "filesystem-relative-only:") {
            let start = "filesystem-relative-only:".unicode_len();
            let prefix = value.substring_char(start, value.unicode_len()).to_owned();
            Some(ResourcePolicy::FilesystemRelativeOnly(prefix))
        } else if starts_with(value, "prefer-in-memory-fallback-filesystem-relative:") {
            let start = "prefer-in-memory-fallback-filesystem-relative:".unicode_len();
            let prefix = value.substring_char(start, value.unicode_len()).to_owned();
            Some(ResourcePolicy::PreferInMemoryFallbackFilesystemRelative(prefix))
        } else {
            None
        }
    }

    /// The string that names the policy.
    pub fn text(&self) -> (text: String)
        ensures
            text@ == self@.text(),
    {
        match self {
            ResourcePolicy::InMemoryOnly => "in-memory-only".to_owned(),
            ResourcePolicy::FilesystemRelativeOnly(prefix) => {
                "filesystem-relative-only:".to_owned().concat(prefix.as_str())
            },
            ResourcePolicy::PreferInMemoryFallbackFilesystemRelative(prefix) => {
                "prefer-in-memory-fallback-filesystem-relative:".to_owned().concat(prefix.as_str())
            },
        }
    }

    /// The places in which the policy lets a resource be kept, the
    /// preferred one first.
    pub fn locations(&self) -> (places: Vec<ResourceLocation>)
        ensures
            places@ == self@.locations(),
    {
        let mut places: Vec<ResourceLocation> = Vec::new();
        match self {
            ResourcePolicy::InMemoryOnly => {
                places.push(ResourceLocation::InMemory);
            },
            ResourcePolicy::FilesystemRelativeOnly(_) => {
                places.push(ResourceLocation::RelativePath);
            },
            ResourcePolicy::PreferInMemoryFallbackFilesystemRelative(_) => {
                places.push(ResourceLocation::InMemory);
                places.push(ResourceLocation::RelativePath);
            },
        }
        assert(places@ =~= self@.locations());
        places
    }
}

impl DeepView for ResourcePolicy {
    type V = ResourcePolicyView;

    open spec fn deep_view(&self) -> ResourcePolicyView {
        self@
    }
}

} // verus!
