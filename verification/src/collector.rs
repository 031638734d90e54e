//! The resource collector: a ledger of the resources of one packaging run,
//! each placed as the policy allows.
//!
//! The ledger itself is kept by `python_packaging`'s `PythonResourceCollector`.
//! What this module claims of that type without proof is in the items marked
//! `external_body`; everything built on them is verified.

use crate::policy::{policy_of, ResourceLocation, ResourcePolicy, ResourcePolicyView};
use python_packaging::location::{AbstractResourceLocation, ConcreteResourceLocation};
use python_packaging::resource::DataLocation;
use python_packaging::resource_collection::PythonResourceCollector;
use vstd::prelude::*;
use vstd::string::*;

verus! {

/// `python_packaging::resource_collection::PythonResourceCollector`.
#[verifier::external_type_specification]
#[verifier::external_body]
pub struct ExPythonResourceCollector(PythonResourceCollector);

/// What a collector holds: for each resource name, whether the resource is
/// a package, and its source as staged in memory.
pub uninterp spec fn collected(collector: PythonResourceCollector) -> Map<
    Seq<char>,
    (bool, Seq<u8>),
>;

/// The ledger of a collector that holds nothing.
pub open spec fn nothing_collected() -> Map<Seq<char>, (bool, Seq<u8>)> {
    Map::empty()
}

/// The words in which a collector refuses a resource that would be kept in
/// memory.
pub open spec fn in_memory_refusal() -> Seq<char> {
    "resource collector does not allow resources in in-memory"@
}

/// Whether a collector was made to accept resources that are kept in memory.
pub uninterp spec fn accepts_in_memory(collector: PythonResourceCollector) -> bool;

/// `PythonResourceCollector::new`, with the same places allowed for
/// extension modules as for every other resource. The new collector holds
/// nothing; it accepts in-memory resources exactly if `allowed` names that
/// place.
#[verifier::external_body]
fn new_collector(
    allowed: &Vec<ResourceLocation>,
    new_builtins: bool,
    cache_tag: &str,
) -> (collector: PythonResourceCollector)
    ensures
        collected(collector) == nothing_collected(),
        accepts_in_memory(collector) == allowed@.contains(ResourceLocation::InMemory),
{
    let places: Vec<AbstractResourceLocation> = allowed.iter().map(
        |place| match place {
            ResourceLocation::InMemory => AbstractResourceLocation::InMemory,
            ResourceLocation::RelativePath => AbstractResourceLocation::RelativePath,
        },
    ).collect();
    PythonResourceCollector::new(places.clone(), places, new_builtins, cache_tag)
}

/// `PythonResourceCollector::add_python_module_source`, for the in-memory
/// location. A collector that accepts in-memory resources records the
/// module under its name, in place of what it held under that name; any
/// other collector is left as it was, and its refusal comes back as the
/// text of the error that it gave.
#[verifier::external_body]
fn add_module_source(
    collector: &mut PythonResourceCollector,
    module: &PythonModuleSource,
) -> (added: Result<(), String>)
    ensures
        accepts_in_memory(*final(collector)) == accepts_in_memory(*old(collector)),
        added is Ok == accepts_in_memory(*old(collector)),
        added is Ok ==> collected(*final(collector)) == collected(*old(collector)).insert(
            module.name@,
            (module.is_package, module.source@),
        ),
        added is Err ==> collected(*final(collector)) == collected(*old(collector)),
        added matches Err(reason) ==> reason@ == in_memory_refusal(),
{
    let outside = python_packaging::resource::PythonModuleSource {
        name: module.name.clone(),
        source: DataLocation::Memory(module.source.clone()),
        is_package: module.is_package,
        cache_tag: module.cache_tag.clone(),
        is_stdlib: module.is_stdlib,
        is_test: module.is_test,
    };
    collector.add_python_module_source(&outside, &ConcreteResourceLocation::InMemory).map_err(
        |refusal| refusal.to_string(),
    )
}

/// `PythonResourceCollector::iter_resources`: every name that the collector
/// holds, once, each with the package flag recorded under it.
#[verifier::external_body]
fn recorded(collector: &PythonResourceCollector) -> (entries: Vec<(String, bool)>)
    ensures
        forall|i: int|
            0 <= i < entries.len() ==> collected(*collector).contains_key(#[trigger] entries[i].0@)
                && collected(*collector)[entries[i].0@].0 == entries[i].1,
        forall|name: Seq<char>| #[trigger]
            collected(*collector).contains_key(name) ==> exists|i: int|
                0 <= i < entries.len() && #[trigger] entries[i].0@ == name,
        forall|i: int, j: int|
            0 <= i < j < entries.len() ==> #[trigger] entries[i].0@ != #[trigger] entries[j].0@,
{
    collector.iter_resources().map(|(name, resource)| (name.clone(), resource.is_package)).collect()
}

/// A Python module given by its source code.
#[derive(Clone, Debug)]
pub struct PythonModuleSource {
    /// The module's full name, dots between its parts.
    pub name: String,
    /// The source code.
    pub source: Vec<u8>,
    /// Whether the module is a package.
    pub is_package: bool,
    /// The tag that goes into the names of bytecode files.
    pub cache_tag: String,
    /// Whether the module belongs to the standard library.
    pub is_stdlib: bool,
    /// Whether the module holds tests.
    pub is_test: bool,
}

/// A resource handed to the collector.
#[derive(Clone, Debug)]
pub enum PythonResource {
    /// The source of a module.
    ModuleSource(PythonModuleSource),
    /// A resource of some other kind, which is named.
    Other { kind: String },
}

pub enum PythonResourceView {
    ModuleSource { name: Seq<char>, source: Seq<u8>, is_package: bool },
    Other { kind: Seq<char> },
}

impl View for PythonResource {
    type V = PythonResourceView;

    open spec fn view(&self) -> PythonResourceView {
        match self {
            PythonResource::ModuleSource(module) => PythonResourceView::ModuleSource {
                name: module.name@,
                source: module.source@,
                is_package: module.is_package,
            },
            PythonResource::Other { kind } => PythonResourceView::Other { kind: kind@ },
        }
    }
}

/// Why the collector could not be made, or refused a resource.
#[derive(Clone, Debug)]
pub enum CollectorError {
    /// The string names no resource policy.
    InvalidPolicyString { value: String },
    /// The collector does not take resources of this kind.
    UnsupportedResourceKind { kind: String },
    /// The policy does not let the resource be kept in memory.
    PolicyViolation { reason: String },
    /// The name is taken by a resource of a kind that the new one cannot
    /// stand for. One module source always stands for another, so no
    /// resource that the collector takes today is refused for this.
    DuplicateResource { name: String },
}

pub enum CollectorErrorView {
    InvalidPolicyString { value: Seq<char> },
    UnsupportedResourceKind { kind: Seq<char> },
    PolicyViolation { reason: Seq<char> },
    DuplicateResource { name: Seq<char> },
}

impl CollectorErrorView {
    /// The sentence that reports the fault to a user.
    pub open spec fn text(self) -> Seq<char> {
        match self {
            CollectorErrorView::InvalidPolicyString { value } => {
                "invalid value for Python Resources Policy: "@ + value
            },
            CollectorErrorView::UnsupportedResourceKind { kind } => {
                "cannot operate on "@ + kind + " values"@
            },
            CollectorErrorView::PolicyViolation { reason } => reason,
            CollectorErrorView::DuplicateResource { name } => {
                "resource "@ + name + " is already collected as another kind"@
            },
        }
    }
}

impl View for CollectorError {
    type V = CollectorErrorView;

    open spec fn view(&self) -> CollectorErrorView {
        match self {
            CollectorError::InvalidPolicyString { value } => {
                CollectorErrorView::InvalidPolicyString { value: value@ }
            },
            CollectorError::UnsupportedResourceKind { kind } => {
                CollectorErrorView::UnsupportedResourceKind { kind: kind@ }
            },
            CollectorError::PolicyViolation { reason } => {
                CollectorErrorView::PolicyViolation { reason: reason@ }
            },
            CollectorError::DuplicateResource { name } => {
                CollectorErrorView::DuplicateResource { name: name@ }
            },
        }
    }
}

impl CollectorError {
    /// The sentence that reports the fault to a user.
    pub fn message(&self) -> (text: String)
        ensures
            text@ == self@.text(),
    {
        match self {
            CollectorError::InvalidPolicyString { value } => {
                "invalid value for Python Resources Policy: ".to_owned().concat(value.as_str())
            },
            CollectorError::UnsupportedResourceKind { kind } => {
                "cannot operate on ".to_owned().concat(kind.as_str()).concat(" values")
            },
            CollectorError::PolicyViolation { reason } => reason.clone(),
            CollectorError::DuplicateResource { name } => {
                "resource ".to_owned().concat(name.as_str()).concat(
                    " is already collected as another kind",
                )
            },
        }
    }
}

/// What submitting a resource does to a ledger kept under a policy. Only the
/// source of a module is taken, and only under a policy that lets it be
/// kept in memory. It is recorded under its name; what the ledger held
/// under that name, package flag and source, gives way to it.
pub open spec fn submitted(
    policy: ResourcePolicyView,
    ledger: Map<Seq<char>, (bool, Seq<u8>)>,
    resource: PythonResourceView,
) -> Result<Map<Seq<char>, (bool, Seq<u8>)>, CollectorErrorView> {
    match resource {
        PythonResourceView::Other { kind } => Err(
            CollectorErrorView::UnsupportedResourceKind { kind },
        ),
        PythonResourceView::ModuleSource { name, source, is_package } => {
            if policy.allows_in_memory() {
                Ok(ledger.insert(name, (is_package, source)))
            } else {
                Err(CollectorErrorView::PolicyViolation { reason: in_memory_refusal() })
            }
        },
    }
}

/// The fault that reports a string that names no policy.
pub open spec fn invalid_policy(value: Seq<char>) -> CollectorErrorView {
    CollectorErrorView::InvalidPolicyString { value }
}

/// The ledger of one packaging run, with the policy and the cache tag that
/// it was made for.
pub struct OxidizedResourceCollector {
    policy: ResourcePolicy,
    cache_tag: String,
    collector: PythonResourceCollector,
}

impl OxidizedResourceCollector {
    /// The policy is the one that the ledger enforces, and a ledger that takes
    /// nothing in memory holds nothing. Every collector that `new` makes is
    /// well formed, and `add_in_memory` keeps it so.
    pub closed spec fn wf(&self) -> bool {
        &&& accepts_in_memory(self.collector) == self.policy@.allows_in_memory()
        &&& !self.policy@.allows_in_memory() ==> collected(self.collector) == nothing_collected()
    }

    /// The policy that the collector was made with.
    pub closed spec fn policy_view(&self) -> ResourcePolicyView {
        self.policy@
    }

    /// The cache tag that the collector was made with.
    pub closed spec fn tag(&self) -> Seq<char> {
        self.cache_tag@
    }

    /// For each name recorded: whether the resource is a package, and its
    /// source.
    pub closed spec fn ledger(&self) -> Map<Seq<char>, (bool, Seq<u8>)> {
        collected(self.collector)
    }

    /// Makes an empty collector for the policy that `policy` names. A string
    /// that names no policy is reported at once.
    pub fn new(policy: &str, cache_tag: &str) -> (made: Result<Self, CollectorError>)
        ensures
            match policy_of(policy@) {
                Some(named) => {
                    &&& made matches Ok(collector) && collector.wf()
                        && collector.policy_view() == named && collector.tag() == cache_tag@
                        && collector.ledger() == nothing_collected()
                },
                None => {
                    &&& made matches Err(fault) && fault@ == invalid_policy(policy@)
                },
            },
    {
        match ResourcePolicy::parse(policy) {
            Some(named) => {
                let places = named.locations();
                let collector = new_collector(&places, false, cache_tag);
                assert(named@.allows_in_memory() ==> places@[0] == ResourceLocation::InMemory);
                Ok(
                    OxidizedResourceCollector {
                        policy: named,
                        cache_tag: cache_tag.to_owned(),
                        collector,
                    },
                )
            },
            None => Err(CollectorError::InvalidPolicyString { value: policy.to_owned() }),
        }
    }

    /// The string that names the collector's policy.
    pub fn policy(&self) -> (text: String)
        ensures
            text@ == self.policy_view().text(),
    {
        self.policy.text()
    }

    /// The cache tag that the collector was made with.
    pub fn cache_tag(&self) -> (tag: &String)
        ensures
            tag@ == self.tag(),
    {
        &self.cache_tag
    }

    /// The number of names recorded.
    pub fn len(&self) -> (count: usize)
        ensures
            count == self.ledger().len(),
            self.ledger().dom().finite(),
    {
        let entries = recorded(&self.collector);
        proof {
            lemma_names_count(self.ledger(), entries@);
        }
        entries.len()
    }

    /// Whether the resource recorded under `name` is a package; nothing if
    /// the name is not recorded.
    pub fn package_flag(&self, name: &str) -> (flag: Option<bool>)
        ensures
            flag == if self.ledger().contains_key(name@) {
                Some(self.ledger()[name@].0)
            } else {
                None
            },
    {
        let entries = recorded(&self.collector);
        find_flag(&entries, name, Ghost(self.ledger()))
    }

    /// Submits a resource. A refused resource leaves the ledger as it was.
    pub fn add_in_memory(&mut self, resource: &PythonResource) -> (added: Result<
        (),
        CollectorError,
    >)
        requires
            old(self).wf(),
        ensures
            final(self).wf(),
            final(self).policy_view() == old(self).policy_view(),
            final(self).tag() == old(self).tag(),
            match submitted(old(self).policy_view(), old(self).ledger(), resource@) {
                Ok(ledger) => added is Ok && final(self).ledger() == ledger,
                Err(fault) => {
                    &&& added matches Err(found) && found@ == fault
                    &&& final(self).ledger() == old(self).ledger()
                },
            },
    {
        match resource {
            PythonResource::Other { kind } => Err(
                CollectorError::UnsupportedResourceKind { kind: kind.clone() },
            ),
            PythonResource::ModuleSource(module) => {
                match add_module_source(&mut self.collector, module) {
                    Ok(()) => Ok(()),
                    Err(reason) => Err(CollectorError::PolicyViolation { reason }),
                }
            },
        }
    }

    /// A collector whose policy keeps nothing in memory holds nothing: so a
    /// ledger that holds a name belongs to a policy under which every module
    /// source is taken.
    pub proof fn law_refusing_collector_is_empty(&self)
        requires
            self.wf(),
        ensures
            !self.policy_view().allows_in_memory() ==> self.ledger() == nothing_collected(),
            self.ledger().dom().len() > 0 ==> self.policy_view().allows_in_memory(),
    {
        if !self.policy_view().allows_in_memory() {
            assert(self.ledger().dom() =~= Set::empty());
        }
    }
}

/// Under a policy that keeps resources in memory every module source is
/// taken, whatever the ledger holds: it is recorded under its name with its
/// own package flag and source, and every other name keeps what it had.
pub proof fn law_module_source_is_recorded(
    policy: ResourcePolicyView,
    ledger: Map<Seq<char>, (bool, Seq<u8>)>,
    name: Seq<char>,
    source: Seq<u8>,
    is_package: bool,
)
    requires
        policy.allows_in_memory(),
    ensures
        submitted(policy, ledger, PythonResourceView::ModuleSource { name, source, is_package })
            matches Ok(next) && next.dom() == ledger.dom().insert(name) && next[name] == (
            is_package,
            source,
        ) && (forall|other: Seq<char>|
            other != name && ledger.contains_key(other) ==> #[trigger] next[other]
                == ledger[other]),
{
    let next = ledger.insert(name, (is_package, source));
    assert(next.dom() =~= ledger.dom().insert(name));
}

/// No submission is refused as a duplicate.
pub proof fn law_no_submission_is_a_duplicate(
    policy: ResourcePolicyView,
    ledger: Map<Seq<char>, (bool, Seq<u8>)>,
    resource: PythonResourceView,
)
    ensures
        submitted(policy, ledger, resource) matches Err(fault) ==> !(fault is DuplicateResource),
{
}

/// Looks `name` up in the entries of a ledger.
fn find_flag(
    entries: &Vec<(String, bool)>,
    name: &str,
    Ghost(ledger): Ghost<Map<Seq<char>, (bool, Seq<u8>)>>,
) -> (flag: Option<bool>)
    requires
        forall|i: int|
            0 <= i < entries.len() ==> ledger.contains_key(#[trigger] entries[i].0@)
                && ledger[entries[i].0@].0 == entries[i].1,
        forall|name: Seq<char>| #[trigger]
            ledger.contains_key(name) ==> exists|i: int|
                0 <= i < entries.len() && #[trigger] entries[i].0@ == name,
    ensures
        flag == if ledger.contains_key(name@) {
            Some(ledger[name@].0)
        } else {
            None
        },
{
    let mut i: usize = 0;
    while i < entries.len()
        invariant
            i <= entries.len(),
            forall|j: int| 0 <= j < i ==> #[trigger] entries[j].0@ != name@,
            forall|i: int|
                0 <= i < entries.len() ==> ledger.contains_key(#[trigger] entries[i].0@)
                    && ledger[entries[i].0@].0 == entries[i].1,
        decreases entries.len() - i,
    {
        if crate::text::str_eq(entries[i].0.as_str(), name) {
            return Some(entries[i].1);
        }
        i += 1;
    }
    None
}

/// A ledger whose names are listed once each has as many names as the list
/// has entries.
proof fn lemma_names_count(ledger: Map<Seq<char>, (bool, Seq<u8>)>, entries: Seq<(String, bool)>)
    requires
        forall|i: int| 0 <= i < entries.len() ==> ledger.contains_key(#[trigger] entries[i].0@),
        forall|name: Seq<char>| #[trigger]
            ledger.contains_key(name) ==> exists|i: int|
                0 <= i < entries.len() && #[trigger] entries[i].0@ == name,
        forall|i: int, j: int|
            0 <= i < j < entries.len() ==> #[trigger] entries[i].0@ != #[trigger] entries[j].0@,
    ensures
        ledger.dom().finite(),
        ledger.len() == entries.len(),
    decreases entries.len(),
{
    if entries.len() == 0 {
        assert(ledger.dom() =~= Set::empty());
    } else {
        let last = entries.last().0@;
        let rest = entries.drop_last();
        let smaller = ledger.remove(last);
        assert forall|name: Seq<char>| #[trigger] smaller.contains_key(name) implies exists|i: int|
            0 <= i < rest.len() && #[trigger] rest[i].0@ == name by {
            let i = choose|i: int| 0 <= i < entries.len() && #[trigger] entries[i].0@ == name;
            assert(rest[i].0@ == name);
        }
        assert forall|i: int| 0 <= i < rest.len() implies smaller.contains_key(
            #[trigger] rest[i].0@,
        ) by {
            assert(entries[i].0@ != entries[entries.len() - 1].0@);
        }
        lemma_names_count(smaller, rest);
        assert(ledger.dom() =~= smaller.dom().insert(last));
    }
}

} // verus!
