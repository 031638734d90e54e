use pyoxidizer_config::collector::{
    CollectorError, OxidizedResourceCollector, PythonModuleSource, PythonResource,
};
use pyoxidizer_config::policy::{ResourceLocation, ResourcePolicy};

fn module(name: &str, source: &[u8], is_package: bool) -> PythonResource {
    PythonResource::ModuleSource(PythonModuleSource {
        name: name.to_string(),
        source: source.to_vec(),
        is_package,
        cache_tag: "cpython-38".to_string(),
        is_stdlib: false,
        is_test: false,
    })
}

#[test]
fn policy_strings_parse_to_their_variants() {
    assert!(matches!(ResourcePolicy::parse("in-memory-only"), Some(ResourcePolicy::InMemoryOnly)));
    match ResourcePolicy::parse("filesystem-relative-only:lib") {
        Some(ResourcePolicy::FilesystemRelativeOnly(prefix)) => assert_eq!(prefix, "lib"),
        other => panic!("unexpected policy: {:?}", other),
    }
    match ResourcePolicy::parse("prefer-in-memory-fallback-filesystem-relative:lib/py") {
        Some(ResourcePolicy::PreferInMemoryFallbackFilesystemRelative(prefix)) => {
            assert_eq!(prefix, "lib/py")
        }
        other => panic!("unexpected policy: {:?}", other),
    }
    match ResourcePolicy::parse("filesystem-relative-only:") {
        Some(ResourcePolicy::FilesystemRelativeOnly(prefix)) => assert_eq!(prefix, ""),
        other => panic!("unexpected policy: {:?}", other),
    }
}

#[test]
fn policy_strings_are_not_normalized() {
    for value in [
        "",
        "bogus",
        "in-memory-only ",
        " in-memory-only",
        "In-Memory-Only",
        "in-memory",
        "filesystem-relative-only",
        "prefer-in-memory-fallback-filesystem-relative",
    ] {
        assert!(ResourcePolicy::parse(value).is_none(), "{:?} should name no policy", value);
    }
}

#[test]
fn policy_text_is_the_string_that_parses_to_it() {
    for value in [
        "in-memory-only",
        "filesystem-relative-only:lib",
        "prefer-in-memory-fallback-filesystem-relative:a:b",
    ] {
        assert_eq!(ResourcePolicy::parse(value).unwrap().text(), value);
    }
}

#[test]
fn policy_locations_put_the_preferred_place_first() {
    assert_eq!(ResourcePolicy::InMemoryOnly.locations(), vec![ResourceLocation::InMemory]);
    assert_eq!(
        ResourcePolicy::FilesystemRelativeOnly("lib".to_string()).locations(),
        vec![ResourceLocation::RelativePath]
    );
    assert_eq!(
        ResourcePolicy::PreferInMemoryFallbackFilesystemRelative("lib".to_string()).locations(),
        vec![ResourceLocation::InMemory, ResourceLocation::RelativePath]
    );
}

#[test]
fn unrecognized_policy_fails_at_construction() {
    match OxidizedResourceCollector::new("bogus", "cpython-38") {
        Err(fault) => {
            match &fault {
                CollectorError::InvalidPolicyString { value } => assert_eq!(value, "bogus"),
                other => panic!("unexpected fault: {:?}", other),
            }
            assert_eq!(fault.message(), "invalid value for Python Resources Policy: bogus");
        }
        Ok(_) => panic!("a collector was made for a policy that does not exist"),
    }
}

#[test]
fn new_collector_is_empty_and_remembers_its_inputs() {
    let collector =
        OxidizedResourceCollector::new("prefer-in-memory-fallback-filesystem-relative:lib", "tag")
            .unwrap();
    assert_eq!(collector.policy(), "prefer-in-memory-fallback-filesystem-relative:lib");
    assert_eq!(collector.cache_tag(), "tag");
    assert_eq!(collector.len(), 0);
    assert_eq!(collector.package_flag("foo"), None);
}

#[test]
fn module_source_is_recorded_under_its_name() {
    let mut collector = OxidizedResourceCollector::new("in-memory-only", "cpython-38").unwrap();
    assert!(collector.add_in_memory(&module("foo", b"import os", false)).is_ok());
    assert_eq!(collector.len(), 1);
    assert_eq!(collector.package_flag("foo"), Some(false));
    assert_eq!(collector.package_flag("fo"), None);
    assert!(collector.add_in_memory(&module("foo.bar", b"", true)).is_ok());
    assert_eq!(collector.len(), 2);
    assert_eq!(collector.package_flag("foo.bar"), Some(true));
    assert_eq!(collector.package_flag("foo"), Some(false));
}

#[test]
fn unsupported_kind_is_refused_and_changes_nothing() {
    let mut collector = OxidizedResourceCollector::new("in-memory-only", "cpython-38").unwrap();
    collector.add_in_memory(&module("foo", b"x = 1", false)).unwrap();
    let fault = collector
        .add_in_memory(&PythonResource::Other { kind: "PythonExtensionModule".to_string() })
        .unwrap_err();
    match &fault {
        CollectorError::UnsupportedResourceKind { kind } => {
            assert_eq!(kind, "PythonExtensionModule")
        }
        other => panic!("unexpected fault: {:?}", other),
    }
    assert_eq!(fault.message(), "cannot operate on PythonExtensionModule values");
    assert_eq!(collector.len(), 1);
    assert_eq!(collector.package_flag("foo"), Some(false));
    assert_eq!(collector.package_flag("PythonExtensionModule"), None);
}

#[test]
fn filesystem_only_policy_refuses_in_memory_resources() {
    let mut collector =
        OxidizedResourceCollector::new("filesystem-relative-only:lib", "cpython-38").unwrap();
    let fault = collector.add_in_memory(&module("foo", b"x = 1", false)).unwrap_err();
    match &fault {
        CollectorError::PolicyViolation { reason } => {
            assert_eq!(reason, "resource collector does not allow resources in in-memory");
        }
        other => panic!("unexpected fault: {:?}", other),
    }
    assert_eq!(
        fault.message(),
        "resource collector does not allow resources in in-memory"
    );
    assert_eq!(collector.len(), 0);
    assert_eq!(collector.package_flag("foo"), None);
    assert!(collector.add_in_memory(&module("foo", b"x = 1", false)).is_err());
    assert_eq!(collector.len(), 0);
}

#[test]
fn unsupported_kind_comes_before_the_policy() {
    let mut collector =
        OxidizedResourceCollector::new("filesystem-relative-only:lib", "cpython-38").unwrap();
    assert!(matches!(
        collector.add_in_memory(&PythonResource::Other { kind: "int".to_string() }),
        Err(CollectorError::UnsupportedResourceKind { .. })
    ));
}

#[test]
fn preferring_memory_accepts_in_memory_resources() {
    let mut collector =
        OxidizedResourceCollector::new("prefer-in-memory-fallback-filesystem-relative:lib", "t")
            .unwrap();
    assert!(collector.add_in_memory(&module("pkg", b"", true)).is_ok());
    assert_eq!(collector.package_flag("pkg"), Some(true));
}

#[test]
fn same_module_may_be_submitted_again() {
    let mut collector = OxidizedResourceCollector::new("in-memory-only", "cpython-38").unwrap();
    collector.add_in_memory(&module("foo", b"x = 1", false)).unwrap();
    assert!(collector.add_in_memory(&module("foo", b"x = 2", false)).is_ok());
    assert_eq!(collector.len(), 1);
    assert_eq!(collector.package_flag("foo"), Some(false));
}

#[test]
fn resubmission_replaces_the_package_flag() {
    let mut collector = OxidizedResourceCollector::new("in-memory-only", "cpython-38").unwrap();
    collector.add_in_memory(&module("foo", b"x = 1", false)).unwrap();
    assert!(collector.add_in_memory(&module("foo", b"", true)).is_ok());
    assert_eq!(collector.len(), 1);
    assert_eq!(collector.package_flag("foo"), Some(true));
    assert!(collector.add_in_memory(&module("foo", b"x = 3", false)).is_ok());
    assert_eq!(collector.len(), 1);
    assert_eq!(collector.package_flag("foo"), Some(false));
}

#[test]
fn duplicate_resource_message_names_the_resource() {
    assert_eq!(
        CollectorError::DuplicateResource { name: "foo".to_string() }.message(),
        "resource foo is already collected as another kind"
    );
}

#[test]
fn many_modules_are_counted_once_each() {
    let mut collector = OxidizedResourceCollector::new("in-memory-only", "cpython-38").unwrap();
    for round in 0..3 {
        for index in 0..20 {
            let name = format!("pkg.module_{}", index);
            collector.add_in_memory(&module(&name, &[round as u8], false)).unwrap();
        }
    }
    assert_eq!(collector.len(), 20);
    assert_eq!(collector.package_flag("pkg.module_19"), Some(false));
    assert_eq!(collector.package_flag("pkg.module_20"), None);
    assert_eq!(collector.package_flag("pkg"), None);
}
