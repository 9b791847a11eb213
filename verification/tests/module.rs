//! The declared surface of the bus module.

use tinybox::capability::{IsolationLevel, SandboxCapabilities, SnapshotSupport};
use tinybox::module::{describe, registered_sandboxes, BoxService, INTERFACE, VERSION};

/// A container-class backend.
fn container() -> SandboxCapabilities {
    SandboxCapabilities::new(
        IsolationLevel::Kernel,
        SnapshotSupport::Filesystem,
        true,
        false,
        true,
    )
}

/// A backend too weak to be trusted with untrusted code.
fn bare() -> SandboxCapabilities {
    SandboxCapabilities::passthrough()
}

#[test]
fn declared_methods_match_the_dispatch_table() {
    let methods = BoxService
        .members()
        .into_iter()
        .map(|member| member.to_string())
        .collect::<Vec<_>>();

    assert_eq!(methods, ["Describe"]);
}

#[test]
fn an_empty_registry_is_reported_as_none_rather_than_omitted() {
    // No backends are compiled in yet, and the module says so plainly rather
    // than leaving the reader to infer it from an absent list.
    assert!(registered_sandboxes().is_empty());

    let description = describe(&registered_sandboxes());

    assert!(description.contains(VERSION));
    assert!(description.contains("kernel"));
    assert!(description.contains("sandboxes: none"));
    assert!(description.contains("untrusted-capable"));
    assert!(description.ends_with("none"));
}

#[test]
fn a_populated_registry_lists_every_sandbox() {
    let description = describe(&[("docker", container()), ("namespace", container())]);

    assert!(description.contains("sandboxes: docker, namespace"));
    assert!(description.ends_with("docker, namespace"));
}

#[test]
fn only_sandboxes_above_the_isolation_floor_are_called_untrusted_capable() {
    let description = describe(&[("passthrough", bare()), ("docker", container())]);

    // Both are listed as present...
    assert!(description.contains("sandboxes: passthrough, docker"));
    // ...but only the one that actually confines anything is recommended.
    assert!(description.ends_with("docker"));
    assert!(!description.ends_with("passthrough, docker"));
}

#[test]
fn a_registry_of_only_weak_sandboxes_recommends_nothing() {
    let description = describe(&[("passthrough", bare())]);

    assert!(description.contains("sandboxes: passthrough"));
    assert!(description.ends_with("none"));
}

#[test]
fn the_description_is_exact() {
    assert_eq!(
        describe(&[("docker", container())]),
        "tinybox 0.1.0; isolation floor for untrusted code: kernel; sandboxes: docker; \
         untrusted-capable: docker"
    );
    assert_eq!(INTERFACE, "ai.tinyhumans.tinybox.Box");
}

#[test]
fn an_unknown_method_is_rejected() {
    assert_eq!(BoxService.call("Snapshot"), None);
    assert_eq!(
        BoxService.call("Describe"),
        Some(describe(&registered_sandboxes()))
    );
    for member in BoxService.members() {
        assert!(BoxService.call(&member).is_some());
    }
}
