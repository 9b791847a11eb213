//! Capability declaration and enforcement.

use tinybox::capability::{Capability, IsolationLevel, SandboxCapabilities, SnapshotSupport};
use tinybox::error::Error;

/// A hypervisor-backed sandbox: everything available.
fn microvm() -> SandboxCapabilities {
    SandboxCapabilities::new(
        IsolationLevel::Hardware,
        SnapshotSupport::FilesystemAndMemory,
        true,
        true,
        true,
    )
}

/// A container sandbox: isolated and snapshottable, but no memory capture.
fn container() -> SandboxCapabilities {
    SandboxCapabilities::new(
        IsolationLevel::Kernel,
        SnapshotSupport::Filesystem,
        true,
        false,
        true,
    )
}

#[test]
fn passthrough_admits_it_isolates_nothing() {
    let caps = SandboxCapabilities::passthrough();

    assert_eq!(caps.isolation, IsolationLevel::Nothing);
    assert_eq!(caps.snapshot, SnapshotSupport::Nothing);
    assert!(!caps.is_suitable_for_untrusted_code());
    assert!(!caps.supports(Capability::Fork));
    assert!(!caps.supports(Capability::PauseResume));
    assert!(!caps.supports(Capability::PortForward));
    assert!(!caps.supports(Capability::FilesystemSnapshot));
    assert!(!caps.supports(Capability::MemorySnapshot));
}

#[test]
fn require_names_the_sandbox_and_the_missing_capability() {
    let error = SandboxCapabilities::passthrough()
        .require("passthrough", Capability::Fork)
        .err();

    assert_eq!(
        error,
        Some(Error::Unsupported {
            sandbox: "passthrough".to_owned(),
            capability: Capability::Fork,
        })
    );
    assert!(error.is_some_and(
        |error| error.to_string() == "sandbox passthrough does not support forking"
    ));
}

#[test]
fn require_passes_for_a_declared_capability() {
    assert!(microvm()
        .require("microvm", Capability::MemorySnapshot)
        .is_ok());
    assert!(container()
        .require("docker", Capability::FilesystemSnapshot)
        .is_ok());
}

#[test]
fn a_filesystem_sandbox_refuses_memory_snapshots() {
    assert!(container().supports(Capability::FilesystemSnapshot));
    assert!(!container().supports(Capability::MemorySnapshot));

    assert!(container()
        .require("docker", Capability::MemorySnapshot)
        .err()
        .is_some_and(|error| error.to_string().contains("memory snapshots")));

    assert!(!container().supports(Capability::PauseResume));
    assert!(container().supports(Capability::PortForward));
    assert!(container().supports(Capability::Fork));
}

#[test]
fn kernel_isolation_is_the_floor_for_untrusted_code() {
    assert!(!SandboxCapabilities::passthrough().is_suitable_for_untrusted_code());
    assert!(container().is_suitable_for_untrusted_code());
    assert!(microvm().is_suitable_for_untrusted_code());

    let process_only = SandboxCapabilities::new(
        IsolationLevel::Process,
        SnapshotSupport::Nothing,
        false,
        false,
        false,
    );
    assert!(!process_only.is_suitable_for_untrusted_code());
}

#[test]
fn isolation_levels_are_ordered_from_weakest_to_strongest() {
    assert!(IsolationLevel::Nothing < IsolationLevel::Process);
    assert!(IsolationLevel::Process < IsolationLevel::Kernel);
    assert!(IsolationLevel::Kernel < IsolationLevel::Hardware);

    assert!(IsolationLevel::Hardware.is_at_least(IsolationLevel::Kernel));
    assert!(IsolationLevel::Kernel.is_at_least(IsolationLevel::Kernel));
    assert!(!IsolationLevel::Process.is_at_least(IsolationLevel::Kernel));
}

#[test]
fn snapshot_support_reports_what_it_captures() {
    assert!(!SnapshotSupport::Nothing.captures_filesystem());
    assert!(!SnapshotSupport::Nothing.captures_memory());

    assert!(SnapshotSupport::Filesystem.captures_filesystem());
    assert!(!SnapshotSupport::Filesystem.captures_memory());

    assert!(SnapshotSupport::FilesystemAndMemory.captures_filesystem());
    assert!(SnapshotSupport::FilesystemAndMemory.captures_memory());
}

#[test]
fn every_vocabulary_type_renders_for_error_messages() {
    assert_eq!(IsolationLevel::Nothing.to_string(), "none");
    assert_eq!(IsolationLevel::Process.to_string(), "process");
    assert_eq!(IsolationLevel::Kernel.to_string(), "kernel");
    assert_eq!(IsolationLevel::Hardware.to_string(), "hardware");

    assert_eq!(SnapshotSupport::Nothing.to_string(), "no snapshots");
    assert_eq!(
        SnapshotSupport::Filesystem.to_string(),
        "filesystem snapshots"
    );
    assert_eq!(
        SnapshotSupport::FilesystemAndMemory.to_string(),
        "filesystem and memory snapshots"
    );

    assert_eq!(
        Capability::FilesystemSnapshot.to_string(),
        "filesystem snapshots"
    );
    assert_eq!(Capability::MemorySnapshot.to_string(), "memory snapshots");
    assert_eq!(Capability::Fork.to_string(), "forking");
    assert_eq!(Capability::PauseResume.to_string(), "pause and resume");
    assert_eq!(Capability::PortForward.to_string(), "port forwarding");
    assert_eq!(Capability::ResourceLimits.to_string(), "resource limits");
}

#[test]
fn resource_limits_are_declared_separately() {
    assert!(!container().supports(Capability::ResourceLimits));
    assert!(container()
        .with_resource_limits()
        .supports(Capability::ResourceLimits));
    assert_eq!(
        SandboxCapabilities::passthrough()
            .require("passthrough", Capability::ResourceLimits)
            .err(),
        Some(Error::Unsupported {
            sandbox: "passthrough".to_owned(),
            capability: Capability::ResourceLimits,
        })
    );
}
