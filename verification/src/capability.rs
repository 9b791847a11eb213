//! What a sandbox can actually do, and how a caller is told when it cannot.
//!
//! Every sandbox declares a [`SandboxCapabilities`] describing its real
//! behavior. The declaration is checked before an operation is dispatched, and
//! an undeclared one is refused rather than emulated badly.

use vstd::prelude::*;

use crate::error::Error;

verus! {

/// How strongly a sandbox separates guest code from the host, from weakest to
/// strongest.
#[derive(Debug, Clone, Copy, PartialEq, Eq, PartialOrd, Ord)]
pub enum IsolationLevel {
    /// Nothing is separated.
    Nothing,
    /// The guest is a process of its own.
    Process,
    /// The guest cannot see or signal host processes.
    Kernel,
    /// The guest has a machine of its own.
    Hardware,
}

impl IsolationLevel {
    /// Where this level stands among the four.
    pub open spec fn strength(self) -> int {
        match self {
            IsolationLevel::Nothing => 0,
            IsolationLevel::Process => 1,
            IsolationLevel::Kernel => 2,
            IsolationLevel::Hardware => 3,
        }
    }

    /// How the level is shown.
    pub open spec fn text(self) -> Seq<char> {
        match self {
            IsolationLevel::Nothing => "none"@,
            IsolationLevel::Process => "process"@,
            IsolationLevel::Kernel => "kernel"@,
            IsolationLevel::Hardware => "hardware"@,
        }
    }

    /// Where this level stands among the four.
    fn rank(&self) -> (rank: u8)
        ensures
            rank == self.strength(),
    {
        match self {
            IsolationLevel::Nothing => 0,
            IsolationLevel::Process => 1,
            IsolationLevel::Kernel => 2,
            IsolationLevel::Hardware => 3,
        }
    }

    /// Whether this level separates at least as strongly as `floor`.
    pub fn is_at_least(&self, floor: IsolationLevel) -> (answer: bool)
        ensures
            answer == (self.strength() >= floor.strength()),
    {
        self.rank() >= floor.rank()
    }

    /// The level in words.
    pub fn to_string(&self) -> (text: String)
        ensures
            text@ == self.text(),
    {
        match self {
            IsolationLevel::Nothing => "none".to_owned(),
            IsolationLevel::Process => "process".to_owned(),
            IsolationLevel::Kernel => "kernel".to_owned(),
            IsolationLevel::Hardware => "hardware".to_owned(),
        }
    }
}

/// What a sandbox can capture and restore.
#[derive(Debug, Clone, Copy, PartialEq, Eq)]
pub enum SnapshotSupport {
    /// Nothing.
    Nothing,
    /// The filesystem alone.
    Filesystem,
    /// The filesystem and live memory.
    FilesystemAndMemory,
}

impl SnapshotSupport {
    /// How the support is shown.
    pub open spec fn text(self) -> Seq<char> {
        match self {
            SnapshotSupport::Nothing => "no snapshots"@,
            SnapshotSupport::Filesystem => "filesystem snapshots"@,
            SnapshotSupport::FilesystemAndMemory => "filesystem and memory snapshots"@,
        }
    }

    /// Whether a snapshot holds the filesystem.
    pub fn captures_filesystem(&self) -> (answer: bool)
        ensures
            answer == !(self is Nothing),
    {
        match self {
            SnapshotSupport::Nothing => false,
            _ => true,
        }
    }

    /// Whether a snapshot holds live memory.
    pub fn captures_memory(&self) -> (answer: bool)
        ensures
            answer == (self is FilesystemAndMemory),
    {
        match self {
            SnapshotSupport::FilesystemAndMemory => true,
            _ => false,
        }
    }

    /// The support in words.
    pub fn to_string(&self) -> (text: String)
        ensures
            text@ == self.text(),
    {
        match self {
            SnapshotSupport::Nothing => "no snapshots".to_owned(),
            SnapshotSupport::Filesystem => "filesystem snapshots".to_owned(),
            SnapshotSupport::FilesystemAndMemory => "filesystem and memory snapshots".to_owned(),
        }
    }
}

/// One thing that a caller may need of a sandbox.
#[derive(Debug, Clone, Copy, PartialEq, Eq)]
pub enum Capability {
    /// Capturing the filesystem of a box.
    FilesystemSnapshot,
    /// Capturing the live memory of a box.
    MemorySnapshot,
    /// Branching a snapshot into an independent box.
    Fork,
    /// Freezing and thawing a running box.
    PauseResume,
    /// Publishing a guest port to the host.
    PortForward,
    /// Capping what a box consumes.
    ResourceLimits,
}

impl Capability {
    /// How the capability is shown.
    pub open spec fn text(self) -> Seq<char> {
        match self {
            Capability::FilesystemSnapshot => "filesystem snapshots"@,
            Capability::MemorySnapshot => "memory snapshots"@,
            Capability::Fork => "forking"@,
            Capability::PauseResume => "pause and resume"@,
            Capability::PortForward => "port forwarding"@,
            Capability::ResourceLimits => "resource limits"@,
        }
    }

    /// The capability in words.
    pub fn to_string(&self) -> (text: String)
        ensures
            text@ == self.text(),
    {
        match self {
            Capability::FilesystemSnapshot => "filesystem snapshots".to_owned(),
            Capability::MemorySnapshot => "memory snapshots".to_owned(),
            Capability::Fork => "forking".to_owned(),
            Capability::PauseResume => "pause and resume".to_owned(),
            Capability::PortForward => "port forwarding".to_owned(),
            Capability::ResourceLimits => "resource limits".to_owned(),
        }
    }
}

/// The complete set of behaviors a sandbox declares.
#[derive(Debug, Clone, Copy, PartialEq, Eq)]
#[non_exhaustive]
pub struct SandboxCapabilities {
    /// How strongly the sandbox separates guest code from the host.
    pub isolation: IsolationLevel,
    /// What the sandbox can capture and restore.
    pub snapshot: SnapshotSupport,
    /// Whether a snapshot can be branched into an independent box.
    pub fork: bool,
    /// Whether a running box can be frozen and thawed without losing state.
    pub pause_resume: bool,
    /// Whether a guest port can be published to the host.
    pub port_forward: bool,
    /// Whether the limits of a box are applied.
    pub resource_limits: bool,
}

impl SandboxCapabilities {
    /// Whether the declaration includes `capability`.
    pub open spec fn declares(self, capability: Capability) -> bool {
        match capability {
            Capability::FilesystemSnapshot => !(self.snapshot is Nothing),
            Capability::MemorySnapshot => self.snapshot is FilesystemAndMemory,
            Capability::Fork => self.fork,
            Capability::PauseResume => self.pause_resume,
            Capability::PortForward => self.port_forward,
            Capability::ResourceLimits => self.resource_limits,
        }
    }

    /// Whether code that the operator does not trust may run here.
    pub open spec fn contains_untrusted_code(self) -> bool {
        self.isolation.strength() >= IsolationLevel::Kernel.strength()
    }

    /// The declaration of a sandbox that confines nothing and can do nothing
    /// beyond running commands.
    pub open spec fn confining_nothing() -> Self {
        SandboxCapabilities {
            isolation: IsolationLevel::Nothing,
            snapshot: SnapshotSupport::Nothing,
            fork: false,
            pause_resume: false,
            port_forward: false,
            resource_limits: false,
        }
    }

    /// A bare host process: reach without confinement.
    ///
    /// Useful for trusted local development, and never for untrusted code.
    pub fn passthrough() -> (capabilities: Self)
        ensures
            capabilities == SandboxCapabilities::confining_nothing(),
            !capabilities.contains_untrusted_code(),
            forall|capability: Capability| !(#[trigger] capabilities.declares(capability)),
    {
        Self {
            isolation: IsolationLevel::Nothing,
            snapshot: SnapshotSupport::Nothing,
            fork: false,
            pause_resume: false,
            port_forward: false,
            resource_limits: false,
        }
    }

    /// Declare a capability set explicitly. Limits are declared separately.
    pub fn new(
        isolation: IsolationLevel,
        snapshot: SnapshotSupport,
        fork: bool,
        pause_resume: bool,
        port_forward: bool,
    ) -> (capabilities: Self)
        ensures
            capabilities == (SandboxCapabilities {
                isolation,
                snapshot,
                fork,
                pause_resume,
                port_forward,
                resource_limits: false,
            }),
    {
        Self { isolation, snapshot, fork, pause_resume, port_forward, resource_limits: false }
    }

    /// The same declaration, with resource limits among what it includes.
    pub fn with_resource_limits(self) -> (capabilities: Self)
        ensures
            capabilities == (SandboxCapabilities { resource_limits: true, ..self }),
    {
        Self { resource_limits: true, ..self }
    }

    /// Whether this set includes `capability`.
    pub fn supports(&self, capability: Capability) -> (answer: bool)
        ensures
            answer == self.declares(capability),
    {
        match capability {
            Capability::FilesystemSnapshot => self.snapshot.captures_filesystem(),
            Capability::MemorySnapshot => self.snapshot.captures_memory(),
            Capability::Fork => self.fork,
            Capability::PauseResume => self.pause_resume,
            Capability::PortForward => self.port_forward,
            Capability::ResourceLimits => self.resource_limits,
        }
    }

    /// Check that `capability` is available before relying on it.
    pub fn require(&self, sandbox: &str, capability: Capability) -> (checked: Result<(), Error>)
        ensures
            match checked {
                Ok(_) => self.declares(capability),
                Err(error) => !self.declares(capability) && error@ == crate::error::unsupported(
                    sandbox@,
                    capability,
                ),
            },
    {
        if self.supports(capability) {
            return Ok(());
        }
        Err(Error::Unsupported { sandbox: sandbox.to_owned(), capability })
    }

    /// Whether this sandbox is strong enough to run code the operator does not
    /// trust.
    ///
    /// [`IsolationLevel::Kernel`] is the floor: the guest must at least be
    /// unable to see or signal host processes.
    pub fn is_suitable_for_untrusted_code(&self) -> (answer: bool)
        ensures
            answer == self.contains_untrusted_code(),
    {
        self.isolation.is_at_least(IsolationLevel::Kernel)
    }
}

/// Whoever may run untrusted code may do so under any stronger isolation.
pub proof fn untrusted_code_has_a_floor(weak: SandboxCapabilities, strong: SandboxCapabilities)
    requires
        weak.contains_untrusted_code(),
        strong.isolation.strength() >= weak.isolation.strength(),
    ensures
        strong.contains_untrusted_code(),
        strong.isolation is Kernel || strong.isolation is Hardware,
{
}

/// Only what captures memory captures the filesystem as well.
pub proof fn memory_snapshots_hold_the_filesystem(capabilities: SandboxCapabilities)
    requires
        capabilities.declares(Capability::MemorySnapshot),
    ensures
        capabilities.declares(Capability::FilesystemSnapshot),
{
}

/// The levels of isolation are four, each stronger than the one before, and the
/// last two are a place for untrusted code.
pub proof fn isolation_is_ordered(capabilities: SandboxCapabilities)
    ensures
        IsolationLevel::Nothing.strength() < IsolationLevel::Process.strength(),
        IsolationLevel::Process.strength() < IsolationLevel::Kernel.strength(),
        IsolationLevel::Kernel.strength() < IsolationLevel::Hardware.strength(),
        capabilities.contains_untrusted_code() <==> capabilities.isolation is Kernel
            || capabilities.isolation is Hardware,
{
}

/// What is declared is what the fields say.
pub proof fn a_declaration_says_what_its_fields_say(capabilities: SandboxCapabilities)
    ensures
        capabilities.declares(Capability::FilesystemSnapshot) <==> capabilities.snapshot
            is Filesystem || capabilities.snapshot is FilesystemAndMemory,
        capabilities.declares(Capability::MemorySnapshot) <==> capabilities.snapshot
            is FilesystemAndMemory,
        capabilities.declares(Capability::Fork) == capabilities.fork,
        capabilities.declares(Capability::PauseResume) == capabilities.pause_resume,
        capabilities.declares(Capability::PortForward) == capabilities.port_forward,
        capabilities.declares(Capability::ResourceLimits) == capabilities.resource_limits,
{
}

/// A sandbox that confines nothing declares nothing, whatever is asked for.
pub proof fn confining_nothing_declares_nothing(capability: Capability)
    ensures
        !SandboxCapabilities::confining_nothing().declares(capability),
        SandboxCapabilities::confining_nothing().isolation is Nothing,
{
}

/// Each part of the vocabulary has a word of its own.
pub proof fn the_vocabulary_is_known()
    ensures
        IsolationLevel::Nothing.text() == "none"@,
        IsolationLevel::Process.text() == "process"@,
        IsolationLevel::Kernel.text() == "kernel"@,
        IsolationLevel::Hardware.text() == "hardware"@,
        Capability::FilesystemSnapshot.text() == "filesystem snapshots"@,
        Capability::MemorySnapshot.text() == "memory snapshots"@,
        Capability::Fork.text() == "forking"@,
        Capability::PauseResume.text() == "pause and resume"@,
        Capability::PortForward.text() == "port forwarding"@,
        Capability::ResourceLimits.text() == "resource limits"@,
{
}

} // verus!
