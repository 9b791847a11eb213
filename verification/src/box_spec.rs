//! What a box is asked to be.

use vstd::prelude::*;

use crate::error::Error;
use crate::identity::{HostRef, SandboxRef, SnapshotId};
use crate::ordered::OrderedMap;

verus! {

/// Where something runs: on which machine, and confined by what.
#[derive(Debug, PartialEq, Eq)]
pub struct Placement {
    /// Reach: the machine.
    pub host: HostRef,
    /// Confinement: the sandbox.
    pub sandbox: SandboxRef,
}

/// A [`Placement`] with its names as their characters.
pub struct PlacementView {
    pub host: Seq<char>,
    pub sandbox: Seq<char>,
}

impl View for Placement {
    type V = PlacementView;

    open spec fn view(&self) -> PlacementView {
        PlacementView { host: self.host@, sandbox: self.sandbox@ }
    }
}

impl Placement {
    /// Pair a machine with a confinement.
    pub fn new(host: HostRef, sandbox: SandboxRef) -> (placement: Placement)
        ensures
            placement@ == (PlacementView { host: host@, sandbox: sandbox@ }),
    {
        Placement { host, sandbox }
    }
}

impl Clone for Placement {
    fn clone(&self) -> (copy: Self)
        ensures
            copy == *self,
    {
        Placement { host: self.host.clone(), sandbox: self.sandbox.clone() }
    }
}

/// Where the contents of a box come from.
#[derive(Debug, PartialEq, Eq)]
pub enum WorkspaceSource {
    /// A directory of the machine the box runs on.
    LocalDir(String),
    /// A container image.
    OciImage(String),
    /// A snapshot: a template, or a stopped box that is resumed.
    Snapshot(SnapshotId),
    /// A revision of a git repository.
    GitRepo {
        /// Where the repository is.
        url: String,
        /// Which revision of it.
        rev: String,
    },
}

/// A [`WorkspaceSource`] with its strings as their characters.
pub enum SourceView {
    LocalDir(Seq<char>),
    OciImage(Seq<char>),
    Snapshot(Seq<char>),
    GitRepo { url: Seq<char>, rev: Seq<char> },
}

impl View for WorkspaceSource {
    type V = SourceView;

    open spec fn view(&self) -> SourceView {
        match *self {
            WorkspaceSource::LocalDir(path) => SourceView::LocalDir(path@),
            WorkspaceSource::OciImage(image) => SourceView::OciImage(image@),
            WorkspaceSource::Snapshot(id) => SourceView::Snapshot(id@),
            WorkspaceSource::GitRepo { url, rev } => SourceView::GitRepo { url: url@, rev: rev@ },
        }
    }
}

impl Clone for WorkspaceSource {
    fn clone(&self) -> (copy: Self)
        ensures
            copy == *self,
    {
        match self {
            WorkspaceSource::LocalDir(path) => WorkspaceSource::LocalDir(path.clone()),
            WorkspaceSource::OciImage(image) => WorkspaceSource::OciImage(image.clone()),
            WorkspaceSource::Snapshot(id) => WorkspaceSource::Snapshot(id.clone()),
            WorkspaceSource::GitRepo { url, rev } => WorkspaceSource::GitRepo {
                url: url.clone(),
                rev: rev.clone(),
            },
        }
    }
}

/// What a box may consume.
#[derive(Debug, Clone, Copy, PartialEq, Eq)]
pub struct Resources {
    /// Thousandths of a processor core.
    pub cpu_millis: u32,
    /// Bytes of memory.
    pub memory_bytes: u64,
    /// Processes at one time.
    pub pids_max: u32,
    /// Bytes of disk.
    pub disk_bytes: u64,
}

/// Limits sized for an agent task: two cores, 2 GiB of memory, 512 processes
/// and 8 GiB of disk.
pub open spec fn default_resources() -> Resources {
    Resources {
        cpu_millis: 2000,
        memory_bytes: 2147483648,
        pids_max: 512,
        disk_bytes: 8589934592,
    }
}

impl Resources {
    /// Every limit is positive. Zero reads as "unlimited" to some backends and
    /// as "deny everything" to others.
    pub open spec fn all_positive(self) -> bool {
        self.cpu_millis > 0 && self.memory_bytes > 0 && self.pids_max > 0 && self.disk_bytes > 0
    }

    /// The first limit that is zero.
    pub open spec fn first_zero(self) -> Seq<char> {
        if self.cpu_millis == 0 {
            "cpu_millis"@
        } else if self.memory_bytes == 0 {
            "memory_bytes"@
        } else if self.pids_max == 0 {
            "pids_max"@
        } else {
            "disk_bytes"@
        }
    }

    /// Refuse a limit of zero.
    pub fn validate(&self) -> (checked: Result<(), Error>)
        ensures
            match checked {
                Ok(_) => self.all_positive(),
                Err(error) => !self.all_positive() && error@ == (
                crate::error::ErrorView::ZeroResourceLimit { limit: self.first_zero() }),
            },
    {
        if self.cpu_millis == 0 {
            Err(Error::ZeroResourceLimit { limit: "cpu_millis" })
        } else if self.memory_bytes == 0 {
            Err(Error::ZeroResourceLimit { limit: "memory_bytes" })
        } else if self.pids_max == 0 {
            Err(Error::ZeroResourceLimit { limit: "pids_max" })
        } else if self.disk_bytes == 0 {
            Err(Error::ZeroResourceLimit { limit: "disk_bytes" })
        } else {
            Ok(())
        }
    }
}

impl Default for Resources {
    fn default() -> (resources: Self)
        ensures
            resources == default_resources(),
    {
        Resources {
            cpu_millis: 2000,
            memory_bytes: 2147483648,
            pids_max: 512,
            disk_bytes: 8589934592,
        }
    }
}

/// A span of time.
#[derive(Debug, Clone, Copy, PartialEq, Eq)]
pub struct Span {
    /// Whole seconds.
    pub secs: u64,
    /// Nanoseconds beyond them.
    pub nanos: u32,
}

/// How long a box is kept.
#[derive(Debug, Clone, Copy, PartialEq, Eq)]
pub enum Lifecycle {
    /// Destroyed when `ttl` elapses, and never captured.
    Ephemeral {
        /// How long the box lives.
        ttl: Span,
    },
    /// Kept until it is destroyed, and captured every `autosnapshot`.
    Persistent {
        /// How often the box is captured.
        autosnapshot: Span,
    },
}

impl Lifecycle {
    /// A box that is kept and captured once a minute.
    pub fn persistent() -> (lifecycle: Lifecycle)
        ensures
            lifecycle == (Lifecycle::Persistent { autosnapshot: Span { secs: 60, nanos: 0 } }),
    {
        Lifecycle::Persistent { autosnapshot: Span { secs: 60, nanos: 0 } }
    }
}

impl Default for Lifecycle {
    /// Untrusted code should expire on its own: one hour.
    fn default() -> (lifecycle: Self)
        ensures
            lifecycle == (Lifecycle::Ephemeral { ttl: Span { secs: 3600, nanos: 0 } }),
    {
        Lifecycle::Ephemeral { ttl: Span { secs: 3600, nanos: 0 } }
    }
}

/// Whether a box may reach the network.
#[derive(Debug, Clone, Copy, PartialEq, Eq)]
pub enum NetworkPolicy {
    /// It may not.
    Denied,
    /// It may.
    Allowed,
}

impl Default for NetworkPolicy {
    /// An accidental default of "open" would be noticed only afterwards.
    fn default() -> (policy: Self)
        ensures
            policy is Denied,
    {
        NetworkPolicy::Denied
    }
}

/// Everything that a box is made from.
#[derive(Debug, PartialEq, Eq)]
pub struct BoxSpec {
    /// Where what drives the work runs.
    pub runner: Placement,
    /// Where the code runs.
    pub workspace: Placement,
    /// Where the contents come from.
    pub source: WorkspaceSource,
    /// What the box may consume.
    pub resources: Resources,
    /// How long the box is kept.
    pub lifecycle: Lifecycle,
    /// Whether the box may reach the network.
    pub network: NetworkPolicy,
    /// The variables that every command in the box sees.
    pub env: OrderedMap<String>,
}

/// A [`BoxSpec`] with its strings as their characters.
pub struct BoxSpecView {
    pub runner: PlacementView,
    pub workspace: PlacementView,
    pub source: SourceView,
    pub resources: Resources,
    pub lifecycle: Lifecycle,
    pub network: NetworkPolicy,
    pub env: Map<Seq<char>, Seq<char>>,
}

impl View for BoxSpec {
    type V = BoxSpecView;

    open spec fn view(&self) -> BoxSpecView {
        BoxSpecView {
            runner: self.runner@,
            workspace: self.workspace@,
            source: self.source@,
            resources: self.resources,
            lifecycle: self.lifecycle,
            network: self.network,
            env: self.env@,
        }
    }
}

/// The box that `workspace` and `source` alone describe: driven from where it
/// runs, offline, short-lived, and with the usual limits.
pub open spec fn plain_spec(workspace: PlacementView, source: SourceView) -> BoxSpecView {
    BoxSpecView {
        runner: workspace,
        workspace,
        source,
        resources: default_resources(),
        lifecycle: Lifecycle::Ephemeral { ttl: Span { secs: 3600, nanos: 0 } },
        network: NetworkPolicy::Denied,
        env: Map::empty(),
    }
}

impl BoxSpec {
    /// A box over `source` that is driven from where it runs.
    pub fn new(workspace: Placement, source: WorkspaceSource) -> (made: BoxSpec)
        ensures
            made@ == plain_spec(workspace@, source@),
    {
        BoxSpec {
            runner: workspace.clone(),
            workspace,
            source,
            resources: Resources::default(),
            lifecycle: Lifecycle::default(),
            network: NetworkPolicy::default(),
            env: OrderedMap::new(),
        }
    }

    /// The same box, driven from elsewhere.
    pub fn with_runner(self, runner: Placement) -> (made: BoxSpec)
        ensures
            made@ == (BoxSpecView { runner: runner@, ..self@ }),
    {
        BoxSpec { runner, ..self }
    }

    /// The same box, whose commands also see `key` set to `value`.
    pub fn with_env(self, key: String, value: String) -> (made: BoxSpec)
        ensures
            made@ == (BoxSpecView { env: self@.env.insert(key@, value@), ..self@ }),
    {
        let mut env: OrderedMap<String> = self.env;
        env.insert(key, value);
        BoxSpec { env, ..self }
    }

    /// Whether the box is driven from where it runs.
    pub fn is_colocated(&self) -> (answer: bool)
        ensures
            answer == (self@.runner == self@.workspace),
    {
        crate::text::same(self.runner.host.as_str(), self.workspace.host.as_str())
            && crate::text::same(self.runner.sandbox.as_str(), self.workspace.sandbox.as_str())
    }

    /// Refuse what no backend could give a meaning to.
    pub fn validate(&self) -> (checked: Result<(), Error>)
        ensures
            match checked {
                Ok(_) => self@.resources.all_positive(),
                Err(error) => !self@.resources.all_positive() && error@ == (
                crate::error::ErrorView::ZeroResourceLimit {
                    limit: self@.resources.first_zero(),
                }),
            },
    {
        self.resources.validate()
    }
}

impl Clone for BoxSpec {
    fn clone(&self) -> (copy: Self)
        ensures
            copy@ == self@,
    {
        BoxSpec {
            runner: self.runner.clone(),
            workspace: self.workspace.clone(),
            source: self.source.clone(),
            resources: self.resources,
            lifecycle: self.lifecycle,
            network: self.network,
            env: self.env.clone(),
        }
    }
}

/// A new box is colocated, and stays so whatever variables are set; only
/// another runner splits it.
pub proof fn only_a_runner_splits_a_box(
    workspace: PlacementView,
    source: SourceView,
    env: Map<Seq<char>, Seq<char>>,
    runner: PlacementView,
)
    ensures
        ({
            let plain = BoxSpecView { env, ..plain_spec(workspace, source) };
            let split = BoxSpecView { runner, ..plain };
            &&& plain.runner == plain.workspace
            &&& split.workspace == plain.workspace
            &&& (split.runner == split.workspace <==> runner == workspace)
        }),
{
}

/// The usual limits pass validation.
pub proof fn usual_limits_are_positive()
    ensures
        default_resources().all_positive(),
{
}

/// A new box is what it was asked to be: driven from where it runs, over the
/// given source, with two cores, 2 GiB of memory, 512 processes and 8 GiB of
/// disk, for an hour, cut off from the network, and with no variables.
pub proof fn a_new_box_is_what_was_asked_for(workspace: PlacementView, source: SourceView)
    ensures
        plain_spec(workspace, source).runner == workspace,
        plain_spec(workspace, source).workspace == workspace,
        plain_spec(workspace, source).source == source,
        plain_spec(workspace, source).resources == (Resources {
            cpu_millis: 2000,
            memory_bytes: 2147483648,
            pids_max: 512,
            disk_bytes: 8589934592,
        }),
        plain_spec(workspace, source).lifecycle == (Lifecycle::Ephemeral {
            ttl: Span { secs: 3600, nanos: 0 },
        }),
        plain_spec(workspace, source).network is Denied,
        plain_spec(workspace, source).env == Map::<Seq<char>, Seq<char>>::empty(),
{
}

/// A specification reads as its parts do.
pub proof fn a_specification_reads_as_its_parts(made: BoxSpec, placement: Placement)
    ensures
        made@.runner == made.runner@,
        made@.workspace == made.workspace@,
        made@.source == made.source@,
        made@.resources == made.resources,
        made@.lifecycle == made.lifecycle,
        made@.network == made.network,
        made@.env == made.env@,
        placement@.host == placement.host@,
        placement@.sandbox == placement.sandbox@,
        made.source matches WorkspaceSource::LocalDir(path) ==> made@.source
            == SourceView::LocalDir(path@),
        made.source matches WorkspaceSource::OciImage(image) ==> made@.source
            == SourceView::OciImage(image@),
        made.source matches WorkspaceSource::Snapshot(id) ==> made@.source == SourceView::Snapshot(
            id@,
        ),
        made.source matches WorkspaceSource::GitRepo { url, rev } ==> made@.source == (
        SourceView::GitRepo { url: url@, rev: rev@ }),
{
}

/// Limits are positive when none of the four is zero, and the first that is
/// zero is the one that is named.
pub proof fn the_first_zero_limit_is_named(resources: Resources)
    ensures
        resources.all_positive() <==> resources.cpu_millis != 0 && resources.memory_bytes != 0
            && resources.pids_max != 0 && resources.disk_bytes != 0,
        resources.cpu_millis == 0 ==> resources.first_zero() == "cpu_millis"@,
        resources.cpu_millis != 0 && resources.memory_bytes == 0 ==> resources.first_zero()
            == "memory_bytes"@,
        resources.cpu_millis != 0 && resources.memory_bytes != 0 && resources.pids_max == 0
            ==> resources.first_zero() == "pids_max"@,
        resources.cpu_millis != 0 && resources.memory_bytes != 0 && resources.pids_max != 0
            && resources.disk_bytes == 0 ==> resources.first_zero() == "disk_bytes"@,
{
}

} // verus!
