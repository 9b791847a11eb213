//! The sandboxes this build has, by name.

use vstd::prelude::*;
use vstd::string::*;

use crate::box_spec::{BoxSpec, BoxSpecView};
use crate::capability::{Capability, SandboxCapabilities};
use crate::conversation::{Progress, ProgressView, Reply, ReplyView, StoreOpView};
use crate::docker;
use crate::docker::DockerSandbox;
use crate::error::{Error, ErrorView};
use crate::identity::{BoxId, SnapshotId};
use crate::passthrough;
use crate::passthrough::PassthroughSandbox;
use crate::runtime::{
    BoxInfo, BoxInfoView, ExecOutput, ExecOutputView, ExecRequest, ExecRequestView, Sandbox,
};
use crate::text;

verus! {

/// One of the sandboxes this build has.
#[derive(Debug, PartialEq, Eq)]
pub enum Backend {
    /// Boxes are directories.
    Passthrough(PassthroughSandbox),
    /// Boxes are containers.
    Docker(DockerSandbox),
}

/// A [`Backend`] with its strings as their characters.
pub enum BackendView {
    Passthrough,
    Docker(Seq<char>),
}

impl View for Backend {
    type V = BackendView;

    open spec fn view(&self) -> BackendView {
        match *self {
            Backend::Passthrough(_) => BackendView::Passthrough,
            Backend::Docker(sandbox) => BackendView::Docker(sandbox@),
        }
    }
}

/// The sandbox that a name stands for. The namespace matters to containers
/// only.
pub open spec fn named_backend(name: Seq<char>, namespace: Seq<char>) -> Result<
    BackendView,
    ErrorView,
> {
    if name == "passthrough"@ {
        Ok(BackendView::Passthrough)
    } else if name == "docker"@ {
        if crate::identity::is_name(namespace) {
            Ok(BackendView::Docker(namespace))
        } else {
            Err(crate::error::invalid_name("docker namespace"@, namespace))
        }
    } else {
        Err(ErrorView::UnknownSandbox { name })
    }
}

impl BackendView {
    /// What this sandbox declares.
    pub open spec fn declared(self) -> SandboxCapabilities {
        match self {
            BackendView::Passthrough => SandboxCapabilities::confining_nothing(),
            BackendView::Docker(_) => docker::docker_capabilities(),
        }
    }

    /// The name of this sandbox.
    pub open spec fn confinement(self) -> Seq<char> {
        match self {
            BackendView::Passthrough => "passthrough"@,
            BackendView::Docker(_) => "docker"@,
        }
    }

    /// How creating a box goes.
    pub open spec fn creating(self, spec: BoxSpecView, replies: Seq<ReplyView>, at: int) -> ProgressView<
        BoxInfoView,
    > {
        match self {
            BackendView::Passthrough => passthrough::passthrough_creating(spec, replies, at),
            BackendView::Docker(namespace) => docker::docker_creating(namespace, spec, replies, at),
        }
    }

    /// How running a command in a box goes.
    pub open spec fn executing(
        self,
        id: Seq<char>,
        request: ExecRequestView,
        replies: Seq<ReplyView>,
        at: int,
    ) -> ProgressView<ExecOutputView> {
        match self {
            BackendView::Passthrough => passthrough::passthrough_executing(
                id,
                request,
                replies,
                at,
            ),
            BackendView::Docker(namespace) => docker::docker_executing(
                namespace,
                id,
                request,
                replies,
                at,
            ),
        }
    }

    /// How capturing a box goes.
    pub open spec fn capturing(self, id: Seq<char>, replies: Seq<ReplyView>, at: int) -> ProgressView<
        Seq<char>,
    > {
        match self {
            BackendView::Passthrough => ProgressView::Failed(
                crate::error::unsupported("passthrough"@, Capability::FilesystemSnapshot),
                at,
            ),
            BackendView::Docker(namespace) => docker::docker_capturing(namespace, id, replies, at),
        }
    }

    /// How forking a snapshot goes.
    pub open spec fn forking(
        self,
        snapshot: Seq<char>,
        spec: BoxSpecView,
        replies: Seq<ReplyView>,
        at: int,
    ) -> ProgressView<BoxInfoView> {
        match self {
            BackendView::Passthrough => ProgressView::Failed(
                crate::error::unsupported("passthrough"@, Capability::Fork),
                at,
            ),
            BackendView::Docker(namespace) => docker::docker_forking(
                namespace,
                snapshot,
                spec,
                replies,
                at,
            ),
        }
    }

    /// How describing a box goes.
    pub open spec fn inspecting(self, id: Seq<char>, replies: Seq<ReplyView>, at: int) -> ProgressView<
        BoxInfoView,
    > {
        match self {
            BackendView::Passthrough => crate::conversation::asks_fetch(id, replies, at),
            BackendView::Docker(namespace) => docker::docker_inspecting(namespace, id, replies, at),
        }
    }

    /// How destroying a box goes.
    pub open spec fn destroying(self, id: Seq<char>, replies: Seq<ReplyView>, at: int) -> ProgressView<
        (),
    > {
        match self {
            BackendView::Passthrough => crate::conversation::asks_store(
                StoreOpView::Remove(id),
                replies,
                at,
            ),
            BackendView::Docker(namespace) => docker::docker_destroying(namespace, id, replies, at),
        }
    }
}

impl Backend {
    /// The sandbox that a name stands for.
    pub fn named(name: &str, namespace: &str) -> (backend: Result<Backend, Error>)
        ensures
            crate::runtime::outcome(backend) == named_backend(name@, namespace@),
    {
        if text::same(name, passthrough::NAME) {
            Ok(Backend::Passthrough(PassthroughSandbox::new()))
        } else if text::same(name, docker::NAME) {
            match DockerSandbox::new(namespace) {
                Ok(sandbox) => Ok(Backend::Docker(sandbox)),
                Err(error) => Err(error),
            }
        } else {
            Err(Error::UnknownSandbox { name: name.to_owned() })
        }
    }
}

impl Sandbox for Backend {
    open spec fn confinement(&self) -> Seq<char> {
        self@.confinement()
    }

    open spec fn declared(&self) -> SandboxCapabilities {
        self@.declared()
    }

    open spec fn creating(&self, spec: BoxSpecView, replies: Seq<ReplyView>, at: int) -> ProgressView<
        BoxInfoView,
    > {
        self@.creating(spec, replies, at)
    }

    open spec fn executing(
        &self,
        id: Seq<char>,
        request: ExecRequestView,
        replies: Seq<ReplyView>,
        at: int,
    ) -> ProgressView<ExecOutputView> {
        self@.executing(id, request, replies, at)
    }

    open spec fn capturing(&self, id: Seq<char>, replies: Seq<ReplyView>, at: int) -> ProgressView<
        Seq<char>,
    > {
        self@.capturing(id, replies, at)
    }

    open spec fn forking(
        &self,
        snapshot: Seq<char>,
        spec: BoxSpecView,
        replies: Seq<ReplyView>,
        at: int,
    ) -> ProgressView<BoxInfoView> {
        self@.forking(snapshot, spec, replies, at)
    }

    open spec fn inspecting(&self, id: Seq<char>, replies: Seq<ReplyView>, at: int) -> ProgressView<
        BoxInfoView,
    > {
        self@.inspecting(id, replies, at)
    }

    open spec fn destroying(&self, id: Seq<char>, replies: Seq<ReplyView>, at: int) -> ProgressView<
        (),
    > {
        self@.destroying(id, replies, at)
    }

    fn name(&self) -> (name: &'static str) {
        match self {
            Backend::Passthrough(sandbox) => sandbox.name(),
            Backend::Docker(sandbox) => sandbox.name(),
        }
    }

    fn capabilities(&self) -> (capabilities: SandboxCapabilities) {
        match self {
            Backend::Passthrough(sandbox) => sandbox.capabilities(),
            Backend::Docker(sandbox) => sandbox.capabilities(),
        }
    }

    fn create(&self, spec: &BoxSpec, replies: &Vec<Reply>, at: usize) -> (progress: Progress<BoxInfo>) {
        match self {
            Backend::Passthrough(sandbox) => sandbox.create(spec, replies, at),
            Backend::Docker(sandbox) => sandbox.create(spec, replies, at),
        }
    }

    fn exec(&self, id: &BoxId, request: &ExecRequest, replies: &Vec<Reply>, at: usize) -> (progress:
        Progress<ExecOutput>) {
        match self {
            Backend::Passthrough(sandbox) => sandbox.exec(id, request, replies, at),
            Backend::Docker(sandbox) => sandbox.exec(id, request, replies, at),
        }
    }

    fn snapshot(&self, id: &BoxId, replies: &Vec<Reply>, at: usize) -> (progress: Progress<SnapshotId>) {
        match self {
            Backend::Passthrough(sandbox) => sandbox.snapshot(id, replies, at),
            Backend::Docker(sandbox) => sandbox.snapshot(id, replies, at),
        }
    }

    fn fork(&self, snapshot: &SnapshotId, spec: &BoxSpec, replies: &Vec<Reply>, at: usize) -> (progress:
        Progress<BoxInfo>) {
        match self {
            Backend::Passthrough(sandbox) => sandbox.fork(snapshot, spec, replies, at),
            Backend::Docker(sandbox) => sandbox.fork(snapshot, spec, replies, at),
        }
    }

    fn inspect(&self, id: &BoxId, replies: &Vec<Reply>, at: usize) -> (progress: Progress<BoxInfo>) {
        match self {
            Backend::Passthrough(sandbox) => sandbox.inspect(id, replies, at),
            Backend::Docker(sandbox) => sandbox.inspect(id, replies, at),
        }
    }

    fn destroy(&self, id: &BoxId, replies: &Vec<Reply>, at: usize) -> (progress: Progress<()>) {
        match self {
            Backend::Passthrough(sandbox) => sandbox.destroy(id, replies, at),
            Backend::Docker(sandbox) => sandbox.destroy(id, replies, at),
        }
    }
}

/// A sandbox that a name stands for goes by that name.
pub proof fn a_backend_goes_by_its_name(name: Seq<char>, namespace: Seq<char>)
    requires
        named_backend(name, namespace) is Ok,
    ensures
        named_backend(name, namespace)->Ok_0.confinement() == name,
{
}

/// No sandbox of this build carries out what it has not declared: asked to
/// capture or to fork all the same, it refuses, and nothing is done outside.
pub proof fn no_backend_emulates(
    backend: BackendView,
    id: Seq<char>,
    spec: BoxSpecView,
    replies: Seq<ReplyView>,
    at: int,
)
    ensures
        !backend.declared().declares(Capability::FilesystemSnapshot) ==> backend.capturing(
            id,
            replies,
            at,
        ) == ProgressView::<Seq<char>>::Failed(
            crate::error::unsupported(backend.confinement(), Capability::FilesystemSnapshot),
            at,
        ),
        !backend.declared().declares(Capability::Fork) ==> backend.forking(id, spec, replies, at)
            == ProgressView::<BoxInfoView>::Failed(
            crate::error::unsupported(backend.confinement(), Capability::Fork),
            at,
        ),
{
}

/// A limit of zero means "unlimited" to some and "nothing" to others, so no
/// sandbox ever sees one: a box with such a limit is refused at once.
pub proof fn a_zero_limit_creates_nothing(
    backend: BackendView,
    spec: BoxSpecView,
    replies: Seq<ReplyView>,
    at: int,
)
    requires
        !spec.resources.all_positive(),
    ensures
        backend.creating(spec, replies, at) == ProgressView::<BoxInfoView>::Failed(
            ErrorView::ZeroResourceLimit { limit: spec.resources.first_zero() },
            at,
        ),
{
}

/// There are two sandboxes, and each is found under its own name. The namespace
/// of containers has to be a name.
pub proof fn the_sandboxes_are_known(name: Seq<char>, namespace: Seq<char>)
    ensures
        named_backend("passthrough"@, namespace) == Ok::<BackendView, ErrorView>(
            BackendView::Passthrough,
        ),
        crate::identity::is_name(namespace) ==> named_backend("docker"@, namespace) == Ok::<
            BackendView,
            ErrorView,
        >(BackendView::Docker(namespace)),
        !crate::identity::is_name(namespace) ==> named_backend("docker"@, namespace) == Err::<
            BackendView,
            ErrorView,
        >(ErrorView::InvalidIdentifier { kind: "docker namespace"@, value: namespace }),
        name != "passthrough"@ && name != "docker"@ ==> named_backend(name, namespace) == Err::<
            BackendView,
            ErrorView,
        >(ErrorView::UnknownSandbox { name }),
{
    reveal_strlit("docker");
    reveal_strlit("passthrough");
    assert("docker"@[0] != "passthrough"@[0]);
}

} // verus!
