//! The sandbox that confines nothing.
//!
//! A box is a directory on the host, and its commands are ordinary processes of
//! the launching user. It declares nothing, so nobody can mistake it for a place
//! to run code they do not trust.

use vstd::prelude::*;
use vstd::string::*;

use crate::box_spec::{BoxSpec, BoxSpecView, SourceView, WorkspaceSource};
use crate::capability::{Capability, SandboxCapabilities};
use crate::conversation::{Progress, ProgressView, Reply, ReplyView, StoreOp, StoreOpView};
use crate::error::{Error, ErrorView};
use crate::identity::{BoxId, SnapshotId};
use crate::ordered::OrderedMap;
use crate::runtime::{
    BoxInfo, BoxInfoView, BoxState, ExecOutput, ExecOutputView, ExecRequest, ExecRequestView,
    Sandbox,
};

verus! {

/// The name this sandbox registers under.
pub const NAME: &'static str = "passthrough";

/// What is said of a source that is not a directory of the host.
pub open spec fn no_directory() -> ErrorView {
    ErrorView::Backend {
        sandbox: "passthrough"@,
        operation: "create a box"@,
        message: "the workspace must be a local directory"@,
    }
}

/// How creating a box goes: its limits are checked, and then what it is made
/// from; it is given a name, and recorded as ready.
pub open spec fn passthrough_creating(spec: BoxSpecView, replies: Seq<ReplyView>, at: int) -> ProgressView<
    BoxInfoView,
> {
    if !spec.resources.all_positive() {
        ProgressView::Failed(
            ErrorView::ZeroResourceLimit { limit: spec.resources.first_zero() },
            at,
        )
    } else if !(spec.source is LocalDir) {
        ProgressView::Failed(no_directory(), at)
    } else {
        match crate::conversation::asks_allocate(replies, at) {
            ProgressView::Ask(effect) => ProgressView::Ask(effect),
            ProgressView::Failed(error, next) => ProgressView::Failed(error, next),
            ProgressView::Done(id, next) => crate::conversation::recording(
                BoxInfoView { id, state: BoxState::Ready, spec },
                replies,
                next,
            ),
        }
    }
}

/// What the host is asked to run for a command in a box: it runs in the box's
/// directory unless it names one, and sees the box's variables beneath its own.
pub open spec fn in_workspace(spec: BoxSpecView, request: ExecRequestView) -> ExecRequestView {
    ExecRequestView {
        cwd: match request.cwd {
            Some(cwd) => Some(cwd),
            None => match spec.source {
                SourceView::LocalDir(path) => Some(path),
                _ => None,
            },
        },
        env: spec.env.union_prefer_right(request.env),
        ..request
    }
}

/// How running a command in a box goes.
pub open spec fn passthrough_executing(
    id: Seq<char>,
    request: ExecRequestView,
    replies: Seq<ReplyView>,
    at: int,
) -> ProgressView<ExecOutputView> {
    match crate::conversation::asks_fetch(id, replies, at) {
        ProgressView::Ask(effect) => ProgressView::Ask(effect),
        ProgressView::Failed(error, next) => ProgressView::Failed(error, next),
        ProgressView::Done(info, next) => match info.state {
            BoxState::Ready => crate::conversation::asks_run(
                in_workspace(info.spec, request),
                replies,
                next,
            ),
            BoxState::Stopped => ProgressView::Failed(
                ErrorView::InvalidState {
                    id,
                    actual: BoxState::Stopped,
                    expected: BoxState::Ready,
                },
                next,
            ),
        },
    }
}

/// A sandbox that wraps nothing at all.
#[derive(Debug, Clone, Copy, PartialEq, Eq)]
pub struct PassthroughSandbox;

impl PassthroughSandbox {
    /// A sandbox that wraps nothing at all.
    pub fn new() -> (sandbox: PassthroughSandbox)
        ensures
            sandbox == PassthroughSandbox,
    {
        PassthroughSandbox
    }

    /// What the host is asked to run for a command in a box.
    fn placed(spec: &BoxSpec, request: &ExecRequest) -> (placed: ExecRequest)
        ensures
            placed@ == in_workspace(spec@, request@),
    {
        let cwd: Option<String> = match &request.cwd {
            Some(cwd) => Some(cwd.clone()),
            None => match &spec.source {
                WorkspaceSource::LocalDir(path) => Some(path.clone()),
                _ => None,
            },
        };
        let mut env: OrderedMap<String> = spec.env.clone();
        env.extend(&request.env);
        let mut placed: ExecRequest = request.clone();
        placed.cwd = cwd;
        placed.env = env;
        placed
    }
}

impl Sandbox for PassthroughSandbox {
    open spec fn confinement(&self) -> Seq<char> {
        "passthrough"@
    }

    open spec fn declared(&self) -> SandboxCapabilities {
        SandboxCapabilities::confining_nothing()
    }

    open spec fn creating(&self, spec: BoxSpecView, replies: Seq<ReplyView>, at: int) -> ProgressView<
        BoxInfoView,
    > {
        passthrough_creating(spec, replies, at)
    }

    open spec fn executing(
        &self,
        id: Seq<char>,
        request: ExecRequestView,
        replies: Seq<ReplyView>,
        at: int,
    ) -> ProgressView<ExecOutputView> {
        passthrough_executing(id, request, replies, at)
    }

    open spec fn capturing(&self, id: Seq<char>, replies: Seq<ReplyView>, at: int) -> ProgressView<
        Seq<char>,
    > {
        ProgressView::Failed(
            crate::error::unsupported("passthrough"@, Capability::FilesystemSnapshot),
            at,
        )
    }

    open spec fn forking(
        &self,
        snapshot: Seq<char>,
        spec: BoxSpecView,
        replies: Seq<ReplyView>,
        at: int,
    ) -> ProgressView<BoxInfoView> {
        ProgressView::Failed(crate::error::unsupported("passthrough"@, Capability::Fork), at)
    }

    open spec fn inspecting(&self, id: Seq<char>, replies: Seq<ReplyView>, at: int) -> ProgressView<
        BoxInfoView,
    > {
        crate::conversation::asks_fetch(id, replies, at)
    }

    open spec fn destroying(&self, id: Seq<char>, replies: Seq<ReplyView>, at: int) -> ProgressView<
        (),
    > {
        crate::conversation::asks_store(StoreOpView::Remove(id), replies, at)
    }

    fn name(&self) -> (name: &'static str) {
        NAME
    }

    fn capabilities(&self) -> (capabilities: SandboxCapabilities) {
        SandboxCapabilities::passthrough()
    }

    fn create(&self, spec: &BoxSpec, replies: &Vec<Reply>, at: usize) -> (progress: Progress<BoxInfo>) {
        if let Err(error) = spec.validate() {
            return Progress::Failed(error, at);
        }
        match &spec.source {
            WorkspaceSource::LocalDir(_) => {},
            _ => {
                return Progress::Failed(
                    Error::Backend {
                        sandbox: NAME.to_owned(),
                        operation: "create a box",
                        message: "the workspace must be a local directory".to_owned(),
                    },
                    at,
                );
            },
        }
        match crate::conversation::ask_allocate(replies, at) {
            Progress::Ask(effect) => Progress::Ask(effect),
            Progress::Failed(error, next) => Progress::Failed(error, next),
            Progress::Done(id, next) => crate::conversation::record(
                BoxInfo::new(id, BoxState::Ready, spec.clone()),
                replies,
                next,
            ),
        }
    }

    fn exec(&self, id: &BoxId, request: &ExecRequest, replies: &Vec<Reply>, at: usize) -> (progress:
        Progress<ExecOutput>) {
        match crate::conversation::ask_fetch(id, replies, at) {
            Progress::Ask(effect) => Progress::Ask(effect),
            Progress::Failed(error, next) => Progress::Failed(error, next),
            Progress::Done(info, next) => match info.state {
                BoxState::Ready => crate::conversation::ask_run(
                    PassthroughSandbox::placed(&info.spec, request),
                    replies,
                    next,
                ),
                BoxState::Stopped => Progress::Failed(
                    Error::InvalidState {
                        id: id.as_str().to_owned(),
                        actual: BoxState::Stopped,
                        expected: BoxState::Ready,
                    },
                    next,
                ),
            },
        }
    }

    fn snapshot(&self, id: &BoxId, replies: &Vec<Reply>, at: usize) -> (progress: Progress<SnapshotId>) {
        Progress::Failed(
            Error::Unsupported {
                sandbox: NAME.to_owned(),
                capability: Capability::FilesystemSnapshot,
            },
            at,
        )
    }

    fn fork(&self, snapshot: &SnapshotId, spec: &BoxSpec, replies: &Vec<Reply>, at: usize) -> (progress:
        Progress<BoxInfo>) {
        Progress::Failed(
            Error::Unsupported { sandbox: NAME.to_owned(), capability: Capability::Fork },
            at,
        )
    }

    fn inspect(&self, id: &BoxId, replies: &Vec<Reply>, at: usize) -> (progress: Progress<BoxInfo>) {
        crate::conversation::ask_fetch(id, replies, at)
    }

    fn destroy(&self, id: &BoxId, replies: &Vec<Reply>, at: usize) -> (progress: Progress<()>) {
        crate::conversation::ask_store(StoreOp::Remove(id.clone()), replies, at)
    }
}

/// A command sees its own value of a variable where it sets one, and the box's
/// everywhere else.
pub proof fn a_command_overrides_its_box(
    spec: BoxSpecView,
    request: ExecRequestView,
    variable: Seq<char>,
)
    ensures
        ({
            let env = in_workspace(spec, request).env;
            &&& request.env.contains_key(variable) ==> env.contains_key(variable) && env[variable]
                == request.env[variable]
            &&& !request.env.contains_key(variable) && spec.env.contains_key(variable)
                ==> env.contains_key(variable) && env[variable] == spec.env[variable]
            &&& env.contains_key(variable) ==> request.env.contains_key(variable)
                || spec.env.contains_key(variable)
        }),
{
}

/// What the host is asked to run is the command itself: its arguments and its
/// payload are unchanged, and it runs in the directory it names, or else in
/// that of its box.
pub proof fn a_command_runs_in_the_directory_of_its_box(
    spec: BoxSpecView,
    request: ExecRequestView,
    path: Seq<char>,
)
    ensures
        in_workspace(spec, request).argv == request.argv,
        in_workspace(spec, request).stdin == request.stdin,
        request.cwd is Some ==> in_workspace(spec, request).cwd == request.cwd,
        request.cwd is None && spec.source == SourceView::LocalDir(path) ==> in_workspace(
            spec,
            request,
        ).cwd == Some(path),
{
}

} // verus!
