//! Boxes as containers.
//!
//! A box is a container that sleeps until it is destroyed, and whose commands
//! run beside the sleeper. Every command line is built here and run by the
//! host, so Docker on another machine needs nothing of its own.

use vstd::prelude::*;
use vstd::string::*;

use crate::box_spec::{
    BoxSpec, BoxSpecView, NetworkPolicy, Resources, SourceView, WorkspaceSource,
};
use crate::capability::{IsolationLevel, SandboxCapabilities, SnapshotSupport};
use crate::conversation::{Progress, ProgressView, Reply, ReplyView, StoreOp, StoreOpView};
use crate::error::{Error, ErrorView};
use crate::identity::{BoxId, SnapshotId};
use crate::number;
use crate::ordered::OrderedMap;
use crate::runtime::{
    BoxInfo, BoxInfoView, BoxState, ExecOutput, ExecOutputView, ExecRequest, ExecRequestView,
    Sandbox,
};
use crate::shell;
use crate::text;

verus! {

/// The name this sandbox registers under.
pub const NAME: &'static str = "docker";

/// The namespace of a tinybox that has the daemon to itself.
pub const DEFAULT_NAMESPACE: &'static str = "default";

/// How many characters of an image's digest name a snapshot.
pub const DIGEST_LENGTH: usize = 12;

/// The name of a box's container.
pub open spec fn container_name(namespace: Seq<char>, id: Seq<char>) -> Seq<char> {
    "tinybox-"@ + namespace + "-"@ + id
}

/// The image that a box is started from, if its source is one.
pub open spec fn image_of(source: SourceView) -> Option<Seq<char>> {
    match source {
        SourceView::OciImage(image) => Some(image),
        SourceView::Snapshot(id) => snapshot_image(id),
        _ => None,
    }
}

/// The image that a snapshot's identifier stands for.
pub open spec fn snapshot_image(id: Seq<char>) -> Option<Seq<char>> {
    if "sha-"@.is_prefix_of(id) {
        Some(id.skip("sha-"@.len() as int))
    } else {
        None
    }
}

/// The identifier of the snapshot whose image was reported, if one was.
pub open spec fn reported_snapshot(reported: Seq<char>) -> Option<Seq<char>> {
    let line = text::trimmed(reported);
    if "sha256:"@.is_prefix_of(line) {
        let digest = line.skip("sha256:"@.len() as int);
        let id = "sha-"@ + digest.take(DIGEST_LENGTH as int);
        if digest.len() >= DIGEST_LENGTH && crate::identity::is_name(id) {
            Some(id)
        } else {
            None
        }
    } else {
        None
    }
}

/// The options that cut a box off from the network, unless it may use it.
pub open spec fn network_options(network: NetworkPolicy) -> Seq<Seq<char>> {
    match network {
        NetworkPolicy::Denied => seq!["--network"@, "none"@],
        NetworkPolicy::Allowed => Seq::empty(),
    }
}

/// The options that cap what a box consumes. A quota is in microseconds of each
/// tenth of a second, so a thousandth of a core is a hundred of them. Disk is
/// left alone: few storage drivers can cap it.
pub open spec fn limit_options(resources: Resources) -> Seq<Seq<char>> {
    seq![
        "--cpu-quota"@,
        number::decimal_text((resources.cpu_millis * 100) as nat),
        "--memory"@,
        number::decimal_text(resources.memory_bytes as nat),
        "--pids-limit"@,
        number::decimal_text(resources.pids_max as nat),
    ]
}

/// The options that set variables, in the order of their names.
pub open spec fn pair_options(pairs: Seq<(Seq<char>, Seq<char>)>) -> Seq<Seq<char>>
    decreases pairs.len(),
{
    if pairs.len() == 0 {
        Seq::empty()
    } else {
        pair_options(pairs.drop_last()) + seq!["--env"@, shell::assignment(pairs.last())]
    }
}

/// The options that set variables, in the order of their names.
pub open spec fn env_options(env: Map<Seq<char>, Seq<char>>) -> Seq<Seq<char>> {
    pair_options(crate::ordered::sorted_pairs(env))
}

/// The command line that starts a box's container.
pub open spec fn run_argv(name: Seq<char>, image: Seq<char>, spec: BoxSpecView) -> Seq<Seq<char>> {
    seq!["docker"@, "run"@, "--detach"@, "--name"@, name] + network_options(spec.network)
        + limit_options(spec.resources) + env_options(spec.env) + seq![
        image,
        "sleep"@,
        "infinity"@,
    ]
}

/// The options that say where a command runs.
pub open spec fn workdir_options(cwd: Option<Seq<char>>) -> Seq<Seq<char>> {
    match cwd {
        Some(cwd) => seq!["--workdir"@, cwd],
        None => Seq::empty(),
    }
}

/// The options that keep a command's input open, if there is any.
pub open spec fn input_options(stdin: Option<Seq<u8>>) -> Seq<Seq<char>> {
    match stdin {
        Some(_) => seq!["--interactive"@],
        None => Seq::empty(),
    }
}

/// The command line that runs a command in a box's container.
pub open spec fn exec_argv(name: Seq<char>, request: ExecRequestView) -> Seq<Seq<char>> {
    seq!["docker"@, "exec"@] + input_options(request.stdin) + workdir_options(request.cwd)
        + env_options(request.env) + seq![name] + request.argv
}

/// The command line that asks for the state of a box's container.
pub open spec fn status_argv(name: Seq<char>) -> Seq<Seq<char>> {
    seq!["docker"@, "inspect"@, "--format"@, "{{.State.Status}}"@, name]
}

/// The command line that captures a box's filesystem.
pub open spec fn commit_argv(name: Seq<char>) -> Seq<Seq<char>> {
    seq!["docker"@, "commit"@, name]
}

/// The command line that asks for an image.
pub open spec fn image_argv(image: Seq<char>) -> Seq<Seq<char>> {
    seq!["docker"@, "image"@, "inspect"@, image]
}

/// The command line that removes a box's container, running or not.
pub open spec fn rm_argv(name: Seq<char>) -> Seq<Seq<char>> {
    seq!["docker"@, "rm"@, "--force"@, name]
}

/// A `docker` command that failed.
pub open spec fn docker_failure(operation: Seq<char>, message: Seq<char>) -> ErrorView {
    ErrorView::Backend { sandbox: "docker"@, operation, message }
}

/// How a `docker` command goes that has to succeed.
pub open spec fn asks_docker(
    argv: Seq<Seq<char>>,
    operation: Seq<char>,
    replies: Seq<ReplyView>,
    at: int,
) -> ProgressView<ExecOutputView> {
    match crate::conversation::asks_run(crate::runtime::plain_request(argv), replies, at) {
        ProgressView::Ask(effect) => ProgressView::Ask(effect),
        ProgressView::Failed(error, next) => ProgressView::Failed(error, next),
        ProgressView::Done(output, next) => if output.exit_code == 0 {
            ProgressView::Done(output, next)
        } else {
            ProgressView::Failed(
                docker_failure(operation, text::trimmed(text::lossy_text(output.stderr))),
                next,
            )
        },
    }
}

/// How starting a container and recording its box goes.
pub open spec fn starting(
    namespace: Seq<char>,
    image: Seq<char>,
    spec: BoxSpecView,
    replies: Seq<ReplyView>,
    at: int,
) -> ProgressView<BoxInfoView> {
    match crate::conversation::asks_allocate(replies, at) {
        ProgressView::Ask(effect) => ProgressView::Ask(effect),
        ProgressView::Failed(error, next) => ProgressView::Failed(error, next),
        ProgressView::Done(id, next) => match asks_docker(
            run_argv(container_name(namespace, id), image, spec),
            "create a box"@,
            replies,
            next,
        ) {
            ProgressView::Ask(effect) => ProgressView::Ask(effect),
            ProgressView::Failed(error, next) => ProgressView::Failed(error, next),
            ProgressView::Done(_, next) => crate::conversation::recording(
                BoxInfoView { id, state: BoxState::Ready, spec },
                replies,
                next,
            ),
        },
    }
}

/// How creating a box goes: its limits are checked, and then what it is made
/// from; it is given a name, its container is started, and it is recorded as
/// ready.
pub open spec fn docker_creating(
    namespace: Seq<char>,
    spec: BoxSpecView,
    replies: Seq<ReplyView>,
    at: int,
) -> ProgressView<BoxInfoView> {
    if !spec.resources.all_positive() {
        ProgressView::Failed(
            ErrorView::ZeroResourceLimit { limit: spec.resources.first_zero() },
            at,
        )
    } else {
        match image_of(spec.source) {
            Some(image) => starting(namespace, image, spec, replies, at),
            None => ProgressView::Failed(
                docker_failure(
                    "create a box"@,
                    "the workspace must be an image or a snapshot"@,
                ),
                at,
            ),
        }
    }
}

/// The state that a container's status stands for.
pub open spec fn state_of(status: Seq<char>) -> BoxState {
    if text::trimmed(status) == "running"@ {
        BoxState::Ready
    } else {
        BoxState::Stopped
    }
}

/// How describing a box goes: its record, in the state its container is in.
pub open spec fn docker_inspecting(
    namespace: Seq<char>,
    id: Seq<char>,
    replies: Seq<ReplyView>,
    at: int,
) -> ProgressView<BoxInfoView> {
    match crate::conversation::asks_fetch(id, replies, at) {
        ProgressView::Ask(effect) => ProgressView::Ask(effect),
        ProgressView::Failed(error, next) => ProgressView::Failed(error, next),
        ProgressView::Done(info, next) => match asks_docker(
            status_argv(container_name(namespace, id)),
            "inspect a box"@,
            replies,
            next,
        ) {
            ProgressView::Ask(effect) => ProgressView::Ask(effect),
            ProgressView::Failed(error, next) => ProgressView::Failed(error, next),
            ProgressView::Done(output, next) => ProgressView::Done(
                crate::store::in_state(info, state_of(text::lossy_text(output.stdout))),
                next,
            ),
        },
    }
}

/// What the host is asked to run for a command in a container.
pub open spec fn exec_request(name: Seq<char>, request: ExecRequestView) -> ExecRequestView {
    ExecRequestView {
        stdin: request.stdin,
        ..crate::runtime::plain_request(exec_argv(name, request))
    }
}

/// How running a command in a box goes: only in a container that is running.
pub open spec fn docker_executing(
    namespace: Seq<char>,
    id: Seq<char>,
    request: ExecRequestView,
    replies: Seq<ReplyView>,
    at: int,
) -> ProgressView<ExecOutputView> {
    if request.argv.len() == 0 {
        ProgressView::Failed(ErrorView::EmptyCommand { sandbox: "docker"@ }, at)
    } else {
        match docker_inspecting(namespace, id, replies, at) {
            ProgressView::Ask(effect) => ProgressView::Ask(effect),
            ProgressView::Failed(error, next) => ProgressView::Failed(error, next),
            ProgressView::Done(info, next) => match info.state {
                BoxState::Ready => crate::conversation::asks_run(
                    exec_request(container_name(namespace, id), request),
                    replies,
                    next,
                ),
                BoxState::Stopped => ProgressView::Failed(
                    ErrorView::InvalidState {
                        id,
                        actual: BoxState::Stopped,
                        expected: BoxState::Ready,
                    },
                    next,
                ),
            },
        }
    }
}

/// How capturing a box goes.
pub open spec fn docker_capturing(
    namespace: Seq<char>,
    id: Seq<char>,
    replies: Seq<ReplyView>,
    at: int,
) -> ProgressView<Seq<char>> {
    match crate::conversation::asks_fetch(id, replies, at) {
        ProgressView::Ask(effect) => ProgressView::Ask(effect),
        ProgressView::Failed(error, next) => ProgressView::Failed(error, next),
        ProgressView::Done(_, next) => match asks_docker(
            commit_argv(container_name(namespace, id)),
            "snapshot a box"@,
            replies,
            next,
        ) {
            ProgressView::Ask(effect) => ProgressView::Ask(effect),
            ProgressView::Failed(error, next) => ProgressView::Failed(error, next),
            ProgressView::Done(output, next) => match reported_snapshot(
                text::lossy_text(output.stdout),
            ) {
                Some(snapshot) => ProgressView::Done(snapshot, next),
                None => ProgressView::Failed(
                    docker_failure("snapshot a box"@, "docker reported no image"@),
                    next,
                ),
            },
        },
    }
}

/// How forking a snapshot goes: its image has to be there, and the new box
/// starts from it, whatever the specification says it is made from.
pub open spec fn docker_forking(
    namespace: Seq<char>,
    snapshot: Seq<char>,
    spec: BoxSpecView,
    replies: Seq<ReplyView>,
    at: int,
) -> ProgressView<BoxInfoView> {
    match snapshot_image(snapshot) {
        None => ProgressView::Failed(ErrorView::UnknownSnapshot { id: snapshot }, at),
        Some(image) => match crate::conversation::asks_run(
            crate::runtime::plain_request(image_argv(image)),
            replies,
            at,
        ) {
            ProgressView::Ask(effect) => ProgressView::Ask(effect),
            ProgressView::Failed(error, next) => ProgressView::Failed(error, next),
            ProgressView::Done(output, next) => if output.exit_code == 0 {
                docker_creating(
                    namespace,
                    BoxSpecView { source: SourceView::Snapshot(snapshot), ..spec },
                    replies,
                    next,
                )
            } else {
                ProgressView::Failed(ErrorView::UnknownSnapshot { id: snapshot }, next)
            },
        },
    }
}

/// How destroying a box goes: its container first, and then its record.
pub open spec fn docker_destroying(
    namespace: Seq<char>,
    id: Seq<char>,
    replies: Seq<ReplyView>,
    at: int,
) -> ProgressView<()> {
    match crate::conversation::asks_fetch(id, replies, at) {
        ProgressView::Ask(effect) => ProgressView::Ask(effect),
        ProgressView::Failed(error, next) => ProgressView::Failed(error, next),
        ProgressView::Done(_, next) => match asks_docker(
            rm_argv(container_name(namespace, id)),
            "destroy a box"@,
            replies,
            next,
        ) {
            ProgressView::Ask(effect) => ProgressView::Ask(effect),
            ProgressView::Failed(error, next) => ProgressView::Failed(error, next),
            ProgressView::Done(_, next) => crate::conversation::asks_store(
                StoreOpView::Remove(id),
                replies,
                next,
            ),
        },
    }
}

/// What a container can do: it is a kernel boundary, its filesystem can be
/// captured and forked, and its limits are applied. It freezes no memory.
pub open spec fn docker_capabilities() -> SandboxCapabilities {
    SandboxCapabilities {
        isolation: IsolationLevel::Kernel,
        snapshot: SnapshotSupport::Filesystem,
        fork: true,
        pause_resume: false,
        port_forward: false,
        resource_limits: true,
    }
}

/// A sandbox whose boxes are containers.
#[derive(Debug, PartialEq, Eq)]
pub struct DockerSandbox {
    namespace: String,
}

impl View for DockerSandbox {
    type V = Seq<char>;

    closed spec fn view(&self) -> Seq<char> {
        self.namespace@
    }
}

/// Add the options that set variables to a command line.
fn add_env(argv: &mut Vec<String>, env: &OrderedMap<String>)
    ensures
        text::texts(final(argv)@) == text::texts(old(argv)@) + env_options(env@),
{
    let count: usize = env.len();
    let ghost before = text::texts(argv@);
    let ghost pairs = env.pairs();
    let mut i: usize = 0;
    proof {
        assert(before + pair_options(pairs.take(0)) =~= before);
    }
    while i < count
        invariant
            i <= count,
            count == pairs.len(),
            pairs == env.pairs(),
            text::texts(argv@) == before + pair_options(pairs.take(i as int)),
        decreases count - i,
    {
        let (name, value) = env.at(i);
        let setting: String = text::concat3(name.as_str(), "=", value.as_str());
        proof {
            reveal_strlit("=");
            assert("="@ =~= seq!['=']);
            assert(setting@ == shell::assignment(pairs[i as int]));
            assert(pairs.take(i + 1).drop_last() =~= pairs.take(i as int));
            assert(pairs.take(i + 1).last() == pairs[i as int]);
        }
        text::add_to(argv, "--env");
        text::add_to(argv, setting.as_str());
        assert(text::texts(argv@) =~= before + pair_options(pairs.take(i + 1)));
        i = i + 1;
    }
    assert(pairs.take(count as int) =~= pairs);
}

/// A `docker` command line of a few words.
fn docker_words(first: &str, second: &str, third: &str) -> (argv: Vec<String>)
    ensures
        text::texts(argv@) == seq!["docker"@, first@, second@, third@],
{
    let mut argv: Vec<String> = Vec::new();
    text::add_to(&mut argv, "docker");
    text::add_to(&mut argv, first);
    text::add_to(&mut argv, second);
    text::add_to(&mut argv, third);
    assert(text::texts(argv@) =~= seq!["docker"@, first@, second@, third@]);
    argv
}

/// Run a `docker` command that has to succeed.
fn ask_docker(argv: Vec<String>, operation: &'static str, replies: &Vec<Reply>, at: usize) -> (progress:
    Progress<ExecOutput>)
    ensures
        progress@ == asks_docker(
            text::texts(argv@),
            operation@,
            crate::conversation::history(replies@),
            at as int,
        ),
{
    match crate::conversation::ask_run(ExecRequest::new(argv), replies, at) {
        Progress::Ask(effect) => Progress::Ask(effect),
        Progress::Failed(error, next) => Progress::Failed(error, next),
        Progress::Done(output, next) => if output.succeeded() {
            Progress::Done(output, next)
        } else {
            let said: String = output.stderr_lossy();
            Progress::Failed(
                Error::Backend {
                    sandbox: NAME.to_owned(),
                    operation,
                    message: text::trim(said.as_str()),
                },
                next,
            )
        },
    }
}

/// The image that a snapshot's identifier stands for.
fn image_of_snapshot(id: &SnapshotId) -> (image: Option<String>)
    ensures
        text::text_option(image) == snapshot_image(id@),
{
    let image: Option<String> = text::strip_prefix(id.as_str(), "sha-");
    proof {
        if image is Some {
            assert(id@.skip("sha-"@.len() as int) =~= image->0@);
            assert("sha-"@ =~= id@.take("sha-"@.len() as int));
        }
    }
    image
}

/// The identifier of the snapshot whose image was reported, if one was.
pub fn read_snapshot(reported: &str) -> (snapshot: Option<SnapshotId>)
    ensures
        match snapshot {
            Some(snapshot) => reported_snapshot(reported@) == Some(snapshot@),
            None => reported_snapshot(reported@) is None,
        },
{
    let line: String = text::trim(reported);
    match text::strip_prefix(line.as_str(), "sha256:") {
        Some(digest) => {
            proof {
                assert(line@.skip("sha256:"@.len() as int) =~= digest@);
                assert("sha256:"@ =~= line@.take("sha256:"@.len() as int));
            }
            if digest.as_str().unicode_len() < DIGEST_LENGTH {
                return None;
            }
            let short: &str = digest.as_str().substring_char(0, DIGEST_LENGTH);
            assert(short@ =~= digest@.take(DIGEST_LENGTH as int));
            let id: String = "sha-".to_owned().concat(short);
            match SnapshotId::new(id.as_str()) {
                Ok(snapshot) => Some(snapshot),
                Err(_) => None,
            }
        },
        None => None,
    }
}

impl DockerSandbox {
    /// Keep a tinybox's containers apart from those of another that shares the
    /// daemon.
    pub fn new(namespace: &str) -> (sandbox: Result<DockerSandbox, Error>)
        ensures
            match sandbox {
                Ok(sandbox) => crate::identity::is_name(namespace@) && sandbox@ == namespace@,
                Err(error) => !crate::identity::is_name(namespace@) && error@
                    == crate::error::invalid_name("docker namespace"@, namespace@),
            },
    {
        if crate::identity::check_name(namespace) {
            Ok(DockerSandbox { namespace: namespace.to_owned() })
        } else {
            Err(Error::InvalidIdentifier { kind: "docker namespace", value: namespace.to_owned() })
        }
    }

    /// The name of a box's container.
    pub fn container(&self, id: &BoxId) -> (name: String)
        ensures
            name@ == container_name(self@, id@),
    {
        text::concat3("tinybox-", self.namespace.as_str(), "-").concat(id.as_str())
    }

    /// The command line that starts a box's container.
    pub fn run_command(name: &str, image: &str, spec: &BoxSpec) -> (argv: Vec<String>)
        ensures
            text::texts(argv@) == run_argv(name@, image@, spec@),
    {
        let mut argv: Vec<String> = Vec::new();
        text::add_to(&mut argv, "docker");
        text::add_to(&mut argv, "run");
        text::add_to(&mut argv, "--detach");
        text::add_to(&mut argv, "--name");
        text::add_to(&mut argv, name);
        if let NetworkPolicy::Denied = spec.network {
            text::add_to(&mut argv, "--network");
            text::add_to(&mut argv, "none");
        }
        let quota: u64 = spec.resources.cpu_millis as u64 * 100;
        text::add_to(&mut argv, "--cpu-quota");
        text::add_to(&mut argv, number::decimal(quota).as_str());
        text::add_to(&mut argv, "--memory");
        text::add_to(&mut argv, number::decimal(spec.resources.memory_bytes).as_str());
        text::add_to(&mut argv, "--pids-limit");
        text::add_to(&mut argv, number::decimal(spec.resources.pids_max as u64).as_str());
        assert(text::texts(argv@) =~= seq!["docker"@, "run"@, "--detach"@, "--name"@, name@]
            + network_options(spec@.network) + limit_options(spec@.resources));
        add_env(&mut argv, &spec.env);
        text::add_to(&mut argv, image);
        text::add_to(&mut argv, "sleep");
        text::add_to(&mut argv, "infinity");
        assert(text::texts(argv@) =~= run_argv(name@, image@, spec@));
        argv
    }

    /// The command line that runs a command in a box's container.
    pub fn exec_command(name: &str, request: &ExecRequest) -> (argv: Vec<String>)
        ensures
            text::texts(argv@) == exec_argv(name@, request@),
    {
        let mut argv: Vec<String> = Vec::new();
        text::add_to(&mut argv, "docker");
        text::add_to(&mut argv, "exec");
        if request.stdin.is_some() {
            text::add_to(&mut argv, "--interactive");
        }
        if let Some(cwd) = &request.cwd {
            text::add_to(&mut argv, "--workdir");
            text::add_to(&mut argv, cwd.as_str());
        }
        assert(text::texts(argv@) =~= seq!["docker"@, "exec"@] + input_options(request@.stdin)
            + workdir_options(request@.cwd));
        add_env(&mut argv, &request.env);
        text::add_to(&mut argv, name);
        text::add_all_to(&mut argv, &request.argv);
        assert(text::texts(argv@) =~= exec_argv(name@, request@));
        argv
    }

    /// Start a container and record its box.
    fn start(&self, image: &str, spec: &BoxSpec, replies: &Vec<Reply>, at: usize) -> (progress:
        Progress<BoxInfo>)
        ensures
            progress@ == starting(
                self@,
                image@,
                spec@,
                crate::conversation::history(replies@),
                at as int,
            ),
    {
        match crate::conversation::ask_allocate(replies, at) {
            Progress::Ask(effect) => Progress::Ask(effect),
            Progress::Failed(error, next) => Progress::Failed(error, next),
            Progress::Done(id, next) => {
                let name: String = self.container(&id);
                let argv: Vec<String> = DockerSandbox::run_command(name.as_str(), image, spec);
                match ask_docker(argv, "create a box", replies, next) {
                    Progress::Ask(effect) => Progress::Ask(effect),
                    Progress::Failed(error, next) => Progress::Failed(error, next),
                    Progress::Done(_, next) => crate::conversation::record(
                        BoxInfo::new(id, BoxState::Ready, spec.clone()),
                        replies,
                        next,
                    ),
                }
            },
        }
    }
}

impl Sandbox for DockerSandbox {
    open spec fn confinement(&self) -> Seq<char> {
        "docker"@
    }

    open spec fn declared(&self) -> SandboxCapabilities {
        docker_capabilities()
    }

    open spec fn creating(&self, spec: BoxSpecView, replies: Seq<ReplyView>, at: int) -> ProgressView<
        BoxInfoView,
    > {
        docker_creating(self@, spec, replies, at)
    }

    open spec fn executing(
        &self,
        id: Seq<char>,
        request: ExecRequestView,
        replies: Seq<ReplyView>,
        at: int,
    ) -> ProgressView<ExecOutputView> {
        docker_executing(self@, id, request, replies, at)
    }

    open spec fn capturing(&self, id: Seq<char>, replies: Seq<ReplyView>, at: int) -> ProgressView<
        Seq<char>,
    > {
        docker_capturing(self@, id, replies, at)
    }

    open spec fn forking(
        &self,
        snapshot: Seq<char>,
        spec: BoxSpecView,
        replies: Seq<ReplyView>,
        at: int,
    ) -> ProgressView<BoxInfoView> {
        docker_forking(self@, snapshot, spec, replies, at)
    }

    open spec fn inspecting(&self, id: Seq<char>, replies: Seq<ReplyView>, at: int) -> ProgressView<
        BoxInfoView,
    > {
        docker_inspecting(self@, id, replies, at)
    }

    open spec fn destroying(&self, id: Seq<char>, replies: Seq<ReplyView>, at: int) -> ProgressView<
        (),
    > {
        docker_destroying(self@, id, replies, at)
    }

    fn name(&self) -> (name: &'static str) {
        NAME
    }

    fn capabilities(&self) -> (capabilities: SandboxCapabilities) {
        SandboxCapabilities::new(
            IsolationLevel::Kernel,
            SnapshotSupport::Filesystem,
            true,
            false,
            false,
        ).with_resource_limits()
    }

    fn create(&self, spec: &BoxSpec, replies: &Vec<Reply>, at: usize) -> (progress: Progress<BoxInfo>) {
        if let Err(error) = spec.validate() {
            return Progress::Failed(error, at);
        }
        let image: Option<String> = match &spec.source {
            WorkspaceSource::OciImage(image) => Some(image.clone()),
            WorkspaceSource::Snapshot(id) => image_of_snapshot(id),
            _ => None,
        };
        match image {
            Some(image) => self.start(image.as_str(), spec, replies, at),
            None => Progress::Failed(
                Error::Backend {
                    sandbox: NAME.to_owned(),
                    operation: "create a box",
                    message: "the workspace must be an image or a snapshot".to_owned(),
                },
                at,
            ),
        }
    }

    fn exec(&self, id: &BoxId, request: &ExecRequest, replies: &Vec<Reply>, at: usize) -> (progress:
        Progress<ExecOutput>) {
        if request.argv.len() == 0 {
            return Progress::Failed(Error::EmptyCommand { sandbox: NAME.to_owned() }, at);
        }
        match self.inspect(id, replies, at) {
            Progress::Ask(effect) => Progress::Ask(effect),
            Progress::Failed(error, next) => Progress::Failed(error, next),
            Progress::Done(info, next) => match info.state {
                BoxState::Ready => {
                    let name: String = self.container(id);
                    let argv: Vec<String> = DockerSandbox::exec_command(name.as_str(), request);
                    let mut placed: ExecRequest = ExecRequest::new(argv);
                    if let Some(stdin) = &request.stdin {
                        placed = placed.with_stdin(crate::runtime::copy_bytes(stdin));
                    }
                    crate::conversation::ask_run(placed, replies, next)
                },
                BoxState::Stopped => Progress::Failed(
                    Error::InvalidState {
                        id: id.as_str().to_owned(),
                        actual: BoxState::Stopped,
                        expected: BoxState::Ready,
                    },
                    next,
                ),
            },
        }
    }

    fn snapshot(&self, id: &BoxId, replies: &Vec<Reply>, at: usize) -> (progress: Progress<SnapshotId>) {
        match crate::conversation::ask_fetch(id, replies, at) {
            Progress::Ask(effect) => Progress::Ask(effect),
            Progress::Failed(error, next) => Progress::Failed(error, next),
            Progress::Done(_, next) => {
                let name: String = self.container(id);
                let mut argv: Vec<String> = Vec::new();
                text::add_to(&mut argv, "docker");
                text::add_to(&mut argv, "commit");
                text::add_to(&mut argv, name.as_str());
                assert(text::texts(argv@) =~= commit_argv(name@));
                match ask_docker(argv, "snapshot a box", replies, next) {
                    Progress::Ask(effect) => Progress::Ask(effect),
                    Progress::Failed(error, next) => Progress::Failed(error, next),
                    Progress::Done(output, next) => {
                        let reported: String = output.stdout_lossy();
                        match read_snapshot(reported.as_str()) {
                            Some(snapshot) => Progress::Done(snapshot, next),
                            None => Progress::Failed(
                                Error::Backend {
                                    sandbox: NAME.to_owned(),
                                    operation: "snapshot a box",
                                    message: "docker reported no image".to_owned(),
                                },
                                next,
                            ),
                        }
                    },
                }
            },
        }
    }

    fn fork(&self, snapshot: &SnapshotId, spec: &BoxSpec, replies: &Vec<Reply>, at: usize) -> (progress:
        Progress<BoxInfo>) {
        let image: String = match image_of_snapshot(snapshot) {
            Some(image) => image,
            None => {
                return Progress::Failed(
                    Error::UnknownSnapshot { id: snapshot.as_str().to_owned() },
                    at,
                );
            },
        };
        let argv: Vec<String> = docker_words("image", "inspect", image.as_str());
        match crate::conversation::ask_run(ExecRequest::new(argv), replies, at) {
            Progress::Ask(effect) => Progress::Ask(effect),
            Progress::Failed(error, next) => Progress::Failed(error, next),
            Progress::Done(output, next) => if output.succeeded() {
                let mut branched: BoxSpec = spec.clone();
                branched.source = WorkspaceSource::Snapshot(snapshot.clone());
                self.create(&branched, replies, next)
            } else {
                Progress::Failed(
                    Error::UnknownSnapshot { id: snapshot.as_str().to_owned() },
                    next,
                )
            },
        }
    }

    fn inspect(&self, id: &BoxId, replies: &Vec<Reply>, at: usize) -> (progress: Progress<BoxInfo>) {
        match crate::conversation::ask_fetch(id, replies, at) {
            Progress::Ask(effect) => Progress::Ask(effect),
            Progress::Failed(error, next) => Progress::Failed(error, next),
            Progress::Done(info, next) => {
                let name: String = self.container(id);
                let mut argv: Vec<String> = docker_words(
                    "inspect",
                    "--format",
                    "{{.State.Status}}",
                );
                text::add_to(&mut argv, name.as_str());
                assert(text::texts(argv@) =~= status_argv(name@));
                match ask_docker(argv, "inspect a box", replies, next) {
                    Progress::Ask(effect) => Progress::Ask(effect),
                    Progress::Failed(error, next) => Progress::Failed(error, next),
                    Progress::Done(output, next) => {
                        let status: String = output.stdout_lossy();
                        let running: bool = text::same(text::trim(status.as_str()).as_str(), "running");
                        let state: BoxState = if running {
                            BoxState::Ready
                        } else {
                            BoxState::Stopped
                        };
                        Progress::Done(BoxInfo::new(info.id, state, info.spec), next)
                    },
                }
            },
        }
    }

    fn destroy(&self, id: &BoxId, replies: &Vec<Reply>, at: usize) -> (progress: Progress<()>) {
        match crate::conversation::ask_fetch(id, replies, at) {
            Progress::Ask(effect) => Progress::Ask(effect),
            Progress::Failed(error, next) => Progress::Failed(error, next),
            Progress::Done(_, next) => {
                let name: String = self.container(id);
                let argv: Vec<String> = docker_words("rm", "--force", name.as_str());
                match ask_docker(argv, "destroy a box", replies, next) {
                    Progress::Ask(effect) => Progress::Ask(effect),
                    Progress::Failed(error, next) => Progress::Failed(error, next),
                    Progress::Done(_, next) => crate::conversation::ask_store(
                        StoreOp::Remove(id.clone()),
                        replies,
                        next,
                    ),
                }
            },
        }
    }
}

/// A container name is made of characters that need no escaping, and cannot be
/// read as an option.
pub proof fn a_container_name_needs_no_escaping(namespace: Seq<char>, id: Seq<char>)
    requires
        crate::identity::is_name(namespace),
        crate::identity::is_name(id),
    ensures
        container_name(namespace, id)[0] == 't',
        forall|i: int|
            0 <= i < container_name(namespace, id).len() ==> crate::identity::is_name_character(
                #[trigger] container_name(namespace, id)[i],
            ),
{
    reveal_strlit("tinybox-");
    reveal_strlit("-");
    let name = container_name(namespace, id);
    assert forall|i: int| 0 <= i < name.len() implies crate::identity::is_name_character(
        #[trigger] name[i],
    ) by {
        let skipped = namespace.len() + 9;
        if 8 <= i < skipped - 1 {
            assert(name[i] == namespace[i - 8]);
        } else if i >= skipped {
            assert(name[i] == id[i - skipped]);
        }
    }
}

/// In one namespace, every box has a container of its own.
pub proof fn every_box_has_its_own_container(namespace: Seq<char>, left: Seq<char>, right: Seq<char>)
    requires
        container_name(namespace, left) == container_name(namespace, right),
    ensures
        left == right,
{
    let skipped = ("tinybox-"@ + namespace + "-"@).len() as int;
    assert(container_name(namespace, left).skip(skipped) =~= left);
    assert(container_name(namespace, right).skip(skipped) =~= right);
}

/// Two tinyboxes that share a daemon keep their containers apart by their
/// namespaces, though both name their boxes in the same way.
pub proof fn namespaces_keep_containers_apart(
    left: Seq<char>,
    left_number: nat,
    right: Seq<char>,
    right_number: nat,
)
    requires
        container_name(left, crate::store::box_name(left_number)) == container_name(
            right,
            crate::store::box_name(right_number),
        ),
    ensures
        left == right,
        left_number == right_number,
{
    reveal_strlit("tinybox-");
    reveal_strlit("-");
    let left_digits = number::decimal_text(left_number);
    let right_digits = number::decimal_text(right_number);
    let name = container_name(left, crate::store::box_name(left_number));
    number::decimal_is_digits(left_number);
    number::decimal_is_digits(right_number);
    let left_dash = name.len() - left_digits.len() - 1;
    let right_dash = name.len() - right_digits.len() - 1;
    assert(name[left_dash] == '-');
    assert(name[right_dash] == '-');
    if left_dash < right_dash {
        assert(name[right_dash] == left_digits[right_dash - left_dash - 1]);
    }
    if right_dash < left_dash {
        assert(name[left_dash] == right_digits[left_dash - right_dash - 1]);
    }
    assert(name.skip(left_dash + 1) =~= left_digits);
    assert(name.skip(right_dash + 1) =~= right_digits);
    number::decimal_is_injective(left_number, right_number);
    assert(name.subrange(8, left_dash - 4) =~= left);
    assert(name.subrange(8, right_dash - 4) =~= right);
}

/// A captured box is forked from the very image that was reported.
pub proof fn a_snapshot_names_its_image(reported: Seq<char>)
    requires
        reported_snapshot(reported) is Some,
    ensures
        snapshot_image(reported_snapshot(reported)->0) == Some(
            text::trimmed(reported).skip("sha256:"@.len() as int).take(DIGEST_LENGTH as int),
        ),
{
    let digest = text::trimmed(reported).skip("sha256:"@.len() as int);
    let id = "sha-"@ + digest.take(DIGEST_LENGTH as int);
    assert("sha-"@.is_prefix_of(id)) by {
        assert(id.take("sha-"@.len() as int) =~= "sha-"@);
    }
    assert(id.skip("sha-"@.len() as int) =~= digest.take(DIGEST_LENGTH as int));
}

/// A fork starts from the snapshot's image, whatever the specification says the
/// box is made from.
pub proof fn a_fork_starts_from_its_snapshot(
    namespace: Seq<char>,
    snapshot: Seq<char>,
    spec: BoxSpecView,
    found: ExecOutputView,
    id: Seq<char>,
)
    requires
        snapshot_image(snapshot) is Some,
        spec.resources.all_positive(),
        found.exit_code == 0,
    ensures
        docker_forking(
            namespace,
            snapshot,
            spec,
            seq![ReplyView::Ran(Ok(found)), ReplyView::Allocated(Ok(id))],
            0,
        ) == ProgressView::<BoxInfoView>::Ask(
            crate::conversation::EffectView::Run(
                crate::runtime::plain_request(
                    run_argv(container_name(namespace, id), snapshot_image(snapshot)->0, spec),
                ),
            ),
        ),
{
}

/// A record is forgotten only once its container has been removed.
pub proof fn no_container_is_orphaned(
    namespace: Seq<char>,
    id: Seq<char>,
    replies: Seq<ReplyView>,
    at: int,
)
    requires
        0 <= at,
        docker_destroying(namespace, id, replies, at) == ProgressView::<()>::Ask(
            crate::conversation::EffectView::Store(StoreOpView::Remove(id)),
        ) || docker_destroying(namespace, id, replies, at) is Done,
    ensures
        docker_destroying(namespace, id, replies.take(at + 1), at) == ProgressView::<()>::Ask(
            crate::conversation::EffectView::Run(
                crate::runtime::plain_request(rm_argv(container_name(namespace, id))),
            ),
        ),
        at + 1 < replies.len(),
        replies[at + 1] matches ReplyView::Ran(Ok(output)) && output.exit_code == 0,
{
    assert(replies.take(at + 1)[at] == replies[at]);
}

/// Containers clear the floor for code that nobody trusts, and boxes that are
/// mere directories do not.
pub proof fn only_containers_hold_untrusted_code()
    ensures
        docker_capabilities().contains_untrusted_code(),
        !SandboxCapabilities::confining_nothing().contains_untrusted_code(),
{
}

/// A container is cut off from the network unless its box may use it, and by
/// default a box may not.
pub proof fn a_denied_network_is_cut_off(name: Seq<char>, image: Seq<char>, spec: BoxSpecView)
    ensures
        spec.network is Denied ==> run_argv(name, image, spec).subrange(5, 7) == seq![
            "--network"@,
            "none"@,
        ],
        crate::box_spec::plain_spec(spec.workspace, spec.source).network is Denied,
{
    assert(spec.network is Denied ==> run_argv(name, image, spec).subrange(5, 7) =~= seq![
        "--network"@,
        "none"@,
    ]);
}

/// What runs in a container is the argument vector itself, after the
/// container's name.
pub proof fn a_command_enters_a_container_unchanged(name: Seq<char>, request: ExecRequestView)
    ensures
        ({
            let argv = exec_argv(name, request);
            let skipped = argv.len() - request.argv.len();
            &&& argv.skip(skipped) == request.argv
            &&& argv[skipped - 1] == name
        }),
{
    let argv = exec_argv(name, request);
    assert(argv.skip(argv.len() - request.argv.len()) =~= request.argv);
}

/// There are two words for each variable.
proof fn two_words_for_each(pairs: Seq<(Seq<char>, Seq<char>)>)
    ensures
        pair_options(pairs).len() == 2 * pairs.len(),
    decreases pairs.len(),
{
    if pairs.len() > 0 {
        two_words_for_each(pairs.drop_last());
    }
}

/// The words for the variable at position `i`.
proof fn words_for_one(pairs: Seq<(Seq<char>, Seq<char>)>, i: int)
    requires
        0 <= i < pairs.len(),
    ensures
        pair_options(pairs)[2 * i] == "--env"@,
        pair_options(pairs)[2 * i + 1] == shell::assignment(pairs[i]),
    decreases pairs.len(),
{
    let shorter = pairs.drop_last();
    two_words_for_each(shorter);
    two_words_for_each(pairs);
    if i < shorter.len() {
        words_for_one(shorter, i);
        assert(shorter[i] == pairs[i]);
    }
}

/// The variables of a container are set one by one: two words for each, `--env`
/// and `KEY=value`, in the order of the names, and nothing for none.
pub proof fn every_variable_is_set(env: Map<Seq<char>, Seq<char>>, i: int)
    requires
        0 <= i < crate::ordered::sorted_pairs(env).len(),
    ensures
        ({
            let pairs = crate::ordered::sorted_pairs(env);
            &&& env_options(env).len() == 2 * pairs.len()
            &&& env_options(env)[2 * i] == "--env"@
            &&& env_options(env)[2 * i + 1] == pairs[i].0 + "="@ + pairs[i].1
        }),
{
    reveal_strlit("=");
    assert("="@ =~= seq!['=']);
    two_words_for_each(crate::ordered::sorted_pairs(env));
    words_for_one(crate::ordered::sorted_pairs(env), i);
}

/// Where there are no variables, nothing is set.
pub proof fn no_variable_sets_nothing()
    ensures
        env_options(Map::empty()) == Seq::<Seq<char>>::empty(),
{
    let none = Seq::<(Seq<char>, Seq<char>)>::empty();
    assert(crate::ordered::map_of(none) =~= Map::empty());
    crate::ordered::sorted_pairs_of(none);
}

/// The commands that containers are driven by, word by word.
pub proof fn the_docker_commands_are_known(
    namespace: Seq<char>,
    id: Seq<char>,
    image: Seq<char>,
    spec: BoxSpecView,
    request: ExecRequestView,
)
    ensures
        ({
            let name = "tinybox-"@ + namespace + "-"@ + id;
            let limits = seq![
                "--cpu-quota"@,
                number::decimal_text((spec.resources.cpu_millis * 100) as nat),
                "--memory"@,
                number::decimal_text(spec.resources.memory_bytes as nat),
                "--pids-limit"@,
                number::decimal_text(spec.resources.pids_max as nat),
            ];
            let workdir = match request.cwd {
                Some(cwd) => seq!["--workdir"@, cwd],
                None => Seq::empty(),
            };
            let input = match request.stdin {
                Some(_) => seq!["--interactive"@],
                None => Seq::empty(),
            };
            &&& container_name(namespace, id) == name
            &&& spec.network is Denied ==> run_argv(name, image, spec) == seq![
                "docker"@,
                "run"@,
                "--detach"@,
                "--name"@,
                name,
                "--network"@,
                "none"@,
            ] + limits + env_options(spec.env) + seq![image, "sleep"@, "infinity"@]
            &&& spec.network is Allowed ==> run_argv(name, image, spec) == seq![
                "docker"@,
                "run"@,
                "--detach"@,
                "--name"@,
                name,
            ] + limits + env_options(spec.env) + seq![image, "sleep"@, "infinity"@]
            &&& exec_argv(name, request) == seq!["docker"@, "exec"@] + input + workdir
                + env_options(request.env) + seq![name] + request.argv
            &&& exec_request(name, request).argv == exec_argv(name, request)
            &&& exec_request(name, request).stdin == request.stdin
            &&& exec_request(name, request).cwd is None
            &&& exec_request(name, request).env == Map::<Seq<char>, Seq<char>>::empty()
            &&& status_argv(name) == seq![
                "docker"@,
                "inspect"@,
                "--format"@,
                "{{.State.Status}}"@,
                name,
            ]
            &&& commit_argv(name) == seq!["docker"@, "commit"@, name]
            &&& image_argv(image) == seq!["docker"@, "image"@, "inspect"@, image]
            &&& rm_argv(name) == seq!["docker"@, "rm"@, "--force"@, name]
        }),
{
    let name = container_name(namespace, id);
    let limits = limit_options(spec.resources);
    if spec.network is Denied {
        assert(run_argv(name, image, spec) =~= seq![
            "docker"@,
            "run"@,
            "--detach"@,
            "--name"@,
            name,
            "--network"@,
            "none"@,
        ] + limits + env_options(spec.env) + seq![image, "sleep"@, "infinity"@]);
    } else {
        assert(run_argv(name, image, spec) =~= seq![
            "docker"@,
            "run"@,
            "--detach"@,
            "--name"@,
            name,
        ] + limits + env_options(spec.env) + seq![image, "sleep"@, "infinity"@]);
    }
}

/// A plain command in a container is `docker exec`, the container, and exactly
/// the arguments that were given.
pub proof fn a_plain_command_in_a_container_is_known(
    namespace: Seq<char>,
    id: Seq<char>,
    argv: Seq<Seq<char>>,
)
    ensures
        exec_argv(container_name(namespace, id), crate::runtime::plain_request(argv)) == seq![
            "docker"@,
            "exec"@,
            "tinybox-"@ + namespace + "-"@ + id,
        ] + argv,
{
    no_variable_sets_nothing();
    assert(exec_argv(container_name(namespace, id), crate::runtime::plain_request(argv)) =~= seq![
        "docker"@,
        "exec"@,
        "tinybox-"@ + namespace + "-"@ + id,
    ] + argv);
}

/// A container is running when its status says so, whatever white space stands
/// around the word, and only then.
pub proof fn a_running_container_is_ready(lead: Seq<char>, trail: Seq<char>, status: Seq<char>)
    requires
        forall|i: int| 0 <= i < lead.len() ==> text::is_space(#[trigger] lead[i]),
        forall|i: int| 0 <= i < trail.len() ==> text::is_space(#[trigger] trail[i]),
    ensures
        state_of(lead + "running"@ + trail) is Ready,
        state_of("running"@) is Ready,
        state_of("running\n"@) is Ready,
        state_of(status) is Ready ==> exists|before: Seq<char>, after: Seq<char>|
            {
                &&& status == #[trigger] (before + "running"@ + after)
                &&& forall|i: int| 0 <= i < before.len() ==> text::is_space(#[trigger] before[i])
                &&& forall|i: int| 0 <= i < after.len() ==> text::is_space(#[trigger] after[i])
            },
{
    reveal_strlit("running");
    reveal_strlit("running\n");
    let none = Seq::<char>::empty();
    text::trimming_keeps_what_is_inside(lead, "running"@, trail);
    text::trimming_keeps_what_is_inside(none, "running"@, none);
    text::trimming_keeps_what_is_inside(none, "running"@, seq!['\n']);
    assert(none + "running"@ + none =~= "running"@);
    assert(none + "running"@ + seq!['\n'] =~= "running\n"@);
    let sides = text::trimming_takes_only_white_space(status);
    if state_of(status) is Ready {
        assert(status == sides.0 + "running"@ + sides.1);
    }
}

/// A report of `sha256:` and a digest is a snapshot named by the first twelve
/// characters of the digest, whatever white space stands around it; that
/// snapshot's image goes by those characters; and nothing else is a snapshot.
pub proof fn a_snapshot_is_named_by_its_digest(
    lead: Seq<char>,
    digest: Seq<char>,
    trail: Seq<char>,
    reported: Seq<char>,
    image: Seq<char>,
    id: Seq<char>,
)
    requires
        forall|i: int| 0 <= i < lead.len() ==> text::is_space(#[trigger] lead[i]),
        forall|i: int| 0 <= i < trail.len() ==> text::is_space(#[trigger] trail[i]),
        digest.len() > 0 ==> !text::is_space(digest.last()),
    ensures
        digest.len() >= 12 && crate::identity::is_name("sha-"@ + digest.take(12))
            ==> reported_snapshot(lead + ("sha256:"@ + digest) + trail) == Some(
            "sha-"@ + digest.take(12),
        ),
        digest.len() < 12 ==> reported_snapshot(lead + ("sha256:"@ + digest) + trail) is None,
        !"sha256:"@.is_prefix_of(text::trimmed(reported)) ==> reported_snapshot(reported) is None,
        snapshot_image("sha-"@ + image) == Some(image),
        !"sha-"@.is_prefix_of(id) ==> snapshot_image(id) is None,
{
    reveal_strlit("sha256:");
    let line = "sha256:"@ + digest;
    assert(line[0] == 's');
    assert(line.last() == if digest.len() > 0 {
        digest.last()
    } else {
        ':'
    });
    text::trimming_keeps_what_is_inside(lead, line, trail);
    assert("sha256:"@.is_prefix_of(line)) by {
        assert(line.take(7) =~= "sha256:"@);
    }
    assert(line.skip(7) =~= digest);
    let named = "sha-"@ + image;
    assert("sha-"@.is_prefix_of(named)) by {
        assert(named.take("sha-"@.len() as int) =~= "sha-"@);
    }
    assert(named.skip("sha-"@.len() as int) =~= image);
}

/// An image, or a snapshot's image, is what a container starts from; nothing
/// else is one.
pub proof fn a_container_starts_from_an_image(
    image: Seq<char>,
    other: Seq<char>,
    rev: Seq<char>,
)
    ensures
        image_of(SourceView::OciImage(image)) == Some(image),
        image_of(SourceView::Snapshot("sha-"@ + image)) == Some(image),
        image_of(SourceView::LocalDir(other)) is None,
        image_of(SourceView::GitRepo { url: other, rev }) is None,
{
    let named = "sha-"@ + image;
    assert("sha-"@.is_prefix_of(named)) by {
        assert(named.take("sha-"@.len() as int) =~= "sha-"@);
    }
    assert(named.skip("sha-"@.len() as int) =~= image);
}

/// What containers can do: filesystem snapshots, forking and resource limits,
/// behind a kernel boundary.
pub proof fn the_capabilities_of_containers_are_known()
    ensures
        docker_capabilities().isolation is Kernel,
        docker_capabilities().snapshot is Filesystem,
        docker_capabilities().fork,
        docker_capabilities().resource_limits,
        !docker_capabilities().pause_resume,
        !docker_capabilities().port_forward,
{
}

} // verus!
