//! What each command does.
//!
//! A command decides, from the replies it has had so far, what to ask of the
//! outside next, or how it ended. It renders what it has to say first and
//! writes it once, so a closed pipe cannot leave half a report on the terminal.

use vstd::prelude::*;
use vstd::string::*;

use crate::backend;
use crate::backend::{Backend, BackendView};
use crate::box_spec::{BoxSpec, BoxSpecView, Placement, PlacementView, SourceView, WorkspaceSource};
use crate::capability::{Capability, SandboxCapabilities};
use crate::conversation;
use crate::conversation::{Effect, EffectView, Progress, ProgressView, Reply, ReplyView};
use crate::error::{Error, ErrorView};
use crate::file_store::FileStore;
use crate::identity::{BoxId, HostRef, SandboxRef, SnapshotId};
use crate::runtime::{
    BoxInfo, BoxInfoView, ExecOutput, ExecOutputView, ExecRequest, Sandbox,
};
use crate::text;

verus! {

/// The exit code for a tinybox failure, as opposed to a failure of the command
/// that a box was asked to run.
///
/// Distinct from `1`, so a caller can tell "your command exited 1" from
/// "tinybox could not run it". `2` is a usage error.
pub const EXIT_TINYBOX_ERROR: u8 = 70;

/// What the contents of a new box come from.
#[derive(Debug, PartialEq, Eq)]
pub enum Origin {
    /// The directory this process is in.
    Here,
    /// A directory.
    Dir(String),
    /// An image.
    Image(String),
}

/// An [`Origin`] with its strings as their characters.
pub enum OriginView {
    Here,
    Dir(Seq<char>),
    Image(Seq<char>),
}

impl View for Origin {
    type V = OriginView;

    open spec fn view(&self) -> OriginView {
        match *self {
            Origin::Here => OriginView::Here,
            Origin::Dir(path) => OriginView::Dir(path@),
            Origin::Image(image) => OriginView::Image(image@),
        }
    }
}

/// What a new box is to be.
#[derive(Debug, PartialEq, Eq)]
pub struct Wanted {
    /// The sandbox that confines it.
    pub sandbox: String,
    /// What its contents come from.
    pub origin: Origin,
    /// The variables of its commands, as `KEY=VALUE`.
    pub env: Vec<String>,
}

/// A [`Wanted`] with its strings as their characters.
pub struct WantedView {
    pub sandbox: Seq<char>,
    pub origin: OriginView,
    pub env: Seq<Seq<char>>,
}

impl View for Wanted {
    type V = WantedView;

    open spec fn view(&self) -> WantedView {
        WantedView { sandbox: self.sandbox@, origin: self.origin@, env: text::texts(self.env@) }
    }
}

/// What the caller asked for.
#[derive(Debug, PartialEq, Eq)]
pub enum Command {
    /// Create a box.
    Create(Wanted),
    /// Run a command in an existing box.
    Exec {
        /// Which box to run in.
        id: String,
        /// The command and its arguments.
        argv: Vec<String>,
    },
    /// List every box.
    Ls,
    /// Describe one box.
    Inspect {
        /// Which box to describe.
        id: String,
    },
    /// Destroy a box.
    Rm {
        /// Which box to destroy.
        id: String,
    },
    /// Create a box, run one command in it, and destroy it. Nothing is left
    /// behind, even when the command fails.
    Run {
        /// What the box is to be.
        wanted: Wanted,
        /// The command and its arguments.
        argv: Vec<String>,
    },
    /// Capture a box.
    Snapshot {
        /// Which box to capture.
        id: String,
    },
    /// Branch a snapshot into a new box.
    Fork {
        /// Which snapshot to branch.
        snapshot: String,
        /// The sandbox that holds it.
        sandbox: String,
    },
}

/// A [`Command`] with its strings as their characters.
pub enum CommandView {
    Create(WantedView),
    Exec { id: Seq<char>, argv: Seq<Seq<char>> },
    Ls,
    Inspect { id: Seq<char> },
    Rm { id: Seq<char> },
    Run { wanted: WantedView, argv: Seq<Seq<char>> },
    Snapshot { id: Seq<char> },
    Fork { snapshot: Seq<char>, sandbox: Seq<char> },
}

impl View for Command {
    type V = CommandView;

    open spec fn view(&self) -> CommandView {
        match *self {
            Command::Create(wanted) => CommandView::Create(wanted@),
            Command::Exec { id, argv } => CommandView::Exec { id: id@, argv: text::texts(argv@) },
            Command::Ls => CommandView::Ls,
            Command::Inspect { id } => CommandView::Inspect { id: id@ },
            Command::Rm { id } => CommandView::Rm { id: id@ },
            Command::Run { wanted, argv } => CommandView::Run {
                wanted: wanted@,
                argv: text::texts(argv@),
            },
            Command::Snapshot { id } => CommandView::Snapshot { id: id@ },
            Command::Fork { snapshot, sandbox } => CommandView::Fork {
                snapshot: snapshot@,
                sandbox: sandbox@,
            },
        }
    }
}

/// One invocation.
#[derive(Debug, PartialEq, Eq)]
pub struct Cli {
    /// Where box records are kept, if that was said.
    pub store: Option<String>,
    /// What keeps this tinybox's containers apart from another's.
    pub namespace: String,
    /// What the caller asked for.
    pub command: Command,
}

/// What to do next with an invocation.
#[derive(Debug, PartialEq, Eq)]
pub enum Action {
    /// It needs this to go on.
    Ask(Effect),
    /// It is over: the exit code, or what went wrong.
    Finish(Result<u8, Error>),
}

/// An [`Action`] with its strings as their characters.
pub enum ActionView {
    Ask(EffectView),
    Finish(Result<u8, ErrorView>),
}

impl View for Action {
    type V = ActionView;

    open spec fn view(&self) -> ActionView {
        match *self {
            Action::Ask(effect) => ActionView::Ask(effect@),
            Action::Finish(Ok(code)) => ActionView::Finish(Ok(code)),
            Action::Finish(Err(error)) => ActionView::Finish(Err(error@)),
        }
    }
}

/// The byte that carries an exit status. A status outside it cannot be
/// represented, and reporting `0` for it would turn a failure into a success.
pub open spec fn exit_byte(status: i32) -> u8 {
    if 0 <= status <= 255 {
        status as u8
    } else {
        EXIT_TINYBOX_ERROR
    }
}

/// Narrow a process exit status to the byte an exit code can carry.
pub fn exit_code(status: i32) -> (code: u8)
    ensures
        code == exit_byte(status),
        (code == 0) == (status == 0),
{
    if 0 <= status && status <= 255 {
        status as u8
    } else {
        EXIT_TINYBOX_ERROR
    }
}

/// A source as someone who looks for a box recognises it.
pub open spec fn source_text(source: SourceView) -> Seq<char> {
    match source {
        SourceView::LocalDir(path) => path,
        SourceView::OciImage(image) => image,
        SourceView::Snapshot(id) => id,
        SourceView::GitRepo { url, rev } => url + "#"@ + rev,
    }
}

/// Render a box's workspace for display.
pub fn workspace(info: &BoxInfo) -> (shown: String)
    ensures
        shown@ == source_text(info@.spec.source),
{
    match &info.spec.source {
        WorkspaceSource::LocalDir(path) => path.clone(),
        WorkspaceSource::OciImage(image) => image.clone(),
        WorkspaceSource::Snapshot(id) => id.as_str().to_owned(),
        WorkspaceSource::GitRepo { url, rev } => text::concat3(url.as_str(), "#", rev.as_str()),
    }
}

/// The two halves of an entry with a `=` in it, at the first one.
pub open spec fn setting(entry: Seq<char>) -> (Seq<char>, Seq<char>) {
    choose|halves: (Seq<char>, Seq<char>)| #[trigger]
        text::is_split(entry, '=', halves.0, halves.1)
}

/// The variables that entries set, the last of a name winning, if each is
/// `KEY=VALUE`.
pub open spec fn settings(entries: Seq<Seq<char>>) -> Option<Map<Seq<char>, Seq<char>>>
    decreases entries.len(),
{
    if entries.len() == 0 {
        Some(Map::empty())
    } else {
        match settings(entries.drop_last()) {
            Some(env) if entries.last().contains('=') => Some(
                env.insert(setting(entries.last()).0, setting(entries.last()).1),
            ),
            _ => None,
        }
    }
}

/// What is said of an entry that sets nothing.
pub open spec fn malformed_setting() -> ErrorView {
    ErrorView::Store { operation: "parse"@, message: "environment entries must be KEY=VALUE"@ }
}

/// A box on this machine.
pub open spec fn placed_here(sandbox: Seq<char>) -> PlacementView {
    PlacementView { host: "local"@, sandbox }
}

/// The specification of a box, if its variables are well formed.
pub open spec fn specified(sandbox: Seq<char>, source: SourceView, env: Seq<Seq<char>>) -> Result<
    BoxSpecView,
    ErrorView,
> {
    match settings(env) {
        Some(env) => Ok(
            BoxSpecView {
                env,
                ..crate::box_spec::plain_spec(placed_here(sandbox), source)
            },
        ),
        None => Err(malformed_setting()),
    }
}

/// How specifying a box goes: the working directory is asked for where nothing
/// else was said.
pub open spec fn specifying(wanted: WantedView, replies: Seq<ReplyView>, at: int) -> ProgressView<
    BoxSpecView,
> {
    match wanted.origin {
        OriginView::Here => match conversation::asks_directory(replies, at) {
            ProgressView::Ask(effect) => ProgressView::Ask(effect),
            ProgressView::Failed(error, next) => ProgressView::Failed(error, next),
            ProgressView::Done(path, next) => conversation::answered(
                specified(wanted.sandbox, SourceView::LocalDir(path), wanted.env),
                next,
            ),
        },
        OriginView::Dir(path) => conversation::answered(
            specified(wanted.sandbox, SourceView::LocalDir(path), wanted.env),
            at,
        ),
        OriginView::Image(image) => conversation::answered(
            specified(wanted.sandbox, SourceView::OciImage(image), wanted.env),
            at,
        ),
    }
}

/// How writing to the standard output goes.
pub open spec fn saying(said: Seq<char>, replies: Seq<ReplyView>, at: int) -> ProgressView<u8> {
    match conversation::asks_write(
        EffectView::WriteOut(vstd::utf8::encode_utf8(said)),
        replies,
        at,
    ) {
        ProgressView::Ask(effect) => ProgressView::Ask(effect),
        ProgressView::Failed(error, next) => ProgressView::Failed(error, next),
        ProgressView::Done(_, next) => ProgressView::Done(0, next),
    }
}

/// What is said of a box that is not isolated.
pub open spec fn warning_text(sandbox: Seq<char>) -> Seq<char> {
    "warning: "@ + sandbox
        + " boxes are not isolated; commands run with your full privileges\n"@
}

/// How announcing a new box goes: its name goes to the standard output, and,
/// where nothing contains untrusted code, a warning to the standard error.
pub open spec fn announcing(
    backend: BackendView,
    id: Seq<char>,
    replies: Seq<ReplyView>,
    at: int,
) -> ProgressView<u8> {
    match saying(id + "\n"@, replies, at) {
        ProgressView::Ask(effect) => ProgressView::Ask(effect),
        ProgressView::Failed(error, next) => ProgressView::Failed(error, next),
        ProgressView::Done(code, next) => if backend.declared().contains_untrusted_code() {
            ProgressView::Done(code, next)
        } else {
            match conversation::asks_write(
                EffectView::WriteErr(
                    vstd::utf8::encode_utf8(warning_text(backend.confinement())),
                ),
                replies,
                next,
            ) {
                ProgressView::Ask(effect) => ProgressView::Ask(effect),
                ProgressView::Failed(error, next) => ProgressView::Failed(error, next),
                ProgressView::Done(_, next) => ProgressView::Done(code, next),
            }
        },
    }
}

/// How passing on what a command left behind goes: each stream to its own, and
/// the command's status as the exit code.
pub open spec fn passing_on(output: ExecOutputView, replies: Seq<ReplyView>, at: int) -> ProgressView<
    u8,
> {
    match conversation::asks_write(EffectView::WriteOut(output.stdout), replies, at) {
        ProgressView::Ask(effect) => ProgressView::Ask(effect),
        ProgressView::Failed(error, next) => ProgressView::Failed(error, next),
        ProgressView::Done(_, next) => match conversation::asks_write(
            EffectView::WriteErr(output.stderr),
            replies,
            next,
        ) {
            ProgressView::Ask(effect) => ProgressView::Ask(effect),
            ProgressView::Failed(error, next) => ProgressView::Failed(error, next),
            ProgressView::Done(_, next) => ProgressView::Done(exit_byte(output.exit_code), next),
        },
    }
}

/// How finding the sandbox of a box goes: its record says which.
pub open spec fn finding(
    id: Seq<char>,
    namespace: Seq<char>,
    replies: Seq<ReplyView>,
    at: int,
) -> ProgressView<BackendView> {
    if !crate::identity::is_name(id) {
        ProgressView::Failed(crate::error::invalid_name("box id"@, id), at)
    } else {
        match conversation::asks_fetch(id, replies, at) {
            ProgressView::Ask(effect) => ProgressView::Ask(effect),
            ProgressView::Failed(error, next) => ProgressView::Failed(error, next),
            ProgressView::Done(info, next) => conversation::answered(
                backend::named_backend(info.spec.workspace.sandbox, namespace),
                next,
            ),
        }
    }
}

/// How making a box goes: the sandbox it is to be in, what it is to be, and the
/// box itself.
pub open spec fn making(
    wanted: WantedView,
    namespace: Seq<char>,
    replies: Seq<ReplyView>,
    at: int,
) -> ProgressView<BoxInfoView> {
    match backend::named_backend(wanted.sandbox, namespace) {
        Err(error) => ProgressView::Failed(error, at),
        Ok(backend) => match specifying(wanted, replies, at) {
            ProgressView::Ask(effect) => ProgressView::Ask(effect),
            ProgressView::Failed(error, next) => ProgressView::Failed(error, next),
            ProgressView::Done(spec, next) => backend.creating(spec, replies, next),
        },
    }
}

/// How `create` goes.
pub open spec fn create_goes(
    wanted: WantedView,
    namespace: Seq<char>,
    replies: Seq<ReplyView>,
) -> ProgressView<u8> {
    match making(wanted, namespace, replies, 0) {
        ProgressView::Ask(effect) => ProgressView::Ask(effect),
        ProgressView::Failed(error, next) => ProgressView::Failed(error, next),
        ProgressView::Done(info, next) => announcing(
            backend::named_backend(wanted.sandbox, namespace)->Ok_0,
            info.id,
            replies,
            next,
        ),
    }
}

/// How `exec` goes.
pub open spec fn exec_goes(
    id: Seq<char>,
    argv: Seq<Seq<char>>,
    namespace: Seq<char>,
    replies: Seq<ReplyView>,
) -> ProgressView<u8> {
    match finding(id, namespace, replies, 0) {
        ProgressView::Ask(effect) => ProgressView::Ask(effect),
        ProgressView::Failed(error, next) => ProgressView::Failed(error, next),
        ProgressView::Done(backend, next) => match backend.executing(
            id,
            crate::runtime::plain_request(argv),
            replies,
            next,
        ) {
            ProgressView::Ask(effect) => ProgressView::Ask(effect),
            ProgressView::Failed(error, next) => ProgressView::Failed(error, next),
            ProgressView::Done(output, next) => passing_on(output, replies, next),
        },
    }
}

/// The line of a box in a listing.
pub open spec fn line_text(info: BoxInfoView) -> Seq<char> {
    info.id + "\t"@ + info.spec.workspace.sandbox + "\t"@ + info.state.text() + "\t"@
        + source_text(info.spec.source) + "\n"@
}

/// The lines of several boxes.
pub open spec fn listing_text(boxes: Seq<BoxInfoView>) -> Seq<char>
    decreases boxes.len(),
{
    if boxes.len() == 0 {
        Seq::empty()
    } else {
        listing_text(boxes.drop_last()) + line_text(boxes.last())
    }
}

/// How `ls` goes. Listing is the store's business, not a sandbox's.
pub open spec fn ls_goes(replies: Seq<ReplyView>) -> ProgressView<u8> {
    match conversation::asks_list(replies, 0) {
        ProgressView::Ask(effect) => ProgressView::Ask(effect),
        ProgressView::Failed(error, next) => ProgressView::Failed(error, next),
        ProgressView::Done(boxes, next) => saying(listing_text(boxes), replies, next),
    }
}

/// Whether a sandbox is a place for untrusted code, in words.
pub open spec fn untrusted_text(capabilities: SandboxCapabilities) -> Seq<char> {
    if capabilities.contains_untrusted_code() {
        "safe"@
    } else {
        "UNSAFE — this sandbox confines nothing"@
    }
}

/// Everything that can be declared, in the order in which it is listed.
pub open spec fn every_capability() -> Seq<Capability> {
    seq![
        Capability::FilesystemSnapshot,
        Capability::MemorySnapshot,
        Capability::Fork,
        Capability::PauseResume,
        Capability::PortForward,
        Capability::ResourceLimits,
    ]
}

/// The words for those of a list that are declared.
pub open spec fn declared_words(
    capabilities: SandboxCapabilities,
    list: Seq<Capability>,
) -> Seq<Seq<char>>
    decreases list.len(),
{
    if list.len() == 0 {
        Seq::empty()
    } else if capabilities.declares(list.last()) {
        declared_words(capabilities, list.drop_last()).push(list.last().text())
    } else {
        declared_words(capabilities, list.drop_last())
    }
}

/// What a sandbox supports, in words.
pub open spec fn supports_text(capabilities: SandboxCapabilities) -> Seq<char> {
    let words = declared_words(capabilities, every_capability());
    if words.len() == 0 {
        "nothing beyond running commands"@
    } else {
        text::joined(words, ", "@)
    }
}

/// The report on a box.
pub open spec fn report_text(info: BoxInfoView, capabilities: SandboxCapabilities) -> Seq<char> {
    "id:         "@ + info.id + "\n"@ + ("sandbox:    "@ + info.spec.workspace.sandbox + "\n"@) + (
    "state:      "@ + info.state.text() + "\n"@) + ("workspace:  "@ + source_text(info.spec.source)
        + "\n"@) + ("runner:     "@ + info.spec.runner.host + " / "@ + info.spec.runner.sandbox
        + "\n"@) + ("isolation:  "@ + capabilities.isolation.text() + "\n"@) + ("untrusted:  "@
        + untrusted_text(capabilities) + "\n"@) + ("supports:   "@ + supports_text(capabilities)
        + "\n"@)
}

/// How `inspect` goes.
pub open spec fn inspect_goes(id: Seq<char>, namespace: Seq<char>, replies: Seq<ReplyView>) -> ProgressView<
    u8,
> {
    match finding(id, namespace, replies, 0) {
        ProgressView::Ask(effect) => ProgressView::Ask(effect),
        ProgressView::Failed(error, next) => ProgressView::Failed(error, next),
        ProgressView::Done(backend, next) => match backend.inspecting(id, replies, next) {
            ProgressView::Ask(effect) => ProgressView::Ask(effect),
            ProgressView::Failed(error, next) => ProgressView::Failed(error, next),
            ProgressView::Done(info, next) => saying(
                report_text(info, backend.declared()),
                replies,
                next,
            ),
        },
    }
}

/// How `rm` goes.
pub open spec fn rm_goes(id: Seq<char>, namespace: Seq<char>, replies: Seq<ReplyView>) -> ProgressView<
    u8,
> {
    match finding(id, namespace, replies, 0) {
        ProgressView::Ask(effect) => ProgressView::Ask(effect),
        ProgressView::Failed(error, next) => ProgressView::Failed(error, next),
        ProgressView::Done(backend, next) => match backend.destroying(id, replies, next) {
            ProgressView::Ask(effect) => ProgressView::Ask(effect),
            ProgressView::Failed(error, next) => ProgressView::Failed(error, next),
            ProgressView::Done(_, next) => saying(id + "\n"@, replies, next),
        },
    }
}

/// How using a box once goes: whether or not the command succeeds, the box is
/// destroyed before anything else is done.
pub open spec fn using_once(
    backend: BackendView,
    id: Seq<char>,
    argv: Seq<Seq<char>>,
    replies: Seq<ReplyView>,
    at: int,
) -> ProgressView<u8> {
    match backend.executing(id, crate::runtime::plain_request(argv), replies, at) {
        ProgressView::Ask(effect) => ProgressView::Ask(effect),
        ProgressView::Failed(error, next) => match backend.destroying(id, replies, next) {
            ProgressView::Ask(effect) => ProgressView::Ask(effect),
            ProgressView::Failed(_, next) => ProgressView::Failed(error, next),
            ProgressView::Done(_, next) => ProgressView::Failed(error, next),
        },
        ProgressView::Done(output, next) => match backend.destroying(id, replies, next) {
            ProgressView::Ask(effect) => ProgressView::Ask(effect),
            ProgressView::Failed(error, next) => ProgressView::Failed(error, next),
            ProgressView::Done(_, next) => passing_on(output, replies, next),
        },
    }
}

/// How `run` goes.
pub open spec fn run_goes(
    wanted: WantedView,
    argv: Seq<Seq<char>>,
    namespace: Seq<char>,
    replies: Seq<ReplyView>,
) -> ProgressView<u8> {
    match making(wanted, namespace, replies, 0) {
        ProgressView::Ask(effect) => ProgressView::Ask(effect),
        ProgressView::Failed(error, next) => ProgressView::Failed(error, next),
        ProgressView::Done(info, next) => using_once(
            backend::named_backend(wanted.sandbox, namespace)->Ok_0,
            info.id,
            argv,
            replies,
            next,
        ),
    }
}

/// How `snapshot` goes.
pub open spec fn snapshot_goes(id: Seq<char>, namespace: Seq<char>, replies: Seq<ReplyView>) -> ProgressView<
    u8,
> {
    match finding(id, namespace, replies, 0) {
        ProgressView::Ask(effect) => ProgressView::Ask(effect),
        ProgressView::Failed(error, next) => ProgressView::Failed(error, next),
        ProgressView::Done(backend, next) => match backend.capturing(id, replies, next) {
            ProgressView::Ask(effect) => ProgressView::Ask(effect),
            ProgressView::Failed(error, next) => ProgressView::Failed(error, next),
            ProgressView::Done(snapshot, next) => saying(snapshot + "\n"@, replies, next),
        },
    }
}

/// How `fork` goes.
pub open spec fn fork_goes(
    snapshot: Seq<char>,
    sandbox: Seq<char>,
    namespace: Seq<char>,
    replies: Seq<ReplyView>,
) -> ProgressView<u8> {
    if !crate::identity::is_name(snapshot) {
        ProgressView::Failed(crate::error::invalid_name("snapshot id"@, snapshot), 0)
    } else {
        match backend::named_backend(sandbox, namespace) {
            Err(error) => ProgressView::Failed(error, 0),
            Ok(backend) => match backend.forking(
                snapshot,
                crate::box_spec::plain_spec(placed_here(sandbox), SourceView::Snapshot(snapshot)),
                replies,
                0,
            ) {
                ProgressView::Ask(effect) => ProgressView::Ask(effect),
                ProgressView::Failed(error, next) => ProgressView::Failed(error, next),
                ProgressView::Done(info, next) => announcing(backend, info.id, replies, next),
            },
        }
    }
}

/// How a command goes.
pub open spec fn command_goes(command: CommandView, namespace: Seq<char>, replies: Seq<ReplyView>) -> ProgressView<
    u8,
> {
    match command {
        CommandView::Create(wanted) => create_goes(wanted, namespace, replies),
        CommandView::Exec { id, argv } => exec_goes(id, argv, namespace, replies),
        CommandView::Ls => ls_goes(replies),
        CommandView::Inspect { id } => inspect_goes(id, namespace, replies),
        CommandView::Rm { id } => rm_goes(id, namespace, replies),
        CommandView::Run { wanted, argv } => run_goes(wanted, argv, namespace, replies),
        CommandView::Snapshot { id } => snapshot_goes(id, namespace, replies),
        CommandView::Fork { snapshot, sandbox } => fork_goes(snapshot, sandbox, namespace, replies),
    }
}

/// What to do next with a command, given the replies so far.
pub open spec fn dispatched(command: CommandView, namespace: Seq<char>, replies: Seq<ReplyView>) -> ActionView {
    match command_goes(command, namespace, replies) {
        ProgressView::Ask(effect) => ActionView::Ask(effect),
        ProgressView::Failed(error, _) => ActionView::Finish(Err(error)),
        ProgressView::Done(code, _) => ActionView::Finish(Ok(code)),
    }
}

/// The names that are built in are names.
proof fn built_in_names()
    ensures
        crate::identity::is_name("local"@),
        crate::identity::is_name("passthrough"@),
        crate::identity::is_name("docker"@),
{
    reveal_strlit("local");
    reveal_strlit("passthrough");
    reveal_strlit("docker");
    assert("local"@ =~= seq!['l', 'o', 'c', 'a', 'l']);
    assert("passthrough"@ =~= seq!['p', 'a', 's', 's', 't', 'h', 'r', 'o', 'u', 'g', 'h']);
    assert("docker"@ =~= seq!['d', 'o', 'c', 'k', 'e', 'r']);
}

/// The specification of a box, or the error of an entry without a `=` in it.
fn specify(backend: &Backend, source: WorkspaceSource, env: &Vec<String>) -> (made: Result<
    BoxSpec,
    Error,
>)
    ensures
        crate::runtime::outcome(made) == specified(
            backend@.confinement(),
            source@,
            text::texts(env@),
        ),
{
    proof {
        built_in_names();
    }
    let host: HostRef = match HostRef::new(crate::local::NAME) {
        Ok(host) => host,
        Err(error) => {
            return Err(error);
        },
    };
    let sandbox: SandboxRef = match SandboxRef::new(backend.name()) {
        Ok(sandbox) => sandbox,
        Err(error) => {
            return Err(error);
        },
    };
    let ghost entries = text::texts(env@);
    let mut made: BoxSpec = BoxSpec::new(Placement::new(host, sandbox), source);
    let ghost plain = made@;
    assert(entries.take(0) =~= Seq::empty());
    let mut i: usize = 0;
    while i < env.len()
        invariant
            i <= env.len(),
            entries == text::texts(env@),
            settings(entries.take(i as int)) == Some(made@.env),
            made@ == (BoxSpecView { env: made@.env, ..plain }),
            plain == crate::box_spec::plain_spec(
                placed_here(backend@.confinement()),
                source@,
            ),
        decreases env.len() - i,
    {
        proof {
            assert(entries.take(i + 1).drop_last() =~= entries.take(i as int));
            assert(entries.take(i + 1).last() == env@[i as int]@);
        }
        match text::split_once(env[i].as_str(), '=') {
            Some((key, value)) => {
                proof {
                    let entry = env@[i as int]@;
                    let halves = setting(entry);
                    assert(text::is_split(entry, '=', (key@, value@).0, (key@, value@).1));
                    text::split_is_unique(entry, '=', key@, value@, halves.0, halves.1);
                    assert(entry[key@.len() as int] == '=');
                }
                made = made.with_env(key, value);
            },
            None => {
                proof {
                    unset_from(entries, i + 1);
                }
                return Err(
                    Error::Store {
                        operation: "parse",
                        message: "environment entries must be KEY=VALUE".to_owned(),
                    },
                );
            },
        }
        i = i + 1;
    }
    assert(entries.take(i as int) =~= entries);
    Ok(made)
}

/// An entry that sets nothing spoils every list it begins.
proof fn unset_from(entries: Seq<Seq<char>>, count: int)
    requires
        0 <= count <= entries.len(),
        settings(entries.take(count)) is None,
    ensures
        settings(entries) is None,
    decreases entries.len() - count,
{
    if count < entries.len() {
        assert(entries.take(count + 1).drop_last() =~= entries.take(count));
        unset_from(entries, count + 1);
    } else {
        assert(entries.take(count) =~= entries);
    }
}

/// Work out what a box is to be.
fn settle(backend: &Backend, wanted: &Wanted, replies: &Vec<Reply>, at: usize) -> (progress: Progress<
    BoxSpec,
>)
    requires
        backend@.confinement() == wanted@.sandbox,
    ensures
        progress@ == specifying(wanted@, conversation::history(replies@), at as int),
{
    let mut next: usize = at;
    let source: WorkspaceSource = match &wanted.origin {
        Origin::Here => match conversation::ask_directory(replies, at) {
            Progress::Ask(effect) => {
                return Progress::Ask(effect);
            },
            Progress::Failed(error, after) => {
                return Progress::Failed(error, after);
            },
            Progress::Done(path, after) => {
                next = after;
                WorkspaceSource::LocalDir(path)
            },
        },
        Origin::Dir(path) => WorkspaceSource::LocalDir(path.clone()),
        Origin::Image(image) => WorkspaceSource::OciImage(image.clone()),
    };
    match specify(backend, source, &wanted.env) {
        Ok(made) => Progress::Done(made, next),
        Err(error) => Progress::Failed(error, next),
    }
}

/// Write text to the standard output.
fn say(said: &str, replies: &Vec<Reply>, at: usize) -> (progress: Progress<u8>)
    ensures
        progress@ == saying(said@, conversation::history(replies@), at as int),
{
    match conversation::ask_write(Effect::WriteOut(text::to_bytes(said)), replies, at) {
        Progress::Ask(effect) => Progress::Ask(effect),
        Progress::Failed(error, next) => Progress::Failed(error, next),
        Progress::Done(_, next) => Progress::Done(0, next),
    }
}

/// Announce a new box.
fn announce(backend: &Backend, id: &BoxId, replies: &Vec<Reply>, at: usize) -> (progress: Progress<u8>)
    ensures
        progress@ == announcing(backend@, id@, conversation::history(replies@), at as int),
{
    match say(id.as_str().to_owned().concat("\n").as_str(), replies, at) {
        Progress::Ask(effect) => Progress::Ask(effect),
        Progress::Failed(error, next) => Progress::Failed(error, next),
        Progress::Done(code, next) => {
            if backend.capabilities().is_suitable_for_untrusted_code() {
                return Progress::Done(code, next);
            }
            let warning: String = text::concat3(
                "warning: ",
                backend.name(),
                " boxes are not isolated; commands run with your full privileges\n",
            );
            let effect: Effect = Effect::WriteErr(text::to_bytes(warning.as_str()));
            match conversation::ask_write(effect, replies, next) {
                Progress::Ask(effect) => Progress::Ask(effect),
                Progress::Failed(error, next) => Progress::Failed(error, next),
                Progress::Done(_, next) => Progress::Done(code, next),
            }
        },
    }
}

/// Pass on what a command left behind.
fn pass_on(output: ExecOutput, replies: &Vec<Reply>, at: usize) -> (progress: Progress<u8>)
    ensures
        progress@ == passing_on(output@, conversation::history(replies@), at as int),
{
    let code: u8 = exit_code(output.exit_code);
    match conversation::ask_write(Effect::WriteOut(output.stdout), replies, at) {
        Progress::Ask(effect) => Progress::Ask(effect),
        Progress::Failed(error, next) => Progress::Failed(error, next),
        Progress::Done(_, next) => match conversation::ask_write(
            Effect::WriteErr(output.stderr),
            replies,
            next,
        ) {
            Progress::Ask(effect) => Progress::Ask(effect),
            Progress::Failed(error, next) => Progress::Failed(error, next),
            Progress::Done(_, next) => Progress::Done(code, next),
        },
    }
}

/// A box that was named, and the sandbox it is in.
struct Found {
    id: BoxId,
    backend: Backend,
}

impl View for Found {
    type V = BackendView;

    closed spec fn view(&self) -> BackendView {
        self.backend@
    }
}

/// Find the sandbox of a box.
///
/// Asking the caller to remember it is how containers get orphaned.
fn find(id: &str, namespace: &str, replies: &Vec<Reply>, at: usize) -> (progress: Progress<Found>)
    ensures
        progress@ == finding(id@, namespace@, conversation::history(replies@), at as int),
        progress matches Progress::Done(found, _) ==> found.id@ == id@,
{
    let id: BoxId = match BoxId::new(id) {
        Ok(id) => id,
        Err(error) => {
            return Progress::Failed(error, at);
        },
    };
    match conversation::ask_fetch(&id, replies, at) {
        Progress::Ask(effect) => Progress::Ask(effect),
        Progress::Failed(error, next) => Progress::Failed(error, next),
        Progress::Done(info, next) => match Backend::named(
            info.spec.workspace.sandbox.as_str(),
            namespace,
        ) {
            Ok(backend) => Progress::Done(Found { id, backend }, next),
            Err(error) => Progress::Failed(error, next),
        },
    }
}

/// Render the line of a box in a listing.
fn render_line(info: &BoxInfo) -> (line: String)
    ensures
        line@ == line_text(info@),
{
    let state: String = info.state.to_string();
    let shown: String = workspace(info);
    let mut line: String = text::concat5(
        info.id.as_str(),
        "\t",
        info.spec.workspace.sandbox.as_str(),
        "\t",
        state.as_str(),
    );
    line.append("\t");
    line.append(shown.as_str());
    line.append("\n");
    line
}

/// Render a listing.
pub fn render_listing(boxes: &Vec<BoxInfo>) -> (rendered: String)
    ensures
        rendered@ == listing_text(conversation::infos(boxes@)),
{
    let ghost all = conversation::infos(boxes@);
    let mut rendered: String = String::new();
    let mut i: usize = 0;
    assert(all.take(0) =~= Seq::empty());
    while i < boxes.len()
        invariant
            i <= boxes.len(),
            all == conversation::infos(boxes@),
            rendered@ == listing_text(all.take(i as int)),
        decreases boxes.len() - i,
    {
        rendered.append(render_line(&boxes[i]).as_str());
        proof {
            assert(all.take(i + 1).drop_last() =~= all.take(i as int));
            assert(all.take(i + 1).last() == boxes@[i as int]@);
        }
        i = i + 1;
    }
    assert(all.take(i as int) =~= all);
    rendered
}

/// Render what a sandbox supports.
pub fn render_supports(capabilities: &SandboxCapabilities) -> (rendered: String)
    ensures
        rendered@ == supports_text(*capabilities),
{
    let list: [Capability; 6] = [
        Capability::FilesystemSnapshot,
        Capability::MemorySnapshot,
        Capability::Fork,
        Capability::PauseResume,
        Capability::PortForward,
        Capability::ResourceLimits,
    ];
    assert(list@ =~= every_capability());
    let mut words: Vec<String> = Vec::new();
    let mut i: usize = 0;
    assert(text::texts(words@) =~= declared_words(*capabilities, list@.take(0)));
    while i < 6
        invariant
            i <= 6,
            list@.len() == 6,
            text::texts(words@) == declared_words(*capabilities, list@.take(i as int)),
        decreases 6 - i,
    {
        proof {
            assert(list@.take(i + 1).drop_last() =~= list@.take(i as int));
            assert(list@.take(i + 1).last() == list@[i as int]);
        }
        if capabilities.supports(list[i]) {
            text::add_to(&mut words, list[i].to_string().as_str());
        }
        i = i + 1;
    }
    assert(list@.take(6) =~= list@);
    assert(words@.len() == text::texts(words@).len());
    if words.len() == 0 {
        "nothing beyond running commands".to_owned()
    } else {
        text::join(&words, ", ")
    }
}

/// Render the report on a box.
pub fn render_report(info: &BoxInfo, capabilities: &SandboxCapabilities) -> (rendered: String)
    ensures
        rendered@ == report_text(info@, *capabilities),
{
    let untrusted: &str = if capabilities.is_suitable_for_untrusted_code() {
        "safe"
    } else {
        "UNSAFE — this sandbox confines nothing"
    };
    let state: String = info.state.to_string();
    let shown: String = workspace(info);
    let isolation: String = capabilities.isolation.to_string();
    let supports: String = render_supports(capabilities);
    let runner: String = text::concat5(
        "runner:     ",
        info.spec.runner.host.as_str(),
        " / ",
        info.spec.runner.sandbox.as_str(),
        "\n",
    );
    let mut rendered: String = text::concat3("id:         ", info.id.as_str(), "\n");
    rendered.append(
        text::concat3("sandbox:    ", info.spec.workspace.sandbox.as_str(), "\n").as_str(),
    );
    rendered.append(text::concat3("state:      ", state.as_str(), "\n").as_str());
    rendered.append(text::concat3("workspace:  ", shown.as_str(), "\n").as_str());
    rendered.append(runner.as_str());
    rendered.append(text::concat3("isolation:  ", isolation.as_str(), "\n").as_str());
    rendered.append(text::concat3("untrusted:  ", untrusted, "\n").as_str());
    rendered.append(text::concat3("supports:   ", supports.as_str(), "\n").as_str());
    rendered
}

impl Cli {
    /// Where this invocation keeps its records: where it was told to, or below
    /// the directory that a variable names.
    pub fn store_path(
        &self,
        state_dir: Option<&str>,
        xdg_state_home: Option<&str>,
        home: Option<&str>,
    ) -> (path: Result<String, Error>)
        ensures
            match self.store {
                Some(store) => path matches Ok(path) && path@ == store@,
                None => match path {
                    Ok(path) => crate::file_store::chosen_path(
                        crate::file_store::given(state_dir),
                        crate::file_store::given(xdg_state_home),
                        crate::file_store::given(home),
                    ) == Some(path@),
                    Err(error) => {
                        &&& state_dir is None && xdg_state_home is None && home is None
                        &&& error@ == crate::file_store::store_failure(
                            "locate"@,
                            "set TINYBOX_STATE_DIR, XDG_STATE_HOME, or HOME"@,
                        )
                    },
                },
            },
    {
        match &self.store {
            Some(store) => Ok(store.clone()),
            None => FileStore::resolve_path(state_dir, xdg_state_home, home),
        }
    }

    /// What to do next with this invocation, given the replies so far.
    ///
    /// A command that runs inside a box and exits non-zero is not an error
    /// here: its status becomes the exit code.
    pub fn dispatch(&self, replies: &Vec<Reply>) -> (action: Action)
        ensures
            action@ == dispatched(
                self.command@,
                self.namespace@,
                conversation::history(replies@),
            ),
    {
        let progress: Progress<u8> = match &self.command {
            Command::Create(wanted) => self.create(wanted, replies),
            Command::Exec { id, argv } => self.exec(id.as_str(), argv, replies),
            Command::Ls => self.ls(replies),
            Command::Inspect { id } => self.inspect(id.as_str(), replies),
            Command::Rm { id } => self.rm(id.as_str(), replies),
            Command::Run { wanted, argv } => self.run_once(wanted, argv, replies),
            Command::Snapshot { id } => self.snapshot(id.as_str(), replies),
            Command::Fork { snapshot, sandbox } => self.fork(
                snapshot.as_str(),
                sandbox.as_str(),
                replies,
            ),
        };
        match progress {
            Progress::Ask(effect) => Action::Ask(effect),
            Progress::Failed(error, _) => Action::Finish(Err(error)),
            Progress::Done(code, _) => Action::Finish(Ok(code)),
        }
    }

    /// Create a box.
    fn create(&self, wanted: &Wanted, replies: &Vec<Reply>) -> (progress: Progress<u8>)
        ensures
            progress@ == create_goes(
                wanted@,
                self.namespace@,
                conversation::history(replies@),
            ),
    {
        let backend: Backend = match Backend::named(
            wanted.sandbox.as_str(),
            self.namespace.as_str(),
        ) {
            Ok(backend) => backend,
            Err(error) => {
                return Progress::Failed(error, 0);
            },
        };
        match self.make(&backend, wanted, replies) {
            Progress::Ask(effect) => Progress::Ask(effect),
            Progress::Failed(error, next) => Progress::Failed(error, next),
            Progress::Done(info, next) => announce(&backend, &info.id, replies, next),
        }
    }

    /// Make a box.
    fn make(&self, backend: &Backend, wanted: &Wanted, replies: &Vec<Reply>) -> (progress: Progress<
        BoxInfo,
    >)
        requires
            backend::named_backend(wanted@.sandbox, self.namespace@) == Ok::<
                BackendView,
                ErrorView,
            >(backend@),
        ensures
            progress@ == making(
                wanted@,
                self.namespace@,
                conversation::history(replies@),
                0,
            ),
    {
        match settle(backend, wanted, replies, 0) {
            Progress::Ask(effect) => Progress::Ask(effect),
            Progress::Failed(error, next) => Progress::Failed(error, next),
            Progress::Done(made, next) => backend.create(&made, replies, next),
        }
    }

    /// Run a command in an existing box.
    fn exec(&self, id: &str, argv: &Vec<String>, replies: &Vec<Reply>) -> (progress: Progress<u8>)
        ensures
            progress@ == exec_goes(
                id@,
                text::texts(argv@),
                self.namespace@,
                conversation::history(replies@),
            ),
    {
        match find(id, self.namespace.as_str(), replies, 0) {
            Progress::Ask(effect) => Progress::Ask(effect),
            Progress::Failed(error, next) => Progress::Failed(error, next),
            Progress::Done(found, next) => {
                let request: ExecRequest = ExecRequest::new(text::copy_list(argv));
                match found.backend.exec(&found.id, &request, replies, next) {
                    Progress::Ask(effect) => Progress::Ask(effect),
                    Progress::Failed(error, next) => Progress::Failed(error, next),
                    Progress::Done(output, next) => pass_on(output, replies, next),
                }
            },
        }
    }

    /// List every box.
    fn ls(&self, replies: &Vec<Reply>) -> (progress: Progress<u8>)
        ensures
            progress@ == ls_goes(conversation::history(replies@)),
    {
        match conversation::ask_list(replies, 0) {
            Progress::Ask(effect) => Progress::Ask(effect),
            Progress::Failed(error, next) => Progress::Failed(error, next),
            Progress::Done(listing, next) => {
                let rendered: String = render_listing(&listing.boxes);
                say(rendered.as_str(), replies, next)
            },
        }
    }

    /// Describe a box.
    fn inspect(&self, id: &str, replies: &Vec<Reply>) -> (progress: Progress<u8>)
        ensures
            progress@ == inspect_goes(id@, self.namespace@, conversation::history(replies@)),
    {
        match find(id, self.namespace.as_str(), replies, 0) {
            Progress::Ask(effect) => Progress::Ask(effect),
            Progress::Failed(error, next) => Progress::Failed(error, next),
            Progress::Done(found, next) => match found.backend.inspect(&found.id, replies, next) {
                Progress::Ask(effect) => Progress::Ask(effect),
                Progress::Failed(error, next) => Progress::Failed(error, next),
                Progress::Done(info, next) => {
                    let rendered: String = render_report(&info, &found.backend.capabilities());
                    say(rendered.as_str(), replies, next)
                },
            },
        }
    }

    /// Destroy a box.
    fn rm(&self, id: &str, replies: &Vec<Reply>) -> (progress: Progress<u8>)
        ensures
            progress@ == rm_goes(id@, self.namespace@, conversation::history(replies@)),
    {
        match find(id, self.namespace.as_str(), replies, 0) {
            Progress::Ask(effect) => Progress::Ask(effect),
            Progress::Failed(error, next) => Progress::Failed(error, next),
            Progress::Done(found, next) => match found.backend.destroy(&found.id, replies, next) {
                Progress::Ask(effect) => Progress::Ask(effect),
                Progress::Failed(error, next) => Progress::Failed(error, next),
                Progress::Done(_, next) => say(
                    id.to_owned().concat("\n").as_str(),
                    replies,
                    next,
                ),
            },
        }
    }

    /// Create a box, run one command in it, and destroy it.
    fn run_once(&self, wanted: &Wanted, argv: &Vec<String>, replies: &Vec<Reply>) -> (progress:
        Progress<u8>)
        ensures
            progress@ == run_goes(
                wanted@,
                text::texts(argv@),
                self.namespace@,
                conversation::history(replies@),
            ),
    {
        let backend: Backend = match Backend::named(
            wanted.sandbox.as_str(),
            self.namespace.as_str(),
        ) {
            Ok(backend) => backend,
            Err(error) => {
                return Progress::Failed(error, 0);
            },
        };
        match self.make(&backend, wanted, replies) {
            Progress::Ask(effect) => Progress::Ask(effect),
            Progress::Failed(error, next) => Progress::Failed(error, next),
            Progress::Done(info, next) => use_once(&backend, &info.id, argv, replies, next),
        }
    }

    /// Capture a box.
    fn snapshot(&self, id: &str, replies: &Vec<Reply>) -> (progress: Progress<u8>)
        ensures
            progress@ == snapshot_goes(id@, self.namespace@, conversation::history(replies@)),
    {
        match find(id, self.namespace.as_str(), replies, 0) {
            Progress::Ask(effect) => Progress::Ask(effect),
            Progress::Failed(error, next) => Progress::Failed(error, next),
            Progress::Done(found, next) => match crate::runtime::snapshot_if_declared(
                &found.backend,
                &found.id,
                replies,
                next,
            ) {
                Progress::Ask(effect) => Progress::Ask(effect),
                Progress::Failed(error, next) => Progress::Failed(error, next),
                Progress::Done(snapshot, next) => say(
                    snapshot.as_str().to_owned().concat("\n").as_str(),
                    replies,
                    next,
                ),
            },
        }
    }

    /// Branch a snapshot into a new box.
    fn fork(&self, snapshot: &str, sandbox: &str, replies: &Vec<Reply>) -> (progress: Progress<u8>)
        ensures
            progress@ == fork_goes(
                snapshot@,
                sandbox@,
                self.namespace@,
                conversation::history(replies@),
            ),
    {
        let snapshot: SnapshotId = match SnapshotId::new(snapshot) {
            Ok(snapshot) => snapshot,
            Err(error) => {
                return Progress::Failed(error, 0);
            },
        };
        let backend: Backend = match Backend::named(sandbox, self.namespace.as_str()) {
            Ok(backend) => backend,
            Err(error) => {
                return Progress::Failed(error, 0);
            },
        };
        let none: Vec<String> = Vec::new();
        assert(text::texts(none@) =~= Seq::empty());
        let made: BoxSpec = match specify(
            &backend,
            WorkspaceSource::Snapshot(snapshot.clone()),
            &none,
        ) {
            Ok(made) => made,
            Err(error) => {
                return Progress::Failed(error, 0);
            },
        };
        match crate::runtime::fork_if_declared(&backend, &snapshot, &made, replies, 0) {
            Progress::Ask(effect) => Progress::Ask(effect),
            Progress::Failed(error, next) => Progress::Failed(error, next),
            Progress::Done(info, next) => announce(&backend, &info.id, replies, next),
        }
    }
}

/// Use a box once, and destroy it whatever came of that.
fn use_once(
    backend: &Backend,
    id: &BoxId,
    argv: &Vec<String>,
    replies: &Vec<Reply>,
    at: usize,
) -> (progress: Progress<u8>)
    ensures
        progress@ == using_once(
            backend@,
            id@,
            text::texts(argv@),
            conversation::history(replies@),
            at as int,
        ),
{
    let request: ExecRequest = ExecRequest::new(text::copy_list(argv));
    match backend.exec(id, &request, replies, at) {
        Progress::Ask(effect) => Progress::Ask(effect),
        Progress::Failed(error, next) => match backend.destroy(id, replies, next) {
            Progress::Ask(effect) => Progress::Ask(effect),
            Progress::Failed(_, next) => Progress::Failed(error, next),
            Progress::Done(_, next) => Progress::Failed(error, next),
        },
        Progress::Done(output, next) => match backend.destroy(id, replies, next) {
            Progress::Ask(effect) => Progress::Ask(effect),
            Progress::Failed(error, next) => Progress::Failed(error, next),
            Progress::Done(_, next) => pass_on(output, replies, next),
        },
    }
}

/// What is said of an error at the top of the program.
pub open spec fn complaint_text(error: ErrorView) -> Seq<char> {
    "error: "@ + error.text() + "\n"@
}

/// The exit code of a finished invocation, and what is said about it.
pub open spec fn concluded(result: Result<u8, ErrorView>) -> (u8, Option<Seq<char>>) {
    match result {
        Ok(code) => (code, None),
        Err(error) => (EXIT_TINYBOX_ERROR, Some(complaint_text(error))),
    }
}

/// What to do next with an invocation, up to its exit code.
#[derive(Debug, PartialEq, Eq)]
pub enum Running {
    /// It needs this to go on.
    Ask(Effect),
    /// It is over: the exit code, and what to write to the standard error
    /// first. Whether that can be written makes no difference.
    Exit(u8, Option<String>),
}

/// A [`Running`] with its strings as their characters.
pub enum RunningView {
    Ask(EffectView),
    Exit(u8, Option<Seq<char>>),
}

impl View for Running {
    type V = RunningView;

    open spec fn view(&self) -> RunningView {
        match *self {
            Running::Ask(effect) => RunningView::Ask(effect@),
            Running::Exit(code, said) => RunningView::Exit(code, text::text_option(said)),
        }
    }
}

/// What to do next with an invocation, given the replies so far.
pub open spec fn runs(command: CommandView, namespace: Seq<char>, replies: Seq<ReplyView>) -> RunningView {
    match dispatched(command, namespace, replies) {
        ActionView::Ask(effect) => RunningView::Ask(effect),
        ActionView::Finish(result) => RunningView::Exit(concluded(result).0, concluded(result).1),
    }
}

/// The exit code of a finished invocation, and what to say on the standard
/// error about it. There is nobody left to hand an error to.
pub fn conclude(result: Result<u8, Error>) -> (conclusion: (u8, Option<String>))
    ensures
        match result {
            Ok(code) => conclusion == (code, None::<String>),
            Err(error) => {
                &&& conclusion.0 == EXIT_TINYBOX_ERROR
                &&& conclusion.1 matches Some(said) && said@ == complaint_text(error@)
            },
        },
{
    match result {
        Ok(code) => (code, None),
        Err(error) => {
            let said: String = error.to_string();
            (EXIT_TINYBOX_ERROR, Some(text::concat3("error: ", said.as_str(), "\n")))
        },
    }
}

/// Run an invocation: what to do next, given the replies so far.
///
/// Errors are reported rather than returned, because this is the top of the
/// program.
pub fn run(cli: &Cli, replies: &Vec<Reply>) -> (running: Running)
    ensures
        running@ == runs(cli.command@, cli.namespace@, conversation::history(replies@)),
{
    match cli.dispatch(replies) {
        Action::Ask(effect) => Running::Ask(effect),
        Action::Finish(result) => {
            let (code, said) = conclude(result);
            Running::Exit(code, said)
        },
    }
}

/// Variables are set entry by entry. An entry is a key without a `=`, a `=`, and
/// whatever follows as the value, `=` and all; a later one of the same key wins;
/// and an entry without a `=` spoils the list.
pub proof fn an_entry_sets_its_variable(
    entries: Seq<Seq<char>>,
    key: Seq<char>,
    value: Seq<char>,
    malformed: Seq<char>,
)
    requires
        !key.contains('='),
        !malformed.contains('='),
    ensures
        settings(Seq::empty()) == Some(Map::<Seq<char>, Seq<char>>::empty()),
        settings(entries) is Some ==> settings(entries.push(key + seq!['='] + value)) == Some(
            settings(entries)->0.insert(key, value),
        ),
        settings(entries) is None ==> settings(entries.push(key + seq!['='] + value)) is None,
        settings(entries.push(malformed)) is None,
{
    let entry = key + seq!['='] + value;
    let more = entries.push(entry);
    let halves = setting(entry);
    assert(more.drop_last() =~= entries);
    assert(entries.push(malformed).drop_last() =~= entries);
    assert(entry[key.len() as int] == '=');
    text::a_split_is_at_the_first_separator(key, '=', value, halves.0, halves.1);
    assert(text::is_split(entry, '=', (key, value).0, (key, value).1));
}

/// The lines of two lists of boxes are those of the one and then those of the
/// other.
proof fn listing_goes_over_both(left: Seq<BoxInfoView>, right: Seq<BoxInfoView>)
    ensures
        listing_text(left + right) == listing_text(left) + listing_text(right),
    decreases right.len(),
{
    if right.len() == 0 {
        assert(left + right =~= left);
        assert(listing_text(left) + listing_text(right) =~= listing_text(left));
    } else {
        assert((left + right).drop_last() =~= left + right.drop_last());
        assert((left + right).last() == right.last());
        listing_goes_over_both(left, right.drop_last());
        assert(listing_text(left + right) =~= listing_text(left) + listing_text(right));
    }
}

/// A listing has a line for every box, in order: none for none, one for one, and
/// those of a list after those of the list before it. A line holds the name, the
/// sandbox, the state and the workspace of its box.
pub proof fn every_box_has_its_line(
    info: BoxInfoView,
    left: Seq<BoxInfoView>,
    right: Seq<BoxInfoView>,
)
    ensures
        listing_text(Seq::empty()).len() == 0,
        listing_text(seq![info]) == info.id + "\t"@ + info.spec.workspace.sandbox + "\t"@
            + info.state.text() + "\t"@ + source_text(info.spec.source) + "\n"@,
        listing_text(left + right) == listing_text(left) + listing_text(right),
        listing_text(left + seq![info] + right) == listing_text(left) + listing_text(seq![info])
            + listing_text(right),
{
    let one = seq![info];
    assert(one.drop_last() =~= Seq::empty());
    assert(listing_text(one.drop_last()) =~= Seq::empty());
    assert(listing_text(one) =~= line_text(info));
    listing_goes_over_both(left, right);
    listing_goes_over_both(left, one);
    listing_goes_over_both(left + one, right);
}

/// How many line ends a text holds.
pub open spec fn line_ends(text: Seq<char>) -> nat
    decreases text.len(),
{
    if text.len() == 0 {
        0
    } else {
        line_ends(text.drop_last()) + if text.last() == '\n' {
            1nat
        } else {
            0nat
        }
    }
}

/// The line ends of two texts add up.
proof fn line_ends_add_up(left: Seq<char>, right: Seq<char>)
    ensures
        line_ends(left + right) == line_ends(left) + line_ends(right),
    decreases right.len(),
{
    if right.len() == 0 {
        assert(left + right =~= left);
    } else {
        assert((left + right).drop_last() =~= left + right.drop_last());
        assert((left + right).last() == right.last());
        line_ends_add_up(left, right.drop_last());
    }
}

/// A text without a line end has none.
proof fn no_line_end(text: Seq<char>)
    requires
        !text.contains('\n'),
    ensures
        line_ends(text) == 0,
    decreases text.len(),
{
    if text.len() > 0 {
        assert(text[text.len() - 1] != '\n');
        assert(!text.drop_last().contains('\n')) by {
            if text.drop_last().contains('\n') {
                let i = choose|i: int| 0 <= i < text.len() - 1 && text.drop_last()[i] == '\n';
                assert(text[i] == '\n');
            }
        }
        no_line_end(text.drop_last());
    }
}

/// No field of a box holds a line end.
pub open spec fn is_one_line(info: BoxInfoView) -> bool {
    &&& !info.id.contains('\n')
    &&& !info.spec.workspace.sandbox.contains('\n')
    &&& !source_text(info.spec.source).contains('\n')
}

/// The line of a box ends once.
proof fn a_line_ends_once(info: BoxInfoView)
    requires
        is_one_line(info),
    ensures
        line_ends(line_text(info)) == 1,
{
    reveal_strlit("\t");
    reveal_strlit("\n");
    reveal_strlit("ready");
    reveal_strlit("stopped");
    let tab = "\t"@;
    let shown = source_text(info.spec.source);
    let state = info.state.text();
    assert(!tab.contains('\n'));
    assert(!state.contains('\n'));
    no_line_end(tab);
    no_line_end(info.id);
    no_line_end(info.spec.workspace.sandbox);
    no_line_end(state);
    no_line_end(shown);
    let first = info.id + tab;
    let second = first + info.spec.workspace.sandbox;
    let third = second + tab;
    let fourth = third + state;
    let fifth = fourth + tab;
    let sixth = fifth + shown;
    line_ends_add_up(info.id, tab);
    line_ends_add_up(first, info.spec.workspace.sandbox);
    line_ends_add_up(second, tab);
    line_ends_add_up(third, state);
    line_ends_add_up(fourth, tab);
    line_ends_add_up(fifth, shown);
    line_ends_add_up(sixth, "\n"@);
    assert("\n"@ =~= seq!['\n']);
    assert("\n"@.drop_last() =~= Seq::empty());
    assert(line_ends("\n"@.drop_last()) == 0);
    assert(line_ends("\n"@) == 1);
}

/// A listing has as many lines as there are boxes.
pub proof fn a_listing_has_a_line_for_each_box(boxes: Seq<BoxInfoView>)
    requires
        forall|i: int| 0 <= i < boxes.len() ==> is_one_line(#[trigger] boxes[i]),
    ensures
        line_ends(listing_text(boxes)) == boxes.len(),
    decreases boxes.len(),
{
    if boxes.len() > 0 {
        a_listing_has_a_line_for_each_box(boxes.drop_last());
        a_line_ends_once(boxes.last());
        line_ends_add_up(listing_text(boxes.drop_last()), line_text(boxes.last()));
    }
}

/// A workspace is shown as what it is: the directory, the image, the snapshot,
/// or the repository and its revision.
pub proof fn a_workspace_is_shown_as_it_is(first: Seq<char>, second: Seq<char>)
    ensures
        source_text(SourceView::LocalDir(first)) == first,
        source_text(SourceView::OciImage(first)) == first,
        source_text(SourceView::Snapshot(first)) == first,
        source_text(SourceView::GitRepo { url: first, rev: second }) == first + "#"@ + second,
{
}

/// The report on a box, line by line.
pub proof fn a_report_says_all(info: BoxInfoView, capabilities: SandboxCapabilities)
    ensures
        report_text(info, capabilities) == "id:         "@ + info.id + "\n"@ + (
        "sandbox:    "@ + info.spec.workspace.sandbox + "\n"@) + ("state:      "@
            + info.state.text() + "\n"@) + ("workspace:  "@ + source_text(info.spec.source)
            + "\n"@) + ("runner:     "@ + info.spec.runner.host + " / "@
            + info.spec.runner.sandbox + "\n"@) + ("isolation:  "@ + capabilities.isolation.text()
            + "\n"@) + ("untrusted:  "@ + untrusted_text(capabilities) + "\n"@) + (
        "supports:   "@ + supports_text(capabilities) + "\n"@),
        untrusted_text(capabilities) == if capabilities.isolation is Kernel
            || capabilities.isolation is Hardware {
            "safe"@
        } else {
            "UNSAFE — this sandbox confines nothing"@
        },
{
}

/// The words for two lists of capabilities are those for the one and then those
/// for the other.
proof fn words_for_both(
    capabilities: SandboxCapabilities,
    left: Seq<Capability>,
    right: Seq<Capability>,
)
    ensures
        declared_words(capabilities, left + right) == declared_words(capabilities, left)
            + declared_words(capabilities, right),
    decreases right.len(),
{
    if right.len() == 0 {
        assert(left + right =~= left);
        assert(declared_words(capabilities, left) + declared_words(capabilities, right)
            =~= declared_words(capabilities, left));
    } else {
        assert((left + right).drop_last() =~= left + right.drop_last());
        assert((left + right).last() == right.last());
        words_for_both(capabilities, left, right.drop_last());
        assert(declared_words(capabilities, left + right) =~= declared_words(capabilities, left)
            + declared_words(capabilities, right));
    }
}

/// The word for one capability, if it is declared.
pub open spec fn word_if(declared: bool, word: Seq<char>) -> Seq<Seq<char>> {
    if declared {
        seq![word]
    } else {
        Seq::empty()
    }
}

/// The words for one capability.
proof fn words_for_one(capabilities: SandboxCapabilities, capability: Capability)
    ensures
        declared_words(capabilities, seq![capability]) == word_if(
            capabilities.declares(capability),
            capability.text(),
        ),
{
    let one = seq![capability];
    assert(one.drop_last() =~= Seq::empty());
    assert(declared_words(capabilities, one.drop_last()) =~= Seq::empty());
    assert(Seq::empty().push(capability.text()) =~= seq![capability.text()]);
}

/// What a sandbox supports is said in one word for each capability that it
/// declares, always in the same order, and where there is none, that is said.
pub proof fn every_declared_capability_is_said(capabilities: SandboxCapabilities)
    ensures
        ({
            let words = word_if(
                !(capabilities.snapshot is Nothing),
                "filesystem snapshots"@,
            ) + word_if(capabilities.snapshot is FilesystemAndMemory, "memory snapshots"@)
                + word_if(capabilities.fork, "forking"@) + word_if(
                capabilities.pause_resume,
                "pause and resume"@,
            ) + word_if(capabilities.port_forward, "port forwarding"@) + word_if(
                capabilities.resource_limits,
                "resource limits"@,
            );
            supports_text(capabilities) == if words.len() == 0 {
                "nothing beyond running commands"@
            } else {
                text::joined(words, ", "@)
            }
        }),
{
    let first = seq![Capability::FilesystemSnapshot];
    let second = seq![Capability::MemorySnapshot];
    let third = seq![Capability::Fork];
    let fourth = seq![Capability::PauseResume];
    let fifth = seq![Capability::PortForward];
    let sixth = seq![Capability::ResourceLimits];
    words_for_one(capabilities, Capability::FilesystemSnapshot);
    words_for_one(capabilities, Capability::MemorySnapshot);
    words_for_one(capabilities, Capability::Fork);
    words_for_one(capabilities, Capability::PauseResume);
    words_for_one(capabilities, Capability::PortForward);
    words_for_one(capabilities, Capability::ResourceLimits);
    words_for_both(capabilities, first, second);
    words_for_both(capabilities, first + second, third);
    words_for_both(capabilities, first + second + third, fourth);
    words_for_both(capabilities, first + second + third + fourth, fifth);
    words_for_both(capabilities, first + second + third + fourth + fifth, sixth);
    assert(every_capability() =~= first + second + third + fourth + fifth + sixth);
}

/// A status that fits a byte is the exit code, and any other is tinybox's own.
pub proof fn a_status_is_its_exit_code(status: i32)
    ensures
        0 <= status <= 255 ==> exit_byte(status) == status,
        status < 0 || status > 255 ==> exit_byte(status) == 70,
{
}

/// Commands and what they ask for read as their parts do.
pub proof fn a_command_reads_as_its_parts(
    command: Command,
    wanted: Wanted,
    action: Action,
    running: Running,
)
    ensures
        wanted@.sandbox == wanted.sandbox@,
        wanted@.env.len() == wanted.env@.len(),
        forall|i: int| 0 <= i < wanted.env@.len() ==> #[trigger] wanted@.env[i]
            == wanted.env@[i]@,
        wanted.origin is Here ==> wanted@.origin is Here,
        wanted.origin matches Origin::Dir(path) ==> wanted@.origin == OriginView::Dir(path@),
        wanted.origin matches Origin::Image(image) ==> wanted@.origin == OriginView::Image(image@),
        command matches Command::Create(inner) ==> command@ == CommandView::Create(inner@),
        command matches Command::Exec { id, argv } ==> command@ is Exec && command@->Exec_id
            == id@ && command@->Exec_argv == Seq::new(argv@.len(), |i: int| argv@[i]@),
        command is Ls ==> command@ is Ls,
        command matches Command::Inspect { id } ==> command@ == (CommandView::Inspect { id: id@ }),
        command matches Command::Rm { id } ==> command@ == (CommandView::Rm { id: id@ }),
        command matches Command::Run { wanted: inner, argv } ==> command@ is Run
            && command@->Run_wanted == inner@ && command@->Run_argv == Seq::new(
            argv@.len(),
            |i: int| argv@[i]@,
        ),
        command matches Command::Snapshot { id } ==> command@ == (CommandView::Snapshot {
            id: id@,
        }),
        command matches Command::Fork { snapshot, sandbox } ==> command@ == (CommandView::Fork {
            snapshot: snapshot@,
            sandbox: sandbox@,
        }),
        action matches Action::Ask(effect) ==> action@ == ActionView::Ask(effect@),
        action matches Action::Finish(Ok(code)) ==> action@ == ActionView::Finish(Ok(code)),
        action matches Action::Finish(Err(error)) ==> action@ == ActionView::Finish(Err(error@)),
        running matches Running::Ask(effect) ==> running@ == RunningView::Ask(effect@),
        running matches Running::Exit(code, None) ==> running@ == RunningView::Exit(code, None),
        running matches Running::Exit(code, Some(said)) ==> running@ == RunningView::Exit(
            code,
            Some(said@),
        ),
{
    if let Command::Exec { id, argv } = command {
        assert(text::texts(argv@) =~= Seq::new(argv@.len(), |i: int| argv@[i]@));
    }
    if let Command::Run { wanted: inner, argv } = command {
        assert(text::texts(argv@) =~= Seq::new(argv@.len(), |i: int| argv@[i]@));
    }
}

} // verus!
