//! What boxes are, and the two traits every backend implements.
//!
//! [`Host`] answers *which machine*: it turns a command into the process to
//! spawn here so that the command runs there. [`Sandbox`] answers *what
//! confines it*: it owns box lifecycle, isolation and snapshots. Backends
//! implement one or the other, never both, which is what lets `ssh` and
//! `docker` compose without either knowing about the other.
//!
//! Neither trait performs anything. A host hands back the process to spawn; a
//! sandbox is a conversation, which says at each point what to ask of the
//! outside next, given what the outside has answered so far.

use vstd::prelude::*;

use crate::box_spec::{BoxSpec, BoxSpecView};
use crate::capability::{Capability, SandboxCapabilities};
use crate::conversation::{Progress, ProgressView, Reply, ReplyView};
use crate::error::{Error, ErrorView};
use crate::identity::{BoxId, SnapshotId};
use crate::ordered::{Duplicate, OrderedMap};
use crate::text;

verus! {

/// What a box is doing.
#[derive(Debug, Clone, Copy, PartialEq, Eq)]
pub enum BoxState {
    /// Commands can run in the box.
    Ready,
    /// The box exists but nothing can run in it.
    Stopped,
}

impl BoxState {
    /// How the state is shown.
    pub open spec fn text(self) -> Seq<char> {
        match self {
            BoxState::Ready => "ready"@,
            BoxState::Stopped => "stopped"@,
        }
    }

    /// The state in words.
    pub fn to_string(&self) -> (text: String)
        ensures
            text@ == self.text(),
    {
        match self {
            BoxState::Ready => "ready".to_owned(),
            BoxState::Stopped => "stopped".to_owned(),
        }
    }
}

/// A box as it is recorded.
#[derive(Debug, PartialEq, Eq)]
pub struct BoxInfo {
    /// Its name.
    pub id: BoxId,
    /// What it is doing.
    pub state: BoxState,
    /// What it was made from.
    pub spec: BoxSpec,
}

/// A [`BoxInfo`] with its strings as their characters.
pub struct BoxInfoView {
    pub id: Seq<char>,
    pub state: BoxState,
    pub spec: BoxSpecView,
}

impl View for BoxInfo {
    type V = BoxInfoView;

    open spec fn view(&self) -> BoxInfoView {
        BoxInfoView { id: self.id@, state: self.state, spec: self.spec@ }
    }
}

impl BoxInfo {
    /// Record a box.
    pub fn new(id: BoxId, state: BoxState, spec: BoxSpec) -> (info: BoxInfo)
        ensures
            info@ == (BoxInfoView { id: id@, state, spec: spec@ }),
    {
        BoxInfo { id, state, spec }
    }
}

impl Clone for BoxInfo {
    fn clone(&self) -> (copy: Self)
        ensures
            copy@ == self@,
    {
        BoxInfo { id: self.id.clone(), state: self.state, spec: self.spec.clone() }
    }
}

impl Duplicate for BoxInfo {
    fn duplicate(&self) -> (copy: Self) {
        self.clone()
    }
}

/// A command, as an argument vector rather than a command line: no backend has
/// to quote, and no caller can inject through a filename.
#[derive(Debug, PartialEq, Eq)]
pub struct ExecRequest {
    /// The program and its arguments.
    pub argv: Vec<String>,
    /// The directory to run in.
    pub cwd: Option<String>,
    /// The variables to set.
    pub env: OrderedMap<String>,
    /// What the program reads from its standard input.
    pub stdin: Option<Vec<u8>>,
}

/// An [`ExecRequest`] with its strings as their characters.
pub struct ExecRequestView {
    pub argv: Seq<Seq<char>>,
    pub cwd: Option<Seq<char>>,
    pub env: Map<Seq<char>, Seq<char>>,
    pub stdin: Option<Seq<u8>>,
}

/// The bytes of an optional payload.
pub open spec fn payload(stdin: Option<Vec<u8>>) -> Option<Seq<u8>> {
    match stdin {
        Some(bytes) => Some(bytes@),
        None => None,
    }
}

impl View for ExecRequest {
    type V = ExecRequestView;

    open spec fn view(&self) -> ExecRequestView {
        ExecRequestView {
            argv: text::texts(self.argv@),
            cwd: text::text_option(self.cwd),
            env: self.env@,
            stdin: payload(self.stdin),
        }
    }
}

/// The command that an argument vector alone describes.
pub open spec fn plain_request(argv: Seq<Seq<char>>) -> ExecRequestView {
    ExecRequestView { argv, cwd: None, env: Map::empty(), stdin: None }
}

/// A copy of a list of bytes.
pub fn copy_bytes(bytes: &Vec<u8>) -> (copy: Vec<u8>)
    ensures
        copy@ == bytes@,
{
    let mut copy: Vec<u8> = Vec::new();
    for i in 0..bytes.len()
        invariant
            copy@ == bytes@.take(i as int),
    {
        copy.push(bytes[i]);
    }
    assert(bytes@.take(bytes@.len() as int) =~= bytes@);
    copy
}

/// A copy of an optional payload.
pub fn copy_payload(stdin: &Option<Vec<u8>>) -> (copy: Option<Vec<u8>>)
    ensures
        payload(copy) == payload(*stdin),
{
    match stdin {
        Some(bytes) => Some(copy_bytes(bytes)),
        None => None,
    }
}

impl ExecRequest {
    /// Run `argv`, with nothing else said.
    pub fn new(argv: Vec<String>) -> (request: ExecRequest)
        ensures
            request@ == plain_request(text::texts(argv@)),
    {
        ExecRequest { argv, cwd: None, env: OrderedMap::new(), stdin: None }
    }

    /// The same command, in `cwd`.
    pub fn with_cwd(self, cwd: String) -> (request: ExecRequest)
        ensures
            request@ == (ExecRequestView { cwd: Some(cwd@), ..self@ }),
    {
        ExecRequest { cwd: Some(cwd), ..self }
    }

    /// The same command, with `key` set to `value`.
    pub fn with_env(self, key: String, value: String) -> (request: ExecRequest)
        ensures
            request@ == (ExecRequestView { env: self@.env.insert(key@, value@), ..self@ }),
    {
        let mut env: OrderedMap<String> = self.env;
        env.insert(key, value);
        ExecRequest { env, ..self }
    }

    /// The same command, reading `stdin`.
    pub fn with_stdin(self, stdin: Vec<u8>) -> (request: ExecRequest)
        ensures
            request@ == (ExecRequestView { stdin: Some(stdin@), ..self@ }),
    {
        ExecRequest { stdin: Some(stdin), ..self }
    }

    /// The program to run, if the vector names one.
    pub fn program(&self) -> (program: Option<&String>)
        ensures
            match program {
                Some(program) => self@.argv.len() > 0 && program@ == self@.argv[0],
                None => self@.argv.len() == 0,
            },
    {
        if self.argv.len() == 0 {
            None
        } else {
            Some(&self.argv[0])
        }
    }
}

impl Clone for ExecRequest {
    fn clone(&self) -> (copy: Self)
        ensures
            copy@ == self@,
    {
        ExecRequest {
            argv: text::copy_list(&self.argv),
            cwd: text::copy_option(&self.cwd),
            env: self.env.clone(),
            stdin: copy_payload(&self.stdin),
        }
    }
}

/// What a finished command left behind.
#[derive(Debug, PartialEq, Eq)]
pub struct ExecOutput {
    /// Its status. A failing command is a result, not a fault.
    pub exit_code: i32,
    /// What it wrote to its standard output.
    pub stdout: Vec<u8>,
    /// What it wrote to its standard error.
    pub stderr: Vec<u8>,
}

/// An [`ExecOutput`] with its lists as sequences.
pub struct ExecOutputView {
    pub exit_code: i32,
    pub stdout: Seq<u8>,
    pub stderr: Seq<u8>,
}

impl View for ExecOutput {
    type V = ExecOutputView;

    open spec fn view(&self) -> ExecOutputView {
        ExecOutputView { exit_code: self.exit_code, stdout: self.stdout@, stderr: self.stderr@ }
    }
}

impl ExecOutput {
    /// Report a finished command.
    pub fn new(exit_code: i32, stdout: Vec<u8>, stderr: Vec<u8>) -> (output: ExecOutput)
        ensures
            output@ == (ExecOutputView { exit_code, stdout: stdout@, stderr: stderr@ }),
    {
        ExecOutput { exit_code, stdout, stderr }
    }

    /// Whether the command reported success.
    pub fn succeeded(&self) -> (answer: bool)
        ensures
            answer == (self@.exit_code == 0),
    {
        self.exit_code == 0
    }

    /// The standard output as text.
    pub fn stdout_lossy(&self) -> (read: String)
        ensures
            read@ == text::lossy_text(self@.stdout),
            vstd::utf8::valid_utf8(self@.stdout) ==> read@ == vstd::utf8::decode_utf8(self@.stdout),
    {
        text::read_lossy(&self.stdout)
    }

    /// The standard error as text.
    pub fn stderr_lossy(&self) -> (read: String)
        ensures
            read@ == text::lossy_text(self@.stderr),
            vstd::utf8::valid_utf8(self@.stderr) ==> read@ == vstd::utf8::decode_utf8(self@.stderr),
    {
        text::read_lossy(&self.stderr)
    }
}

impl Clone for ExecOutput {
    fn clone(&self) -> (copy: Self)
        ensures
            copy@ == self@,
    {
        ExecOutput {
            exit_code: self.exit_code,
            stdout: copy_bytes(&self.stdout),
            stderr: copy_bytes(&self.stderr),
        }
    }
}

/// A process to spawn on the machine this runs on.
#[derive(Debug, PartialEq, Eq)]
pub struct Spawn {
    /// The program.
    pub program: String,
    /// Its arguments.
    pub args: Vec<String>,
    /// The variables to set over the inherited environment.
    pub env: OrderedMap<String>,
    /// The directory to start in, or the current one.
    pub cwd: Option<String>,
    /// What its standard input holds, which is otherwise empty.
    pub stdin: Option<Vec<u8>>,
}

/// A [`Spawn`] with its strings as their characters.
pub struct SpawnView {
    pub program: Seq<char>,
    pub args: Seq<Seq<char>>,
    pub env: Map<Seq<char>, Seq<char>>,
    pub cwd: Option<Seq<char>>,
    pub stdin: Option<Seq<u8>>,
}

impl View for Spawn {
    type V = SpawnView;

    open spec fn view(&self) -> SpawnView {
        SpawnView {
            program: self.program@,
            args: text::texts(self.args@),
            env: self.env@,
            cwd: text::text_option(self.cwd),
            stdin: payload(self.stdin),
        }
    }
}

/// What a fallible function returned, with its strings as their characters.
pub open spec fn outcome<T: View>(result: Result<T, Error>) -> Result<T::V, ErrorView> {
    match result {
        Ok(value) => Ok(value@),
        Err(error) => Err(error@),
    }
}

/// A machine tinybox can reach and run commands on.
///
/// A host provides no confinement of its own. `local` runs a child process;
/// `ssh` opens a channel to another machine. Confinement is the [`Sandbox`]'s
/// job, layered on top.
pub trait Host {
    /// The name this host is registered under.
    spec fn reach(&self) -> Seq<char>;

    /// The process that makes a command run on this host.
    spec fn spawns(&self, request: ExecRequestView) -> Result<SpawnView, ErrorView>;

    /// The name this host is registered under.
    fn name(&self) -> (name: &'static str)
        ensures
            name@ == self.reach(),
    ;

    /// The process to spawn here so that `request` runs on this host.
    fn prepare(&self, request: &ExecRequest) -> (prepared: Result<Spawn, Error>)
        ensures
            outcome(prepared) == self.spawns(request@),
    ;
}

/// A confinement that boxes are created inside.
///
/// Each operation is a conversation: given every reply so far and the position
/// of the first one that belongs to the operation, it either asks for the next
/// thing or is over.
pub trait Sandbox {
    /// The name this sandbox is registered under.
    spec fn confinement(&self) -> Seq<char>;

    /// What this sandbox declares.
    spec fn declared(&self) -> SandboxCapabilities;

    /// How [`Sandbox::create`] goes.
    spec fn creating(&self, spec: BoxSpecView, replies: Seq<ReplyView>, at: int) -> ProgressView<
        BoxInfoView,
    >;

    /// How [`Sandbox::exec`] goes.
    spec fn executing(
        &self,
        id: Seq<char>,
        request: ExecRequestView,
        replies: Seq<ReplyView>,
        at: int,
    ) -> ProgressView<ExecOutputView>;

    /// How [`Sandbox::snapshot`] goes.
    spec fn capturing(&self, id: Seq<char>, replies: Seq<ReplyView>, at: int) -> ProgressView<
        Seq<char>,
    >;

    /// How [`Sandbox::fork`] goes.
    spec fn forking(
        &self,
        snapshot: Seq<char>,
        spec: BoxSpecView,
        replies: Seq<ReplyView>,
        at: int,
    ) -> ProgressView<BoxInfoView>;

    /// How [`Sandbox::inspect`] goes.
    spec fn inspecting(&self, id: Seq<char>, replies: Seq<ReplyView>, at: int) -> ProgressView<
        BoxInfoView,
    >;

    /// How [`Sandbox::destroy`] goes.
    spec fn destroying(&self, id: Seq<char>, replies: Seq<ReplyView>, at: int) -> ProgressView<()>;

    /// The name this sandbox is registered under.
    fn name(&self) -> (name: &'static str)
        ensures
            name@ == self.confinement(),
    ;

    /// What this sandbox can actually do.
    fn capabilities(&self) -> (capabilities: SandboxCapabilities)
        ensures
            capabilities == self.declared(),
    ;

    /// Create a box from `spec` without starting any workload in it.
    fn create(&self, spec: &BoxSpec, replies: &Vec<Reply>, at: usize) -> (progress: Progress<BoxInfo>)
        ensures
            progress@ == self.creating(spec@, crate::conversation::history(replies@), at as int),
    ;

    /// Run a command inside an existing box.
    fn exec(&self, id: &BoxId, request: &ExecRequest, replies: &Vec<Reply>, at: usize) -> (progress:
        Progress<ExecOutput>)
        ensures
            progress@ == self.executing(
                id@,
                request@,
                crate::conversation::history(replies@),
                at as int,
            ),
    ;

    /// Capture the current state of a box.
    fn snapshot(&self, id: &BoxId, replies: &Vec<Reply>, at: usize) -> (progress: Progress<SnapshotId>)
        ensures
            progress@ == self.capturing(id@, crate::conversation::history(replies@), at as int),
    ;

    /// Branch a snapshot into a new independent box.
    fn fork(&self, snapshot: &SnapshotId, spec: &BoxSpec, replies: &Vec<Reply>, at: usize) -> (progress:
        Progress<BoxInfo>)
        ensures
            progress@ == self.forking(
                snapshot@,
                spec@,
                crate::conversation::history(replies@),
                at as int,
            ),
    ;

    /// Describe a box without changing it.
    fn inspect(&self, id: &BoxId, replies: &Vec<Reply>, at: usize) -> (progress: Progress<BoxInfo>)
        ensures
            progress@ == self.inspecting(id@, crate::conversation::history(replies@), at as int),
    ;

    /// Destroy a box and release everything it holds.
    fn destroy(&self, id: &BoxId, replies: &Vec<Reply>, at: usize) -> (progress: Progress<()>)
        ensures
            progress@ == self.destroying(id@, crate::conversation::history(replies@), at as int),
    ;
}

/// How capturing a box goes when the declaration is checked first.
pub open spec fn checked_capturing<S: Sandbox>(
    sandbox: &S,
    id: Seq<char>,
    replies: Seq<ReplyView>,
    at: int,
) -> ProgressView<Seq<char>> {
    if sandbox.declared().declares(Capability::FilesystemSnapshot) {
        sandbox.capturing(id, replies, at)
    } else {
        ProgressView::Failed(
            crate::error::unsupported(sandbox.confinement(), Capability::FilesystemSnapshot),
            at,
        )
    }
}

/// How forking a snapshot goes when the declaration is checked first.
pub open spec fn checked_forking<S: Sandbox>(
    sandbox: &S,
    snapshot: Seq<char>,
    spec: BoxSpecView,
    replies: Seq<ReplyView>,
    at: int,
) -> ProgressView<BoxInfoView> {
    if sandbox.declared().declares(Capability::Fork) {
        sandbox.forking(snapshot, spec, replies, at)
    } else {
        ProgressView::Failed(
            crate::error::unsupported(sandbox.confinement(), Capability::Fork),
            at,
        )
    }
}

/// Capture a box, if its sandbox declares that it can.
pub fn snapshot_if_declared<S: Sandbox>(
    sandbox: &S,
    id: &BoxId,
    replies: &Vec<Reply>,
    at: usize,
) -> (progress: Progress<SnapshotId>)
    ensures
        progress@ == checked_capturing(
            sandbox,
            id@,
            crate::conversation::history(replies@),
            at as int,
        ),
{
    let capabilities: SandboxCapabilities = sandbox.capabilities();
    match capabilities.require(sandbox.name(), Capability::FilesystemSnapshot) {
        Ok(_) => sandbox.snapshot(id, replies, at),
        Err(error) => Progress::Failed(error, at),
    }
}

/// Fork a snapshot, if the sandbox declares that it can.
pub fn fork_if_declared<S: Sandbox>(
    sandbox: &S,
    snapshot: &SnapshotId,
    spec: &BoxSpec,
    replies: &Vec<Reply>,
    at: usize,
) -> (progress: Progress<BoxInfo>)
    ensures
        progress@ == checked_forking(
            sandbox,
            snapshot@,
            spec@,
            crate::conversation::history(replies@),
            at as int,
        ),
{
    let capabilities: SandboxCapabilities = sandbox.capabilities();
    match capabilities.require(sandbox.name(), Capability::Fork) {
        Ok(_) => sandbox.fork(snapshot, spec, replies, at),
        Err(error) => Progress::Failed(error, at),
    }
}

/// Whatever a sandbox implements, an operation it has not declared is refused
/// by name, and nothing is asked of the outside.
pub proof fn an_undeclared_operation_is_refused<S: Sandbox>(
    sandbox: &S,
    id: Seq<char>,
    spec: BoxSpecView,
    replies: Seq<ReplyView>,
    at: int,
)
    ensures
        !sandbox.declared().declares(Capability::FilesystemSnapshot) ==> checked_capturing(
            sandbox,
            id,
            replies,
            at,
        ) == ProgressView::<Seq<char>>::Failed(
            ErrorView::Unsupported {
                sandbox: sandbox.confinement(),
                capability: Capability::FilesystemSnapshot,
            },
            at,
        ),
        !sandbox.declared().declares(Capability::Fork) ==> checked_forking(
            sandbox,
            id,
            spec,
            replies,
            at,
        ) == ProgressView::<BoxInfoView>::Failed(
            ErrorView::Unsupported {
                sandbox: sandbox.confinement(),
                capability: Capability::Fork,
            },
            at,
        ),
{
}

/// Requests, outputs, records and processes read as their parts do.
pub proof fn what_is_run_reads_as_its_parts(
    request: ExecRequest,
    output: ExecOutput,
    info: BoxInfo,
    spawn: Spawn,
)
    ensures
        request@.argv.len() == request.argv@.len(),
        forall|i: int|
            0 <= i < request.argv@.len() ==> #[trigger] request@.argv[i] == request.argv@[i]@,
        request.cwd is None ==> request@.cwd is None,
        request.cwd matches Some(cwd) ==> request@.cwd == Some(cwd@),
        request@.env == request.env@,
        request.stdin is None ==> request@.stdin is None,
        request.stdin matches Some(bytes) ==> request@.stdin == Some(bytes@),
        output@.exit_code == output.exit_code,
        output@.stdout == output.stdout@,
        output@.stderr == output.stderr@,
        info@.id == info.id@,
        info@.state == info.state,
        info@.spec == info.spec@,
        spawn@.program == spawn.program@,
        spawn@.args.len() == spawn.args@.len(),
        forall|i: int| 0 <= i < spawn.args@.len() ==> #[trigger] spawn@.args[i] == spawn.args@[i]@,
        spawn@.env == spawn.env@,
        spawn.cwd is None ==> spawn@.cwd is None,
        spawn.cwd matches Some(cwd) ==> spawn@.cwd == Some(cwd@),
        spawn.stdin is None ==> spawn@.stdin is None,
        spawn.stdin matches Some(bytes) ==> spawn@.stdin == Some(bytes@),
{
}

/// A request that only names a command says nothing else.
pub proof fn a_plain_request_is_its_command(argv: Seq<Seq<char>>)
    ensures
        plain_request(argv).argv == argv,
        plain_request(argv).cwd is None,
        plain_request(argv).env == Map::<Seq<char>, Seq<char>>::empty(),
        plain_request(argv).stdin is None,
{
}

} // verus!
