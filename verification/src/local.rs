//! Running commands on the machine tinybox is running on.

use vstd::prelude::*;
use vstd::string::*;

use crate::error::{Error, ErrorView};
use crate::runtime::{
    ExecOutput, ExecOutputView, ExecRequest, ExecRequestView, Host, Spawn, SpawnView,
};
use crate::text;

verus! {

/// The name this host registers under.
pub const NAME: &'static str = "local";

/// Reported when a process ended without an exit code, which on Unix means that
/// a signal ended it.
///
/// `128` is the base the shell uses for signal terminations, and cannot be
/// mistaken for success.
pub const EXIT_CODE_UNAVAILABLE: i32 = 128;

/// The process to spawn for a request: the program is the first argument, the
/// arguments, the variables and the directory are passed on as they are, and
/// there is nothing to read.
pub open spec fn local_spawn(request: ExecRequestView) -> Result<SpawnView, ErrorView> {
    if request.argv.len() == 0 {
        Err(ErrorView::EmptyCommand { sandbox: "local"@ })
    } else {
        Ok(
            SpawnView {
                program: request.argv[0],
                args: request.argv.skip(1),
                env: request.env,
                cwd: request.cwd,
                stdin: None,
            },
        )
    }
}

/// A host that spawns child processes on the local machine.
///
/// This is reach, not confinement: a command run here has the launching user's
/// full privileges.
#[derive(Debug, Clone, Copy, PartialEq, Eq)]
pub struct LocalHost;

impl Default for LocalHost {
    fn default() -> (host: Self)
        ensures
            host == LocalHost,
    {
        LocalHost
    }
}

impl LocalHost {
    /// A host targeting the local machine.
    pub fn new() -> (host: LocalHost)
        ensures
            host == LocalHost,
    {
        LocalHost
    }

    /// Turn a request into the process to spawn.
    ///
    /// The child inherits the parent environment with the request's variables
    /// layered on top. Its standard input is empty whatever the request holds:
    /// a child that inherited the terminal would block on a prompt no one can
    /// answer.
    pub fn command(request: &ExecRequest) -> (spawn: Result<Spawn, Error>)
        ensures
            crate::runtime::outcome(spawn) == local_spawn(request@),
    {
        let program: String = match request.program() {
            Some(program) => program.clone(),
            None => {
                return Err(Error::EmptyCommand { sandbox: NAME.to_owned() });
            },
        };
        let mut args: Vec<String> = Vec::new();
        let mut i: usize = 1;
        while i < request.argv.len()
            invariant
                1 <= i <= request.argv.len(),
                text::texts(args@) == text::texts(request.argv@).subrange(1, i as int),
            decreases request.argv.len() - i,
        {
            text::add_to(&mut args, request.argv[i].as_str());
            assert(text::texts(request.argv@).subrange(1, i + 1) =~= text::texts(
                request.argv@,
            ).subrange(1, i as int).push(request.argv@[i as int]@));
            i = i + 1;
        }
        assert(text::texts(args@) =~= request@.argv.skip(1));
        Ok(
            Spawn {
                program,
                args,
                env: request.env.clone(),
                cwd: text::copy_option(&request.cwd),
                stdin: None,
            },
        )
    }

    /// What a finished process left behind. A command that exits non-zero is a
    /// result, not an error; one that has no exit code never counts as a
    /// success.
    pub fn collect(exit_code: Option<i32>, stdout: Vec<u8>, stderr: Vec<u8>) -> (output: ExecOutput)
        ensures
            output@ == (ExecOutputView {
                exit_code: match exit_code {
                    Some(code) => code,
                    None => EXIT_CODE_UNAVAILABLE,
                },
                stdout: stdout@,
                stderr: stderr@,
            }),
            (output@.exit_code == 0) == (exit_code == Some(0i32)),
    {
        let code: i32 = match exit_code {
            Some(code) => code,
            None => EXIT_CODE_UNAVAILABLE,
        };
        ExecOutput::new(code, stdout, stderr)
    }
}

impl Host for LocalHost {
    open spec fn reach(&self) -> Seq<char> {
        "local"@
    }

    open spec fn spawns(&self, request: ExecRequestView) -> Result<SpawnView, ErrorView> {
        local_spawn(request)
    }

    fn name(&self) -> (name: &'static str) {
        NAME
    }

    fn prepare(&self, request: &ExecRequest) -> (prepared: Result<Spawn, Error>) {
        LocalHost::command(request)
    }
}

/// An argument vector is spawned as it is: nothing is quoted, split or expanded
/// on the way, and the child has nothing to read.
pub proof fn an_argument_vector_is_spawned_as_it_is(request: ExecRequestView)
    requires
        request.argv.len() > 0,
    ensures
        local_spawn(request) matches Ok(spawn) && seq![spawn.program] + spawn.args == request.argv
            && spawn.env == request.env && spawn.cwd == request.cwd && spawn.stdin is None,
{
    assert(seq![request.argv[0]] + request.argv.skip(1) =~= request.argv);
}

/// A command without a program is refused, by name.
pub proof fn a_program_is_needed(request: ExecRequestView)
    requires
        request.argv.len() == 0,
    ensures
        local_spawn(request) == Err::<SpawnView, ErrorView>(
            ErrorView::EmptyCommand { sandbox: "local"@ },
        ),
{
}

} // verus!
