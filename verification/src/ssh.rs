//! Reaching another machine over SSH.

use vstd::prelude::*;
use vstd::string::*;

use crate::capability::Capability;
use crate::error::{Error, ErrorView};
use crate::forward::Opening;
use crate::number;
use crate::runtime::{ExecRequest, ExecRequestView, Host, Spawn, SpawnView};
use crate::shell;
use crate::text;

verus! {

/// The name this host registers under.
pub const NAME: &'static str = "ssh";

/// Text that `ssh` takes for a destination: there is some, and it cannot be
/// read as an option.
pub open spec fn is_destination(text: Seq<char>) -> bool {
    text.len() > 0 && text[0] != '-'
}

/// The options every connection is made with.
pub open spec fn flags_for(port: Option<u16>) -> Seq<Seq<char>> {
    match port {
        Some(port) => seq!["-o"@, "BatchMode=yes"@, "-p"@, number::decimal_text(port as nat)],
        None => seq!["-o"@, "BatchMode=yes"@],
    }
}

/// Where to connect, and how.
#[derive(Debug, PartialEq, Eq)]
pub struct SshTarget {
    destination: String,
    port: Option<u16>,
}

/// An [`SshTarget`] with its strings as their characters.
pub struct SshTargetView {
    pub destination: Seq<char>,
    pub port: Option<u16>,
}

impl View for SshTarget {
    type V = SshTargetView;

    closed spec fn view(&self) -> SshTargetView {
        SshTargetView { destination: self.destination@, port: self.port }
    }
}

impl Clone for SshTarget {
    fn clone(&self) -> (copy: Self)
        ensures
            copy@ == self@,
    {
        proof {
            use_type_invariant(self);
        }
        SshTarget { destination: self.destination.clone(), port: self.port }
    }
}

impl SshTarget {
    #[verifier::type_invariant]
    spec fn holds_a_destination(self) -> bool {
        is_destination(self.destination@)
    }

    /// Connect to `destination`, as `ssh` takes it: `[user@]host`, or a name
    /// from the user's own configuration.
    pub fn new(destination: &str) -> (target: Result<SshTarget, Error>)
        ensures
            match target {
                Ok(target) => is_destination(destination@) && target@ == (SshTargetView {
                    destination: destination@,
                    port: None,
                }),
                Err(error) => !is_destination(destination@) && error@
                    == crate::error::invalid_name("ssh destination"@, destination@),
            },
    {
        if destination.unicode_len() == 0 || destination.get_char(0) == '-' {
            return Err(
                Error::InvalidIdentifier {
                    kind: "ssh destination",
                    value: destination.to_owned(),
                },
            );
        }
        Ok(SshTarget { destination: destination.to_owned(), port: None })
    }

    /// Connect to another port than the configured one.
    pub fn with_port(self, port: u16) -> (target: SshTarget)
        ensures
            target@ == (SshTargetView { port: Some(port), ..self@ }),
    {
        proof {
            use_type_invariant(&self);
        }
        SshTarget { destination: self.destination, port: Some(port) }
    }

    /// The options that every connection to this target is made with.
    ///
    /// Nobody is there to answer a prompt, so `BatchMode` turns one into a
    /// failure.
    pub fn connection_flags(&self) -> (flags: Vec<String>)
        ensures
            text::texts(flags@) == flags_for(self@.port),
    {
        let mut flags: Vec<String> = Vec::new();
        text::add_to(&mut flags, "-o");
        text::add_to(&mut flags, "BatchMode=yes");
        if let Some(port) = self.port {
            text::add_to(&mut flags, "-p");
            text::add_to(&mut flags, number::decimal(port as u64).as_str());
        }
        assert(text::texts(flags@) =~= flags_for(self@.port));
        flags
    }

    /// Where to connect.
    pub fn destination(&self) -> (destination: &str)
        ensures
            destination@ == self@.destination,
            is_destination(destination@),
    {
        proof {
            use_type_invariant(self);
        }
        self.destination.as_str()
    }
}

/// The `ssh` command line for a request.
///
/// The remote command is one argument, and `--` stands before it, so a command
/// that starts with a dash cannot be read as an option of `ssh`.
pub open spec fn ssh_argv(target: SshTargetView, request: ExecRequestView) -> Seq<Seq<char>> {
    seq!["ssh"@] + flags_for(target.port) + seq![
        target.destination,
        "--"@,
        shell::remote_text(request.argv, request.cwd, request.env),
    ]
}

/// What a host that runs `ssh` is asked to run.
pub open spec fn ssh_request(target: SshTargetView, request: ExecRequestView) -> ExecRequestView {
    ExecRequestView {
        stdin: request.stdin,
        ..crate::runtime::plain_request(ssh_argv(target, request))
    }
}

/// What a host spawns to run a request on another machine.
pub open spec fn ssh_spawn<H: Host>(
    inner: &H,
    target: SshTargetView,
    request: ExecRequestView,
) -> Result<SpawnView, ErrorView> {
    if request.argv.len() == 0 {
        Err(ErrorView::EmptyCommand { sandbox: "ssh"@ })
    } else {
        inner.spawns(ssh_request(target, request))
    }
}

/// A host that runs commands on another machine.
///
/// It builds an `ssh` command line and hands it to an inner host, so the user's
/// own SSH configuration, keys and agent all apply. It also composes: an inner
/// host that is itself reached over SSH is a jump box.
///
/// This is reach, not confinement: a command run here has the remote user's
/// full privileges.
#[derive(Debug)]
pub struct SshHost<H> {
    inner: H,
    target: SshTarget,
}

impl<H: Host + Clone> Clone for SshHost<H> {
    fn clone(&self) -> (copy: Self)
        ensures
            cloned(self.through(), copy.through()),
            copy.toward() == self.toward(),
    {
        SshHost { inner: self.inner.clone(), target: self.target.clone() }
    }
}

impl<H: Host> SshHost<H> {
    /// The host that runs `ssh`.
    pub closed spec fn through(&self) -> H {
        self.inner
    }

    /// Where this host connects to.
    pub closed spec fn toward(&self) -> SshTargetView {
        self.target@
    }

    /// Reach `target` by running `ssh` on `inner`.
    pub fn new(inner: H, target: SshTarget) -> (host: SshHost<H>)
        ensures
            host.through() == inner,
            host.toward() == target@,
    {
        SshHost { inner, target }
    }

    /// Where this host connects to.
    pub fn target(&self) -> (target: &SshTarget)
        ensures
            target@ == self.toward(),
    {
        &self.target
    }

    /// The `ssh` command line for `request`.
    pub fn command(&self, request: &ExecRequest) -> (argv: Result<Vec<String>, Error>)
        ensures
            match argv {
                Ok(argv) => request@.argv.len() > 0 && text::texts(argv@) == ssh_argv(
                    self.toward(),
                    request@,
                ),
                Err(error) => request@.argv.len() == 0 && error@ == (ErrorView::EmptyCommand {
                    sandbox: "ssh"@,
                }),
            },
    {
        if request.argv.len() == 0 {
            return Err(Error::EmptyCommand { sandbox: NAME.to_owned() });
        }
        let mut argv: Vec<String> = Vec::new();
        text::add_to(&mut argv, "ssh");
        text::add_all_to(&mut argv, &self.target.connection_flags());
        text::add_to(&mut argv, self.target.destination());
        text::add_to(&mut argv, "--");
        let remote: String = shell::remote_command(&request.argv, &request.cwd, &request.env);
        text::add_to(&mut argv, remote.as_str());
        assert(text::texts(argv@) =~= ssh_argv(self.toward(), request@));
        Ok(argv)
    }

    /// What the inner host is asked to run for `request`.
    ///
    /// The payload belongs to the remote command, so it is handed on with the
    /// `ssh` command line, whose input `ssh` forwards to the far side.
    pub fn forwarded(&self, request: &ExecRequest) -> (forwarded: Result<ExecRequest, Error>)
        ensures
            match forwarded {
                Ok(forwarded) => request@.argv.len() > 0 && forwarded@ == ssh_request(
                    self.toward(),
                    request@,
                ),
                Err(error) => request@.argv.len() == 0 && error@ == (ErrorView::EmptyCommand {
                    sandbox: "ssh"@,
                }),
            },
    {
        match self.command(request) {
            Ok(argv) => {
                let mut forwarded: ExecRequest = ExecRequest::new(argv);
                if let Some(stdin) = &request.stdin {
                    forwarded = forwarded.with_stdin(crate::runtime::copy_bytes(stdin));
                }
                Ok(forwarded)
            },
            Err(error) => Err(error),
        }
    }

    /// Start making an address that the far machine can reach, reachable from
    /// this one.
    ///
    /// A tunnel is a process that has to keep running here. Behind another
    /// hop, it would run on this machine and lead nowhere, so only a host
    /// whose `ssh` runs locally opens one.
    pub fn forward(&self) -> (opening: Result<Opening, Error>)
        ensures
            match opening {
                Ok(opening) => self.through().reach() == "local"@ && opening == Opening::Reserving,
                Err(error) => self.through().reach() != "local"@ && error@
                    == crate::error::unsupported("ssh"@, Capability::PortForward),
            },
    {
        if text::same(self.inner.name(), "local") {
            Ok(Opening::Reserving)
        } else {
            Err(
                Error::Unsupported {
                    sandbox: NAME.to_owned(),
                    capability: Capability::PortForward,
                },
            )
        }
    }
}

impl<H: Host> Host for SshHost<H> {
    open spec fn reach(&self) -> Seq<char> {
        "ssh"@
    }

    open spec fn spawns(&self, request: ExecRequestView) -> Result<SpawnView, ErrorView> {
        ssh_spawn(&self.through(), self.toward(), request)
    }

    fn name(&self) -> (name: &'static str) {
        NAME
    }

    fn prepare(&self, request: &ExecRequest) -> (prepared: Result<Spawn, Error>) {
        match self.forwarded(request) {
            Ok(forwarded) => self.inner.prepare(&forwarded),
            Err(error) => Err(error),
        }
    }
}

/// What runs on the far machine is what was asked for: `ssh` is spawned here
/// with the remote command as its last argument, and a shell that is handed
/// that argument enters the directory, sets the variables, and runs the
/// argument vector unchanged. The payload is handed to the host that runs `ssh`.
pub proof fn a_far_command_arrives_unchanged(target: SshTargetView, request: ExecRequestView)
    requires
        request.argv.len() > 0,
    ensures
        ({
            let spawn = ssh_spawn(&crate::local::LocalHost, target, request);
            &&& spawn is Ok
            &&& spawn->Ok_0.program == "ssh"@
            &&& ssh_request(target, request).stdin == request.stdin
            &&& spawn->Ok_0.args == flags_for(target.port) + seq![
                target.destination,
                "--"@,
                spawn->Ok_0.args.last(),
            ]
            &&& shell::shell_reads(spawn->Ok_0.args.last(), shell::Reading::Blank) == Some(
                shell::remote_tokens(request.argv, request.cwd, request.env),
            )
        }),
{
    let argv = ssh_argv(target, request);
    let line = shell::remote_text(request.argv, request.cwd, request.env);
    assert(argv.skip(1).last() == line);
    assert(argv.skip(1) =~= flags_for(target.port) + seq![target.destination, "--"@, line]);
    shell::a_remote_command_reads_as_intended(request.argv, request.cwd, request.env);
}

/// Hops compose: through a jump box, the first machine's shell reads the words
/// of the very `ssh` command line that reaches the second machine.
pub proof fn a_jump_box_runs_ssh_for_the_far_machine(
    jump: SshTargetView,
    far: SshTargetView,
    request: ExecRequestView,
)
    requires
        request.argv.len() > 0,
    ensures
        ({
            let spawn = ssh_spawn(&crate::local::LocalHost, jump, ssh_request(far, request));
            &&& spawn is Ok
            &&& spawn->Ok_0.program == "ssh"@
            &&& ssh_request(jump, ssh_request(far, request)).stdin == request.stdin
            &&& shell::shell_reads(spawn->Ok_0.args.last(), shell::Reading::Blank) == Some(
                shell::words(ssh_argv(far, request)),
            )
        }),
{
    let hop = ssh_request(far, request);
    a_far_command_arrives_unchanged(jump, hop);
    let none = Seq::<(Seq<char>, Seq<char>)>::empty();
    assert(crate::ordered::map_of(none) =~= hop.env);
    crate::ordered::sorted_pairs_of(none);
    assert(shell::remote_tokens(hop.argv, hop.cwd, hop.env) =~= shell::words(hop.argv));
}

/// The `ssh` command line, word by word: its options, the destination, `--`, and
/// the remote command as one argument. The port is given where there is one.
pub proof fn an_ssh_command_line_is_known(target: SshTargetView, request: ExecRequestView)
    ensures
        ({
            let line = shell::remote_text(request.argv, request.cwd, request.env);
            let sent = ssh_request(target, request);
            &&& target.port is None ==> sent.argv == seq![
                "ssh"@,
                "-o"@,
                "BatchMode=yes"@,
                target.destination,
                "--"@,
                line,
            ]
            &&& target.port matches Some(port) ==> sent.argv == seq![
                "ssh"@,
                "-o"@,
                "BatchMode=yes"@,
                "-p"@,
                number::decimal_text(port as nat),
                target.destination,
                "--"@,
                line,
            ]
            &&& sent.cwd is None
            &&& sent.env == Map::<Seq<char>, Seq<char>>::empty()
            &&& sent.stdin == request.stdin
        }),
{
    let line = shell::remote_text(request.argv, request.cwd, request.env);
    match target.port {
        None => {
            assert(ssh_argv(target, request) =~= seq![
                "ssh"@,
                "-o"@,
                "BatchMode=yes"@,
                target.destination,
                "--"@,
                line,
            ]);
        },
        Some(port) => {
            assert(ssh_argv(target, request) =~= seq![
                "ssh"@,
                "-o"@,
                "BatchMode=yes"@,
                "-p"@,
                number::decimal_text(port as nat),
                target.destination,
                "--"@,
                line,
            ]);
        },
    }
}

/// Whatever its inner host is, a host over SSH refuses a command without a
/// program, and hands every other on to it.
pub proof fn an_inner_host_runs_ssh<H: Host>(
    inner: &H,
    target: SshTargetView,
    request: ExecRequestView,
)
    ensures
        request.argv.len() == 0 ==> ssh_spawn(inner, target, request) == Err::<
            SpawnView,
            ErrorView,
        >(ErrorView::EmptyCommand { sandbox: "ssh"@ }),
        request.argv.len() > 0 ==> ssh_spawn(inner, target, request) == inner.spawns(
            ssh_request(target, request),
        ),
{
}

/// A destination is any text that is there and does not start with a dash.
pub proof fn a_destination_is_no_option(first: char, rest: Seq<char>)
    ensures
        !is_destination(Seq::empty()),
        is_destination(seq![first] + rest) == (first != '-'),
{
}

} // verus!
