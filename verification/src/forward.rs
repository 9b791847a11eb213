//! Making a port on the far machine reachable from this one.
//!
//! Everything else builds a command line and has it run to completion. A tunnel
//! is the running process itself, and outlives the call that created it. What
//! is decided here is the command line, and what to do while waiting for the
//! tunnel to come up.

use vstd::prelude::*;
use vstd::string::*;

use crate::error::{Error, ErrorView};
use crate::number;
use crate::ssh;
use crate::ssh::{SshTarget, SshTargetView};
use crate::text;

verus! {

/// How many seconds to wait for the tunnel's local listener to start accepting.
///
/// `ssh` binds the local side before the far side matters, so this is waiting
/// on authentication and the forward request, not on whatever is listening
/// over there.
pub const LISTEN_TIMEOUT_SECS: u64 = 10;

/// How many milliseconds to wait for a local connection, and between two
/// attempts.
pub const POLL_INTERVAL_MILLIS: u64 = 50;

/// Whether waiting for the local listener has taken too long.
pub fn is_late(waited_millis: u64) -> (late: bool)
    ensures
        late == (waited_millis >= 10_000),
{
    waited_millis >= LISTEN_TIMEOUT_SECS * 1000
}

/// An address as the far machine reaches it.
#[derive(Debug, PartialEq, Eq)]
pub struct Endpoint {
    /// The address, written out.
    pub ip: String,
    /// The port.
    pub port: u16,
}

/// An [`Endpoint`] with its strings as their characters.
pub struct EndpointView {
    pub ip: Seq<char>,
    pub port: u16,
}

impl View for Endpoint {
    type V = EndpointView;

    open spec fn view(&self) -> EndpointView {
        EndpointView { ip: self.ip@, port: self.port }
    }
}

impl Endpoint {
    /// A port at an address.
    pub fn new(ip: String, port: u16) -> (endpoint: Endpoint)
        ensures
            endpoint@ == (EndpointView { ip: ip@, port }),
    {
        Endpoint { ip, port }
    }
}

/// A local address, written out. It is on the loopback interface: a forward
/// reachable from the network would republish the far machine's port to anyone
/// who can reach this one.
pub open spec fn local_text(port: u16) -> Seq<char> {
    "127.0.0.1:"@ + number::decimal_text(port as nat)
}

/// What `-L` is given: listen locally, and connect to `remote` over there.
pub open spec fn forward_text(local_port: u16, remote: EndpointView) -> Seq<char> {
    local_text(local_port) + ":"@ + remote.ip + ":"@ + number::decimal_text(remote.port as nat)
}

/// The `ssh` command line that carries a forward and nothing else.
pub open spec fn tunnel_argv(target: SshTargetView, local_port: u16, remote: EndpointView) -> Seq<
    Seq<char>,
> {
    seq!["ssh"@] + ssh::flags_for(target.port) + seq![
        "-N"@,
        "-o"@,
        "ExitOnForwardFailure=yes"@,
        "-o"@,
        "ServerAliveInterval=15"@,
        "-L"@,
        forward_text(local_port, remote),
        target.destination,
    ]
}

/// A local address, written out.
fn local_address(port: u16) -> (address: String)
    ensures
        address@ == local_text(port),
{
    let digits: String = number::decimal(port as u64);
    "127.0.0.1:".to_owned().concat(digits.as_str())
}

/// The `ssh` command line that carries a forward and nothing else.
///
/// It runs no remote command: a login shell on the far side would be one more
/// thing to fail. It exits if the forward is refused, rather than sitting there
/// connected, and notices a dead peer. The destination is last, so nothing
/// after it can be read as an option.
pub fn tunnel_command(target: &SshTarget, local_port: u16, remote: &Endpoint) -> (argv: Vec<String>)
    ensures
        text::texts(argv@) == tunnel_argv(target@, local_port, remote@),
{
    let local: String = local_address(local_port);
    let remote_port: String = number::decimal(remote.port as u64);
    let carried: String = text::concat5(
        local.as_str(),
        ":",
        remote.ip.as_str(),
        ":",
        remote_port.as_str(),
    );
    let mut argv: Vec<String> = Vec::new();
    text::add_to(&mut argv, "ssh");
    text::add_all_to(&mut argv, &target.connection_flags());
    text::add_to(&mut argv, "-N");
    text::add_to(&mut argv, "-o");
    text::add_to(&mut argv, "ExitOnForwardFailure=yes");
    text::add_to(&mut argv, "-o");
    text::add_to(&mut argv, "ServerAliveInterval=15");
    text::add_to(&mut argv, "-L");
    text::add_to(&mut argv, carried.as_str());
    text::add_to(&mut argv, target.destination());
    assert(text::texts(argv@) =~= tunnel_argv(target@, local_port, remote@));
    argv
}

/// What to report of what `ssh` said on its way out.
pub open spec fn diagnostic(said: Seq<char>) -> Seq<char> {
    if text::trimmed(said).len() == 0 {
        "ssh exited before the forward was established"@
    } else {
        text::trimmed(said)
    }
}

/// What to report of what `ssh` said on its way out.
///
/// An error with no message is the least useful thing this could report, so
/// silence has a description of its own.
pub fn exit_diagnostic(said: &str) -> (message: String)
    ensures
        message@ == diagnostic(said@),
{
    let trimmed: String = text::trim(said);
    if trimmed.as_str().unicode_len() == 0 {
        "ssh exited before the forward was established".to_owned()
    } else {
        trimmed
    }
}

/// A forward that did not come up.
pub open spec fn not_open(message: Seq<char>) -> ErrorView {
    ErrorView::Backend { sandbox: "ssh"@, operation: "open a port forward"@, message }
}

/// What is said of a forward that takes too long.
pub open spec fn late_text(port: u16) -> Seq<char> {
    "the forward did not start accepting on "@ + local_text(port) + " within "@
        + number::decimal_text(LISTEN_TIMEOUT_SECS as nat) + "s"@
}

/// A forward that did not come up.
fn cannot_open(message: String) -> (error: Error)
    ensures
        error@ == not_open(message@),
{
    Error::Backend { sandbox: "ssh".to_owned(), operation: "open a port forward", message }
}

/// How far opening a forward has come.
#[derive(Debug, PartialEq, Eq)]
pub enum Opening {
    /// A free local port has to be found.
    Reserving,
    /// `ssh` has to be started, to listen on this local port.
    Spawning(u16),
    /// A connection to the local port has to be tried.
    Connecting(u16),
    /// Nothing accepted yet, so `ssh` may have exited.
    CheckingExit(u16),
    /// `ssh` still runs, so it may be too late.
    CheckingClock(u16),
    /// There is time, so a moment has to pass before the next attempt.
    Pausing(u16),
    /// It failed with `ssh` running, which has to be ended first.
    Closing(Error),
    /// The forward is open at this local port.
    Opened(u16),
    /// It failed, and nothing is left behind.
    Refused(Error),
}

/// An [`Opening`] with its strings as their characters.
pub enum OpeningView {
    Reserving,
    Spawning(u16),
    Connecting(u16),
    CheckingExit(u16),
    CheckingClock(u16),
    Pausing(u16),
    Closing(ErrorView),
    Opened(u16),
    Refused(ErrorView),
}

impl View for Opening {
    type V = OpeningView;

    open spec fn view(&self) -> OpeningView {
        match *self {
            Opening::Reserving => OpeningView::Reserving,
            Opening::Spawning(port) => OpeningView::Spawning(port),
            Opening::Connecting(port) => OpeningView::Connecting(port),
            Opening::CheckingExit(port) => OpeningView::CheckingExit(port),
            Opening::CheckingClock(port) => OpeningView::CheckingClock(port),
            Opening::Pausing(port) => OpeningView::Pausing(port),
            Opening::Closing(error) => OpeningView::Closing(error@),
            Opening::Opened(port) => OpeningView::Opened(port),
            Opening::Refused(error) => OpeningView::Refused(error@),
        }
    }
}

/// What happened while a forward was being opened.
#[derive(Debug, PartialEq, Eq)]
pub enum TunnelEvent {
    /// A free local port was found, or why none was.
    Reserved(Result<u16, Error>),
    /// `ssh` was started, or why not.
    Spawned(Result<(), Error>),
    /// Whether something accepted on the local port.
    Tried(bool),
    /// What `ssh` said on its way out, if it has exited.
    Exited(Option<String>),
    /// For how many milliseconds the wait has lasted.
    Clocked(u64),
    /// A moment has passed.
    Paused,
    /// `ssh` was ended.
    Closed,
}

/// A [`TunnelEvent`] with its strings as their characters.
pub enum TunnelEventView {
    Reserved(Result<u16, ErrorView>),
    Spawned(Result<(), ErrorView>),
    Tried(bool),
    Exited(Option<Seq<char>>),
    Clocked(u64),
    Paused,
    Closed,
}

impl View for TunnelEvent {
    type V = TunnelEventView;

    open spec fn view(&self) -> TunnelEventView {
        match *self {
            TunnelEvent::Reserved(Ok(port)) => TunnelEventView::Reserved(Ok(port)),
            TunnelEvent::Reserved(Err(error)) => TunnelEventView::Reserved(Err(error@)),
            TunnelEvent::Spawned(result) => TunnelEventView::Spawned(
                crate::conversation::change(result),
            ),
            TunnelEvent::Tried(accepted) => TunnelEventView::Tried(accepted),
            TunnelEvent::Exited(said) => TunnelEventView::Exited(text::text_option(said)),
            TunnelEvent::Clocked(waited) => TunnelEventView::Clocked(waited),
            TunnelEvent::Paused => TunnelEventView::Paused,
            TunnelEvent::Closed => TunnelEventView::Closed,
        }
    }
}

impl OpeningView {
    /// Where an event leads. One that does not belong here changes nothing.
    pub open spec fn after(self, event: TunnelEventView) -> OpeningView {
        match (self, event) {
            (OpeningView::Reserving, TunnelEventView::Reserved(Ok(port))) => OpeningView::Spawning(
                port,
            ),
            (OpeningView::Reserving, TunnelEventView::Reserved(Err(error))) => OpeningView::Refused(
                error,
            ),
            (OpeningView::Spawning(port), TunnelEventView::Spawned(Ok(_))) => {
                OpeningView::Connecting(port)
            },
            (OpeningView::Spawning(_), TunnelEventView::Spawned(Err(error))) => {
                OpeningView::Refused(error)
            },
            (OpeningView::Connecting(port), TunnelEventView::Tried(accepted)) => if accepted {
                OpeningView::Opened(port)
            } else {
                OpeningView::CheckingExit(port)
            },
            (OpeningView::CheckingExit(_), TunnelEventView::Exited(Some(said))) => {
                OpeningView::Closing(not_open(diagnostic(said)))
            },
            (OpeningView::CheckingExit(port), TunnelEventView::Exited(None)) => {
                OpeningView::CheckingClock(port)
            },
            (OpeningView::CheckingClock(port), TunnelEventView::Clocked(waited)) => if waited
                >= 10_000 {
                OpeningView::Closing(not_open(late_text(port)))
            } else {
                OpeningView::Pausing(port)
            },
            (OpeningView::Pausing(port), TunnelEventView::Paused) => OpeningView::Connecting(port),
            (OpeningView::Closing(error), TunnelEventView::Closed) => OpeningView::Refused(error),
            _ => self,
        }
    }

    /// Whether `ssh` runs.
    pub open spec fn runs_ssh(self) -> bool {
        match self {
            OpeningView::Reserving | OpeningView::Spawning(_) | OpeningView::Refused(_) => false,
            _ => true,
        }
    }
}

impl Opening {
    /// Where an event leads. One that does not belong here changes nothing.
    pub fn advance(self, event: TunnelEvent) -> (next: Opening)
        ensures
            next@ == self@.after(event@),
    {
        match (self, event) {
            (Opening::Reserving, TunnelEvent::Reserved(Ok(port))) => Opening::Spawning(port),
            (Opening::Reserving, TunnelEvent::Reserved(Err(error))) => Opening::Refused(error),
            (Opening::Spawning(port), TunnelEvent::Spawned(Ok(_))) => Opening::Connecting(port),
            (Opening::Spawning(_), TunnelEvent::Spawned(Err(error))) => Opening::Refused(error),
            (Opening::Connecting(port), TunnelEvent::Tried(accepted)) => if accepted {
                Opening::Opened(port)
            } else {
                Opening::CheckingExit(port)
            },
            (Opening::CheckingExit(_), TunnelEvent::Exited(Some(said))) => {
                Opening::Closing(cannot_open(exit_diagnostic(said.as_str())))
            },
            (Opening::CheckingExit(port), TunnelEvent::Exited(None)) => Opening::CheckingClock(port),
            (Opening::CheckingClock(port), TunnelEvent::Clocked(waited)) => if is_late(
                waited,
            ) {
                let local: String = local_address(port);
                let seconds: String = number::decimal(LISTEN_TIMEOUT_SECS);
                let message: String = text::concat5(
                    "the forward did not start accepting on ",
                    local.as_str(),
                    " within ",
                    seconds.as_str(),
                    "s",
                );
                Opening::Closing(cannot_open(message))
            } else {
                Opening::Pausing(port)
            },
            (Opening::Pausing(port), TunnelEvent::Paused) => Opening::Connecting(port),
            (Opening::Closing(error), TunnelEvent::Closed) => Opening::Refused(error),
            (state, _) => state,
        }
    }
}

/// No `ssh` is left behind for a forward that the caller is never handed: once
/// it runs, an attempt fails only after it has been ended, and is handed over
/// only while it runs.
pub proof fn a_refused_forward_leaves_nothing_behind(state: OpeningView, event: TunnelEventView)
    ensures
        state.runs_ssh() && !state.after(event).runs_ssh() ==> event == TunnelEventView::Closed,
        state.after(event) is Refused && !(state is Refused) && state.runs_ssh()
            ==> state is Closing,
        state.after(event) is Opened ==> state.after(event).runs_ssh(),
{
}

/// An opened forward stays open and a refused one stays refused, whatever
/// happens.
pub proof fn an_opening_ends_once(state: OpeningView, event: TunnelEventView)
    requires
        state is Opened || state is Refused,
    ensures
        state.after(event) == state,
{
}

/// A forward is given up for its slowness at ten seconds, and not before.
pub proof fn a_forward_has_ten_seconds(port: u16, waited: u64)
    ensures
        ({
            let next = OpeningView::CheckingClock(port).after(TunnelEventView::Clocked(waited));
            if waited < 10_000 {
                next == OpeningView::Pausing(port)
            } else {
                next == OpeningView::Closing(not_open(late_text(port)))
            }
        }),
        LISTEN_TIMEOUT_SECS == 10,
{
}

/// A forward is opened only because something accepted at its local port.
pub proof fn an_opened_forward_accepts(state: OpeningView, event: TunnelEventView, port: u16)
    requires
        !(state is Opened),
        state.after(event) == OpeningView::Opened(port),
    ensures
        state == OpeningView::Connecting(port),
        event == TunnelEventView::Tried(true),
{
}

/// A tunnel listens on the loopback interface only, and nothing follows its
/// destination.
pub proof fn a_tunnel_listens_locally(target: SshTargetView, local_port: u16, remote: EndpointView)
    ensures
        ({
            let argv = tunnel_argv(target, local_port, remote);
            &&& argv.last() == target.destination
            &&& argv[argv.len() - 3] == "-L"@
            &&& "127.0.0.1:"@.is_prefix_of(argv[argv.len() - 2])
        }),
{
    let carried = forward_text(local_port, remote);
    assert(carried.take("127.0.0.1:"@.len() as int) =~= "127.0.0.1:"@);
}

/// The command line of a tunnel, word by word. The port to connect to is given
/// where there is one.
pub proof fn a_tunnel_command_line_is_known(
    target: SshTargetView,
    local_port: u16,
    remote: EndpointView,
)
    ensures
        ({
            let carried = "127.0.0.1:"@ + number::decimal_text(local_port as nat) + ":"@
                + remote.ip + ":"@ + number::decimal_text(remote.port as nat);
            let rest = seq![
                "-N"@,
                "-o"@,
                "ExitOnForwardFailure=yes"@,
                "-o"@,
                "ServerAliveInterval=15"@,
                "-L"@,
                carried,
                target.destination,
            ];
            &&& target.port is None ==> tunnel_argv(target, local_port, remote) == seq![
                "ssh"@,
                "-o"@,
                "BatchMode=yes"@,
            ] + rest
            &&& target.port matches Some(port) ==> tunnel_argv(target, local_port, remote) == seq![
                "ssh"@,
                "-o"@,
                "BatchMode=yes"@,
                "-p"@,
                number::decimal_text(port as nat),
            ] + rest
        }),
{
    let carried = "127.0.0.1:"@ + number::decimal_text(local_port as nat) + ":"@ + remote.ip
        + ":"@ + number::decimal_text(remote.port as nat);
    let rest = seq![
        "-N"@,
        "-o"@,
        "ExitOnForwardFailure=yes"@,
        "-o"@,
        "ServerAliveInterval=15"@,
        "-L"@,
        carried,
        target.destination,
    ];
    assert(forward_text(local_port, remote) == carried);
    match target.port {
        None => {
            assert(tunnel_argv(target, local_port, remote) =~= seq![
                "ssh"@,
                "-o"@,
                "BatchMode=yes"@,
            ] + rest);
        },
        Some(port) => {
            assert(tunnel_argv(target, local_port, remote) =~= seq![
                "ssh"@,
                "-o"@,
                "BatchMode=yes"@,
                "-p"@,
                number::decimal_text(port as nat),
            ] + rest);
        },
    }
}

/// What `ssh` said is reported without the white space around it, and silence
/// has a description of its own.
pub proof fn silence_is_described(lead: Seq<char>, inside: Seq<char>, trail: Seq<char>)
    requires
        forall|i: int| 0 <= i < lead.len() ==> text::is_space(#[trigger] lead[i]),
        forall|i: int| 0 <= i < trail.len() ==> text::is_space(#[trigger] trail[i]),
        inside.len() > 0 ==> !text::is_space(inside[0]) && !text::is_space(inside.last()),
    ensures
        inside.len() > 0 ==> diagnostic(lead + inside + trail) == inside,
        inside.len() == 0 ==> diagnostic(lead + inside + trail)
            == "ssh exited before the forward was established"@,
{
    text::trimming_keeps_what_is_inside(lead, inside, trail);
}

/// Opening a forward, event by event: a port, `ssh`, and then attempts to
/// connect, each followed by a look at `ssh`, a look at the clock and a pause,
/// until something accepts, `ssh` exits or time is up.
pub proof fn an_opening_goes_event_by_event(
    port: u16,
    error: ErrorView,
    said: Seq<char>,
    waited: u64,
)
    ensures
        OpeningView::Reserving.after(TunnelEventView::Reserved(Ok(port)))
            == OpeningView::Spawning(port),
        OpeningView::Reserving.after(TunnelEventView::Reserved(Err(error)))
            == OpeningView::Refused(error),
        OpeningView::Spawning(port).after(TunnelEventView::Spawned(Ok(())))
            == OpeningView::Connecting(port),
        OpeningView::Spawning(port).after(TunnelEventView::Spawned(Err(error)))
            == OpeningView::Refused(error),
        OpeningView::Connecting(port).after(TunnelEventView::Tried(true)) == OpeningView::Opened(
            port,
        ),
        OpeningView::Connecting(port).after(TunnelEventView::Tried(false))
            == OpeningView::CheckingExit(port),
        OpeningView::CheckingExit(port).after(TunnelEventView::Exited(None))
            == OpeningView::CheckingClock(port),
        OpeningView::CheckingExit(port).after(TunnelEventView::Exited(Some(said)))
            == OpeningView::Closing(
            ErrorView::Backend {
                sandbox: "ssh"@,
                operation: "open a port forward"@,
                message: diagnostic(said),
            },
        ),
        waited < 10_000 ==> OpeningView::CheckingClock(port).after(
            TunnelEventView::Clocked(waited),
        ) == OpeningView::Pausing(port),
        waited >= 10_000 ==> OpeningView::CheckingClock(port).after(
            TunnelEventView::Clocked(waited),
        ) == OpeningView::Closing(
            ErrorView::Backend {
                sandbox: "ssh"@,
                operation: "open a port forward"@,
                message: "the forward did not start accepting on "@ + ("127.0.0.1:"@
                    + number::decimal_text(port as nat)) + " within "@ + number::decimal_text(10)
                    + "s"@,
            },
        ),
        OpeningView::Pausing(port).after(TunnelEventView::Paused) == OpeningView::Connecting(port),
        OpeningView::Closing(error).after(TunnelEventView::Closed) == OpeningView::Refused(error),
{
}

/// States and events read as their parts do.
pub proof fn an_opening_reads_as_its_parts(opening: Opening, event: TunnelEvent)
    ensures
        opening is Reserving ==> opening@ is Reserving,
        opening matches Opening::Spawning(port) ==> opening@ == OpeningView::Spawning(port),
        opening matches Opening::Connecting(port) ==> opening@ == OpeningView::Connecting(port),
        opening matches Opening::CheckingExit(port) ==> opening@ == OpeningView::CheckingExit(port),
        opening matches Opening::CheckingClock(port) ==> opening@ == OpeningView::CheckingClock(
            port,
        ),
        opening matches Opening::Pausing(port) ==> opening@ == OpeningView::Pausing(port),
        opening matches Opening::Closing(error) ==> opening@ == OpeningView::Closing(error@),
        opening matches Opening::Opened(port) ==> opening@ == OpeningView::Opened(port),
        opening matches Opening::Refused(error) ==> opening@ == OpeningView::Refused(error@),
        event matches TunnelEvent::Reserved(Ok(port)) ==> event@ == TunnelEventView::Reserved(
            Ok(port),
        ),
        event matches TunnelEvent::Reserved(Err(error)) ==> event@ == TunnelEventView::Reserved(
            Err(error@),
        ),
        event matches TunnelEvent::Spawned(Err(error)) ==> event@ == TunnelEventView::Spawned(
            Err(error@),
        ),
        event matches TunnelEvent::Spawned(Ok(_)) ==> event@ is Spawned && event@->Spawned_0 is Ok,
        event matches TunnelEvent::Tried(accepted) ==> event@ == TunnelEventView::Tried(accepted),
        event matches TunnelEvent::Exited(Some(said)) ==> event@ == TunnelEventView::Exited(
            Some(said@),
        ),
        event matches TunnelEvent::Exited(None) ==> event@ == TunnelEventView::Exited(None),
        event matches TunnelEvent::Clocked(waited) ==> event@ == TunnelEventView::Clocked(waited),
        event is Paused ==> event@ is Paused,
        event is Closed ==> event@ is Closed,
{
}

} // verus!
