//! Reaching machines: command lines, quoting, and port forwards.

use tinybox::capability::Capability;
use tinybox::error::Error;
use tinybox::forward::{
    exit_diagnostic, is_late, tunnel_command, Endpoint, Opening, TunnelEvent,
};
use tinybox::local;
use tinybox::local::LocalHost;
use tinybox::ordered::OrderedMap;
use tinybox::runtime::{ExecRequest, Host};
use tinybox::shell::{command_line, quote, remote_command};
use tinybox::ssh::{SshHost, SshTarget};

fn texts(list: &[&str]) -> Vec<String> {
    list.iter().map(|text| (*text).to_owned()).collect()
}

/// A destination in a reserved TLD, so no test can reach a real machine.
fn target() -> Result<SshTarget, Error> {
    SshTarget::new("builder@example.invalid")
}

#[test]
fn it_reports_its_name() {
    assert_eq!(LocalHost::new().name(), "local");
    assert_eq!(LocalHost.name(), local::NAME);
}

#[test]
fn a_command_with_no_program_is_refused_before_spawning() {
    let empty: Vec<String> = Vec::new();

    assert_eq!(
        LocalHost::new().prepare(&ExecRequest::new(empty)).err(),
        Some(Error::EmptyCommand {
            sandbox: local::NAME.to_owned()
        })
    );
}

#[test]
fn arguments_are_passed_through_without_shell_interpretation() -> Result<(), Error> {
    let spawn = LocalHost::new().prepare(&ExecRequest::new(texts(&["echo", "a b*c;d $HOME"])))?;

    assert_eq!(spawn.program, "echo");
    assert_eq!(spawn.args, ["a b*c;d $HOME"]);
    Ok(())
}

#[test]
fn it_runs_in_the_requested_directory() -> Result<(), Error> {
    let spawn = LocalHost::new()
        .prepare(&ExecRequest::new(texts(&["pwd"])).with_cwd("/srv/work".to_owned()))?;

    assert_eq!(spawn.cwd.as_deref(), Some("/srv/work"));
    Ok(())
}

#[test]
fn requested_variables_reach_the_child() -> Result<(), Error> {
    let spawn = LocalHost::new().prepare(
        &ExecRequest::new(texts(&["sh", "-c", "printf %s \"$TINYBOX_TEST\""]))
            .with_env("TINYBOX_TEST".to_owned(), "set-by-request".to_owned()),
    )?;

    assert_eq!(
        spawn.env.get("TINYBOX_TEST"),
        Some(&"set-by-request".to_owned())
    );
    Ok(())
}

#[test]
fn a_child_reading_stdin_does_not_hang() -> Result<(), Error> {
    // The child is given nothing to read, whatever the request holds.
    let spawn = LocalHost::new().prepare(&ExecRequest::new(texts(&["cat"])))?;
    assert_eq!(spawn.stdin, None);

    let fed = LocalHost::new()
        .prepare(&ExecRequest::new(texts(&["cat"])).with_stdin(vec![1, 2, 3]))?;
    assert_eq!(fed.stdin, None);
    Ok(())
}

#[test]
fn a_signal_terminated_process_reports_an_unmistakable_code() {
    let output = LocalHost::collect(None, Vec::new(), Vec::new());

    assert!(!output.succeeded());
    assert!(output.exit_code >= 128);
}

#[test]
fn stderr_is_captured_separately_from_stdout() {
    let output = LocalHost::collect(Some(3), b"out\n".to_vec(), b"err\n".to_vec());

    assert_eq!(output.exit_code, 3);
    assert_eq!(output.stdout_lossy().trim(), "out");
    assert_eq!(output.stderr_lossy().trim(), "err");
}

#[test]
fn output_that_is_not_text_is_read_all_the_same() {
    let output = LocalHost::collect(Some(0), vec![b'a', 0xff, b'b'], "é".as_bytes().to_vec());

    assert!(output.succeeded());
    assert_eq!(output.stdout_lossy(), "a\u{fffd}b");
    assert_eq!(output.stderr_lossy(), "é");
}

#[test]
fn quoting_closes_escapes_and_reopens() {
    assert_eq!(quote("it's"), "'it'\\''s'");
    assert_eq!(quote(""), "''");
    assert_eq!(quote("$HOME `id` \\ *"), "'$HOME `id` \\ *'");
    assert_eq!(
        command_line(&texts(&["/opt/my tools/run", "a b", ""])),
        "'/opt/my tools/run' 'a b' ''"
    );
}

#[test]
fn a_remote_command_enters_sets_and_runs() {
    let mut env: OrderedMap<String> = OrderedMap::new();
    env.insert("B".to_owned(), "2".to_owned());
    env.insert("A".to_owned(), "it's".to_owned());

    assert_eq!(
        remote_command(&texts(&["make", "all"]), &Some("/srv/my work".to_owned()), &env),
        "cd '/srv/my work' && env 'A=it'\\''s' 'B=2' 'make' 'all'"
    );
    assert_eq!(
        remote_command(&texts(&["true"]), &None, &OrderedMap::new()),
        "'true'"
    );
}

#[test]
fn a_far_command_is_one_argument_of_ssh() -> Result<(), Error> {
    let host = SshHost::new(LocalHost::new(), target()?.with_port(2222));
    assert_eq!(host.name(), "ssh");
    assert_eq!(host.target().destination(), "builder@example.invalid");

    let request = ExecRequest::new(texts(&["echo", "a b"])).with_stdin(vec![7]);
    let spawn = host.prepare(&request)?;

    assert_eq!(spawn.program, "ssh");
    assert_eq!(
        spawn.args,
        [
            "-o",
            "BatchMode=yes",
            "-p",
            "2222",
            "builder@example.invalid",
            "--",
            "'echo' 'a b'",
        ]
    );
    assert_eq!(spawn.stdin, None);
    assert!(spawn.env.is_empty());
    assert_eq!(spawn.cwd, None);
    Ok(())
}

#[test]
fn a_payload_is_handed_to_the_host_that_runs_ssh() -> Result<(), Error> {
    let host = SshHost::new(LocalHost::new(), target()?);

    let forwarded = host.forwarded(
        &ExecRequest::new(texts(&["cat"]))
            .with_cwd("/srv".to_owned())
            .with_stdin(vec![7]),
    )?;

    assert_eq!(forwarded.argv[0], "ssh");
    assert_eq!(
        forwarded.argv.last().map(String::as_str),
        Some("cd '/srv' && 'cat'")
    );
    assert_eq!(forwarded.stdin, Some(vec![7]));
    assert_eq!(forwarded.cwd, None);
    Ok(())
}

#[test]
fn a_copied_host_reaches_the_same_machine() -> Result<(), Error> {
    let host = SshHost::new(LocalHost::new(), target()?.with_port(2222));
    let request = ExecRequest::new(texts(&["true"]));

    let copy = host.clone();

    assert_eq!(copy.target(), host.target());
    assert_eq!(copy.prepare(&request), host.prepare(&request));
    Ok(())
}

#[test]
fn hosts_compose_into_a_jump_box() -> Result<(), Error> {
    let jump = SshHost::new(LocalHost::new(), SshTarget::new("jump.example.invalid")?);
    let far = SshHost::new(jump, target()?);

    let spawn = far.prepare(&ExecRequest::new(texts(&["true"])))?;

    assert_eq!(
        spawn.args,
        [
            "-o",
            "BatchMode=yes",
            "jump.example.invalid",
            "--",
            "'ssh' '-o' 'BatchMode=yes' 'builder@example.invalid' '--' ''\\''true'\\'''",
        ]
    );
    Ok(())
}

#[test]
fn a_far_command_needs_a_program() -> Result<(), Error> {
    let host = SshHost::new(LocalHost::new(), target()?);

    assert_eq!(
        host.prepare(&ExecRequest::new(Vec::new())).err(),
        Some(Error::EmptyCommand {
            sandbox: "ssh".to_owned()
        })
    );
    Ok(())
}

#[test]
fn a_destination_cannot_be_an_option() {
    for refused in ["", "-oProxyCommand=true"] {
        assert_eq!(
            SshTarget::new(refused).err(),
            Some(Error::InvalidIdentifier {
                kind: "ssh destination",
                value: refused.to_owned(),
            })
        );
    }
}

#[test]
fn the_tunnel_carries_only_the_forward() -> Result<(), Error> {
    let argv = tunnel_command(
        &target()?,
        54321,
        &Endpoint::new("10.0.0.5".to_owned(), 7788),
    );

    // No remote command: a login shell on the far side is one more thing that
    // can fail, and this connection has no use for one.
    assert!(argv.contains(&"-N".to_owned()), "{argv:?}");
    // Without this, a refused forward leaves `ssh` connected and idle, which
    // looks exactly like success until the first connection attempt.
    assert!(
        argv.contains(&"ExitOnForwardFailure=yes".to_owned()),
        "{argv:?}"
    );
    // The local side is loopback-only: a forward reachable from the network
    // would republish the far machine's port to anyone who can reach this one.
    let spec = argv
        .iter()
        .position(|part| part == "-L")
        .map(|at| &argv[at + 1]);
    assert_eq!(
        spec.map(String::as_str),
        Some("127.0.0.1:54321:10.0.0.5:7788")
    );
    // The destination is last, so nothing after it can be read as a flag.
    assert_eq!(
        argv.last().map(String::as_str),
        Some("builder@example.invalid")
    );
    Ok(())
}

#[test]
fn the_tunnel_inherits_the_targets_connection_settings() -> Result<(), Error> {
    // A forward that ignored `--ssh-port` or `BatchMode` would behave
    // differently from every other command against the same target.
    let argv = tunnel_command(
        &target()?.with_port(2222),
        1,
        &Endpoint::new("127.0.0.1".to_owned(), 2),
    );

    assert!(argv.contains(&"BatchMode=yes".to_owned()), "{argv:?}");
    assert!(argv.contains(&"2222".to_owned()), "{argv:?}");
    Ok(())
}

#[test]
fn a_silent_exit_still_says_something() {
    // An error with no message is the least useful thing this could report.
    assert_eq!(
        exit_diagnostic(""),
        "ssh exited before the forward was established"
    );
    assert_eq!(
        exit_diagnostic(" \t\n"),
        "ssh exited before the forward was established"
    );
    assert_eq!(exit_diagnostic("  refused by peer \n"), "refused by peer");
}

/// Follow events from the start.
fn opened(events: Vec<TunnelEvent>) -> Opening {
    let mut state = Opening::Reserving;
    for event in events {
        state = state.advance(event);
    }
    state
}

#[test]
fn waiting_resolves_as_soon_as_something_accepts() {
    assert_eq!(
        opened(vec![
            TunnelEvent::Reserved(Ok(4000)),
            TunnelEvent::Spawned(Ok(())),
            TunnelEvent::Tried(false),
            TunnelEvent::Exited(None),
            TunnelEvent::Clocked(9_999),
            TunnelEvent::Paused,
            TunnelEvent::Tried(true),
        ]),
        Opening::Opened(4000)
    );
}

#[test]
fn a_tunnel_that_dies_is_reported_with_its_own_diagnostic() {
    // Waiting out the full timeout for a process that has already exited would
    // turn a rejected key into a ten-second hang and then a message saying
    // nothing about why.
    let failed = opened(vec![
        TunnelEvent::Reserved(Ok(4000)),
        TunnelEvent::Spawned(Ok(())),
        TunnelEvent::Tried(false),
        TunnelEvent::Exited(Some("Permission denied\n".to_owned())),
    ]);
    let error = Error::Backend {
        sandbox: "ssh".to_owned(),
        operation: "open a port forward",
        message: "Permission denied".to_owned(),
    };

    assert_eq!(failed, Opening::Closing(error.clone()));
    assert_eq!(
        failed.advance(TunnelEvent::Closed),
        Opening::Refused(error)
    );
}

#[test]
fn a_tunnel_that_never_accepts_is_given_up() {
    assert_eq!(
        opened(vec![
            TunnelEvent::Reserved(Ok(4000)),
            TunnelEvent::Spawned(Ok(())),
            TunnelEvent::Tried(false),
            TunnelEvent::Exited(None),
            TunnelEvent::Clocked(10_000),
        ]),
        Opening::Closing(Error::Backend {
            sandbox: "ssh".to_owned(),
            operation: "open a port forward",
            message: "the forward did not start accepting on 127.0.0.1:4000 within 10s".to_owned(),
        })
    );
}

#[test]
fn a_missing_program_is_reported_rather_than_silently_absent() {
    let error = Error::io("spawn ssh for a port forward", "no such file");

    assert_eq!(
        opened(vec![
            TunnelEvent::Reserved(Ok(4000)),
            TunnelEvent::Spawned(Err(error.clone())),
        ]),
        Opening::Refused(error)
    );
    let unbound = Error::io("bind a local port", "denied");
    assert_eq!(
        opened(vec![TunnelEvent::Reserved(Err(unbound.clone()))]),
        Opening::Refused(unbound)
    );
}

#[test]
fn an_event_out_of_turn_changes_nothing() {
    assert_eq!(
        opened(vec![TunnelEvent::Tried(true), TunnelEvent::Closed]),
        Opening::Reserving
    );
}

#[test]
fn a_chained_host_refuses_rather_than_tunnelling_from_the_wrong_machine() -> Result<(), Error> {
    // Every other operation composes, because it is a command line the inner
    // host runs. A tunnel is a process that has to keep running, so opening it
    // here would put it on this machine and report an address leading nowhere.
    let jump = SshHost::new(LocalHost::new(), target()?);
    let chained = SshHost::new(jump, target()?);

    assert_eq!(
        chained.forward().err(),
        Some(Error::Unsupported {
            sandbox: "ssh".to_owned(),
            capability: Capability::PortForward,
        })
    );

    let direct = SshHost::new(LocalHost::new(), target()?);
    assert_eq!(direct.forward(), Ok(Opening::Reserving));
    Ok(())
}

#[test]
fn an_opening_ends_once() {
    let mut state = Opening::Opened(4000);
    for event in [
        TunnelEvent::Tried(false),
        TunnelEvent::Exited(Some(String::new())),
        TunnelEvent::Closed,
    ] {
        state = state.advance(event);
        assert_eq!(state, Opening::Opened(4000));
    }
}

#[test]
fn ten_seconds_are_too_long() {
    assert!(!is_late(0));
    assert!(!is_late(9_999));
    assert!(is_late(10_000));
    assert!(is_late(u64::MAX));
}
