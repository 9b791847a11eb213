//! Commands, driven to their end.
//!
//! Every case has a world of its own: records in memory, a host that answers
//! from a queue, and streams that can be closed.

use std::collections::VecDeque;

use tinybox::backend::Backend;
use tinybox::box_spec::{BoxSpec, Placement, WorkspaceSource};
use tinybox::command::{
    conclude, exit_code, run, workspace, Action, Cli, Command, Origin, Running, Wanted,
    EXIT_TINYBOX_ERROR,
};
use tinybox::conversation::{Effect, Progress, Reply, StoreOp};
use tinybox::docker::DockerSandbox;
use tinybox::error::Error;
use tinybox::file_store::{Document, FileProgress, FileReply, FileStore};
use tinybox::identity::{BoxId, HostRef, SandboxRef, SnapshotId};
use tinybox::passthrough::PassthroughSandbox;
use tinybox::runtime::{BoxInfo, BoxState, ExecOutput, ExecRequest, Sandbox};
use tinybox::store::MemoryStore;

/// Everything outside the library.
struct World {
    store: MemoryStore,
    outputs: VecDeque<Result<ExecOutput, Error>>,
    seen: Vec<ExecRequest>,
    out_is_closed: bool,
    err_is_closed: bool,
}

/// What one invocation produced.
struct Invocation {
    code: u8,
    out: String,
    err: String,
}

impl World {
    fn new() -> World {
        World {
            store: MemoryStore::new(),
            outputs: VecDeque::new(),
            seen: Vec::new(),
            out_is_closed: false,
            err_is_closed: false,
        }
    }

    /// The next command exits with `code` and says this.
    fn push(&mut self, code: i32, stdout: &str, stderr: &str) {
        self.outputs.push_back(Ok(ExecOutput::new(
            code,
            stdout.as_bytes().to_vec(),
            stderr.as_bytes().to_vec(),
        )));
    }

    fn push_ok(&mut self, stdout: &str) {
        self.push(0, stdout, "");
    }

    fn commands(&self) -> Vec<Vec<String>> {
        self.seen.iter().map(|request| request.argv.clone()).collect()
    }

    fn last(&self) -> Vec<String> {
        self.commands().last().cloned().unwrap_or_default()
    }

    fn perform(&mut self, effect: Effect, out: &mut Vec<u8>, err: &mut Vec<u8>) -> Reply {
        match effect {
            Effect::WorkingDirectory => Reply::WorkingDirectory(Ok("/here".to_owned())),
            Effect::Store(op) => self.store.perform(&op),
            Effect::Run(request) => {
                self.seen.push(request);
                Reply::Ran(
                    self.outputs
                        .pop_front()
                        .unwrap_or_else(|| Ok(ExecOutput::new(0, Vec::new(), Vec::new()))),
                )
            }
            Effect::WriteOut(bytes) => {
                if self.out_is_closed {
                    return Reply::Wrote(Err(Error::io("write", "broken pipe")));
                }
                out.extend(bytes);
                Reply::Wrote(Ok(()))
            }
            Effect::WriteErr(bytes) => {
                if self.err_is_closed {
                    return Reply::Wrote(Err(Error::io("write", "broken pipe")));
                }
                err.extend(bytes);
                Reply::Wrote(Ok(()))
            }
        }
    }

    fn invoke_in(&mut self, namespace: &str, command: Command) -> Invocation {
        let cli = Cli {
            store: None,
            namespace: namespace.to_owned(),
            command,
        };
        let mut replies = Vec::new();
        let mut out = Vec::new();
        let mut err = Vec::new();
        loop {
            match run(&cli, &replies) {
                Running::Ask(effect) => {
                    let reply = self.perform(effect, &mut out, &mut err);
                    replies.push(reply);
                }
                Running::Exit(code, said) => {
                    if let Some(said) = said {
                        err.extend(said.as_bytes());
                    }
                    return Invocation {
                        code,
                        out: String::from_utf8_lossy(&out).into_owned(),
                        err: String::from_utf8_lossy(&err).into_owned(),
                    };
                }
            }
        }
    }

    fn invoke(&mut self, command: Command) -> Invocation {
        self.invoke_in("default", command)
    }
}

fn texts(list: &[&str]) -> Vec<String> {
    list.iter().map(|text| (*text).to_owned()).collect()
}

/// A directory box.
fn over(dir: &str) -> Wanted {
    Wanted {
        sandbox: "passthrough".to_owned(),
        origin: Origin::Dir(dir.to_owned()),
        env: Vec::new(),
    }
}

/// A container box.
fn from_image(image: &str) -> Wanted {
    Wanted {
        sandbox: "docker".to_owned(),
        origin: Origin::Image(image.to_owned()),
        env: Vec::new(),
    }
}

fn exec(id: &str, argv: &[&str]) -> Command {
    Command::Exec {
        id: id.to_owned(),
        argv: texts(argv),
    }
}

fn inspect(id: &str) -> Command {
    Command::Inspect { id: id.to_owned() }
}

fn rm(id: &str) -> Command {
    Command::Rm { id: id.to_owned() }
}

fn snapshot(id: &str) -> Command {
    Command::Snapshot { id: id.to_owned() }
}

#[test]
fn a_box_can_be_created_used_and_removed() {
    let mut world = World::new();

    let created = world.invoke(Command::Create(over("/tmp")));
    assert_eq!(created.code, 0);
    assert_eq!(created.out.trim(), "box-0");

    let listed = world.invoke(Command::Ls);
    assert_eq!(listed.code, 0);
    assert!(listed.out.contains("box-0"));
    assert!(listed.out.contains("ready"));
    assert!(listed.out.contains("/tmp"));

    let removed = world.invoke(rm("box-0"));
    assert_eq!(removed.code, 0);

    assert!(world.invoke(Command::Ls).out.is_empty());
}

#[test]
fn creating_a_box_warns_that_it_is_not_isolated() {
    let created = World::new().invoke(Command::Create(over("/tmp")));

    // A reader who never runs `inspect` still has to be told what they made.
    assert!(created.err.contains("not isolated"));
    assert_eq!(
        created.err,
        "warning: passthrough boxes are not isolated; commands run with your full privileges\n"
    );
    // The warning goes to stderr so that `create` remains pipeable.
    assert_eq!(created.out.trim(), "box-0");
}

#[test]
fn a_box_persists_between_invocations() {
    let mut world = World::new();
    world.invoke(Command::Create(over("/tmp")));

    world.push_ok("hello\n");
    let executed = world.invoke(exec("box-0", &["echo", "hello"]));

    assert_eq!(executed.code, 0);
    assert_eq!(executed.out.trim(), "hello");
    assert_eq!(world.last(), ["echo", "hello"]);
}

#[test]
fn a_command_runs_in_the_box_workspace() {
    let mut world = World::new();
    world.invoke(Command::Create(over("/srv/work")));

    world.invoke(exec("box-0", &["pwd"]));

    assert_eq!(world.seen[0].cwd.as_deref(), Some("/srv/work"));
}

#[test]
fn box_environment_reaches_the_command() {
    let mut world = World::new();
    let mut wanted = over("/tmp");
    wanted.env = texts(&["GREETING=hi"]);
    world.invoke(Command::Create(wanted));

    world.push_ok("hi");
    let executed = world.invoke(exec("box-0", &["sh", "-c", "printf %s \"$GREETING\""]));

    assert_eq!(executed.out, "hi");
    assert_eq!(world.seen[0].env.get("GREETING"), Some(&"hi".to_owned()));
}

#[test]
fn a_failing_command_sets_the_exit_code_without_being_an_error() {
    let mut world = World::new();
    world.invoke(Command::Create(over("/tmp")));

    world.push(7, "", "");
    let executed = world.invoke(exec("box-0", &["sh", "-c", "exit 7"]));

    // The command failed; tinybox did not. That distinction is what the
    // dedicated tinybox exit code exists to preserve.
    assert_eq!(executed.code, 7);
    assert!(!executed.err.contains("error:"));
}

#[test]
fn stderr_from_the_command_is_kept_separate() {
    let mut world = World::new();
    world.invoke(Command::Create(over("/tmp")));

    world.push(0, "out\n", "err\n");
    let executed = world.invoke(exec("box-0", &["sh", "-c", "echo out; echo err >&2"]));

    assert_eq!(executed.out.trim(), "out");
    assert_eq!(executed.err.trim(), "err");
}

#[test]
fn run_creates_uses_and_destroys_a_box_in_one_step() {
    let mut world = World::new();

    world.push_ok("once\n");
    let executed = world.invoke(Command::Run {
        wanted: over("/tmp"),
        argv: texts(&["echo", "once"]),
    });

    assert_eq!(executed.code, 0);
    assert_eq!(executed.out.trim(), "once");
    // Nothing is left behind.
    assert!(world.invoke(Command::Ls).out.is_empty());
}

#[test]
fn run_leaves_nothing_behind_when_the_command_fails() {
    let mut world = World::new();

    world.push(3, "", "");
    let executed = world.invoke(Command::Run {
        wanted: over("/tmp"),
        argv: texts(&["sh", "-c", "exit 3"]),
    });

    assert_eq!(executed.code, 3);
    // A failing command must not leak a box; the cleanup is unconditional.
    assert!(world.invoke(Command::Ls).out.is_empty());
}

#[test]
fn run_reports_a_command_that_cannot_start_and_still_cleans_up() {
    let mut world = World::new();

    world
        .outputs
        .push_back(Err(Error::io("spawn", "No such file or directory")));
    let executed = world.invoke(Command::Run {
        wanted: over("/tmp"),
        argv: texts(&["tinybox-no-such-program"]),
    });

    assert_eq!(executed.code, EXIT_TINYBOX_ERROR);
    assert!(executed.err.contains("error:"));
    assert!(world.invoke(Command::Ls).out.is_empty());
}

#[test]
fn inspect_says_plainly_that_the_box_is_unsafe() {
    let mut world = World::new();
    world.invoke(Command::Create(over("/tmp")));

    let inspected = world.invoke(inspect("box-0"));

    assert_eq!(inspected.code, 0);
    assert!(inspected.out.contains("isolation:  none"));
    assert!(inspected.out.contains("UNSAFE"));
    assert!(inspected.out.contains("runner:     local / passthrough"));
    assert_eq!(
        inspected.out,
        "id:         box-0\n\
         sandbox:    passthrough\n\
         state:      ready\n\
         workspace:  /tmp\n\
         runner:     local / passthrough\n\
         isolation:  none\n\
         untrusted:  UNSAFE — this sandbox confines nothing\n\
         supports:   nothing beyond running commands\n"
    );
}

#[test]
fn an_unknown_box_is_an_error_not_a_silent_success() {
    let mut world = World::new();

    for command in [exec("box-9", &["true"]), inspect("box-9"), rm("box-9")] {
        let outcome = world.invoke(command);
        assert_eq!(outcome.code, EXIT_TINYBOX_ERROR);
        assert!(outcome.err.contains("no box with id box-9"));
    }
}

#[test]
fn an_invalid_identifier_is_refused_before_it_reaches_the_store() {
    let outcome = World::new().invoke(inspect("../escape"));

    assert_eq!(outcome.code, EXIT_TINYBOX_ERROR);
    assert!(outcome.err.contains("not a valid box id"));
    assert_eq!(
        outcome.err,
        "error: identifier \"../escape\" is not a valid box id\n"
    );
}

#[test]
fn a_malformed_environment_entry_is_rejected() {
    let mut world = World::new();
    let mut wanted = over("/tmp");
    wanted.env = texts(&["NO_EQUALS"]);

    let outcome = world.invoke(Command::Create(wanted));

    assert_eq!(outcome.code, EXIT_TINYBOX_ERROR);
    assert!(outcome.err.contains("KEY=VALUE"));
    assert!(world.invoke(Command::Ls).out.is_empty());
}

#[test]
fn an_environment_entry_is_split_at_its_first_equals_sign() {
    let mut world = World::new();
    let mut wanted = over("/tmp");
    wanted.env = texts(&["A=1=2", "B=", "A=3"]);
    world.invoke(Command::Create(wanted));

    world.invoke(exec("box-0", &["true"]));

    let env = &world.seen[0].env;
    assert_eq!(env.len(), 2);
    assert_eq!(env.get("A"), Some(&"3".to_owned()));
    assert_eq!(env.get("B"), Some(&String::new()));
}

#[test]
fn boxes_are_numbered_across_invocations() {
    let mut world = World::new();

    assert_eq!(
        world.invoke(Command::Create(over("/tmp"))).out.trim(),
        "box-0"
    );
    assert_eq!(
        world.invoke(Command::Create(over("/tmp"))).out.trim(),
        "box-1"
    );
}

#[test]
fn an_exit_status_outside_a_byte_becomes_the_tinybox_error_code() {
    assert_eq!(exit_code(0), 0);
    assert_eq!(exit_code(7), 7);
    assert_eq!(exit_code(255), 255);
    // Reporting 0 for an unrepresentable status would turn a failure into a
    // success, so it maps to the tinybox error code instead.
    assert_eq!(exit_code(256), EXIT_TINYBOX_ERROR);
    assert_eq!(exit_code(-1), EXIT_TINYBOX_ERROR);
}

#[test]
fn a_corrupt_store_is_reported_rather_than_ignored() {
    let store = FileStore::new("/state/boxes.json".to_owned());
    let read = vec![FileReply::Read(Document::Malformed(
        "key must be a string at line 1 column 3".to_owned(),
    ))];
    let cli = Cli {
        store: None,
        namespace: "default".to_owned(),
        command: Command::Ls,
    };

    let mut replies = Vec::new();
    match store.perform(&StoreOp::List, &read) {
        FileProgress::Done(reply) => replies.push(reply),
        FileProgress::Ask(effect) => panic!("asked for {effect:?}"),
    }
    match cli.dispatch(&replies) {
        Action::Finish(result) => {
            let (code, said) = conclude(result);
            assert_eq!(code, EXIT_TINYBOX_ERROR);
            assert!(said.is_some_and(|said| said.contains("not a valid box store")));
        }
        Action::Ask(effect) => panic!("asked for {effect:?}"),
    }
}

#[test]
fn a_closed_output_stream_is_reported_rather_than_panicking() {
    let mut world = World::new();
    // Seed a box so the read-only commands have something to print.
    world.invoke(Command::Create(over("/tmp")));
    world.out_is_closed = true;

    for command in [
        Command::Create(over("/tmp")),
        Command::Ls,
        inspect("box-0"),
        rm("box-0"),
        exec("box-0", &["echo", "hi"]),
        Command::Run {
            wanted: over("/tmp"),
            argv: texts(&["echo", "hi"]),
        },
    ] {
        let outcome = world.invoke(command);
        assert_eq!(outcome.code, EXIT_TINYBOX_ERROR);
    }
    let outcome = world.invoke(exec("box-1", &["echo", "hi"]));
    assert_eq!(outcome.err, "error: could not write: broken pipe\n");
}

#[test]
fn a_closed_error_stream_is_survivable_too() {
    let mut world = World::new();
    world.err_is_closed = true;

    // `create` writes its isolation warning to stderr; a closed stderr must not
    // take the process down.
    let outcome = world.invoke(Command::Create(over("/tmp")));

    assert_eq!(outcome.code, EXIT_TINYBOX_ERROR);
    assert_eq!(outcome.out, "box-0\n");
}

#[test]
fn every_workspace_source_renders_readably() -> Result<(), Error> {
    let render = |source| -> Result<String, Error> {
        let spec = BoxSpec::new(
            Placement::new(HostRef::new("local")?, SandboxRef::new("docker")?),
            source,
        );
        Ok(workspace(&BoxInfo::new(
            BoxId::new("box-0")?,
            BoxState::Ready,
            spec,
        )))
    };

    // This is the column someone scans to find the box they meant, so each
    // variant gets a form they recognize rather than a Debug dump.
    assert_eq!(
        render(WorkspaceSource::LocalDir("/srv/work".into()))?,
        "/srv/work"
    );
    assert_eq!(
        render(WorkspaceSource::OciImage("alpine:3".to_owned()))?,
        "alpine:3"
    );
    assert_eq!(
        render(WorkspaceSource::Snapshot(SnapshotId::new("sha-abc123")?))?,
        "sha-abc123"
    );
    assert_eq!(
        render(WorkspaceSource::GitRepo {
            url: "https://example.invalid/repo.git".to_owned(),
            rev: "main".to_owned(),
        })?,
        "https://example.invalid/repo.git#main"
    );
    Ok(())
}

#[test]
fn a_boxs_sandbox_is_read_from_its_record_not_a_flag() {
    let mut world = World::new();
    world.invoke(Command::Create(over("/tmp")));

    // Asking the caller to remember which backend a box belongs to is how
    // containers get orphaned.
    let listed = world.invoke(Command::Ls);
    assert!(listed.out.contains("passthrough"));
    assert_eq!(listed.out, "box-0\tpassthrough\tready\t/tmp\n");

    let inspected = world.invoke(inspect("box-0"));
    assert!(inspected.out.contains("sandbox:    passthrough"));
}

#[test]
fn a_record_naming_an_unknown_sandbox_is_refused() -> Result<(), Error> {
    let mut world = World::new();
    // A store written by a newer build, naming a backend this one lacks.
    world.store.insert(&BoxInfo::new(
        BoxId::new("box-0")?,
        BoxState::Ready,
        BoxSpec::new(
            Placement::new(HostRef::new("local")?, SandboxRef::new("microvm")?),
            WorkspaceSource::LocalDir("/tmp".to_owned()),
        ),
    ))?;

    let outcome = world.invoke(inspect("box-0"));

    assert_eq!(outcome.code, EXIT_TINYBOX_ERROR);
    assert!(outcome.err.contains("microvm"));
    Ok(())
}

#[test]
fn inspect_lists_what_the_sandbox_declares() {
    let mut world = World::new();
    world.invoke(Command::Create(over("/tmp")));

    let inspected = world.invoke(inspect("box-0"));

    // Passthrough declares nothing, and says that rather than printing an
    // empty list the reader has to interpret.
    assert!(inspected
        .out
        .contains("supports:   nothing beyond running commands"));
}

#[test]
fn an_invalid_docker_namespace_is_refused() {
    let outcome = World::new().invoke_in("../escape", Command::Create(from_image("alpine:3")));

    assert_eq!(outcome.code, EXIT_TINYBOX_ERROR);
    assert!(outcome.err.contains("docker namespace"));
}

#[test]
fn snapshotting_a_passthrough_box_is_refused_rather_than_faked() {
    let mut world = World::new();
    world.invoke(Command::Create(over("/tmp")));

    let outcome = world.invoke(snapshot("box-0"));

    assert_eq!(outcome.code, EXIT_TINYBOX_ERROR);
    assert!(outcome.err.contains("does not support filesystem snapshots"));
    assert!(world.seen.is_empty());
}

#[test]
fn a_docker_box_is_created_through_the_docker_backend() {
    let mut world = World::new();

    let created = world.invoke(Command::Create(from_image("alpine:3")));

    assert_eq!(created.code, 0);
    assert_eq!(created.out.trim(), "box-0");
    // Docker clears the isolation floor, so no "not isolated" warning is due.
    assert!(!created.err.contains("not isolated"));

    let argv = world.commands().first().cloned().unwrap_or_default();
    assert_eq!(argv[0..2], ["docker", "run"]);
    assert!(argv.contains(&"alpine:3".to_owned()));
    assert_eq!(
        argv,
        [
            "docker",
            "run",
            "--detach",
            "--name",
            "tinybox-default-box-0",
            "--network",
            "none",
            "--cpu-quota",
            "200000",
            "--memory",
            "2147483648",
            "--pids-limit",
            "512",
            "alpine:3",
            "sleep",
            "infinity",
        ]
    );
}

#[test]
fn a_docker_box_remembers_its_backend_across_invocations() {
    let mut world = World::new();
    world.invoke(Command::Create(from_image("alpine:3")));

    world.push_ok("running"); // inspect, during exec
    world.push_ok("hi"); // the command itself
    let executed = world.invoke(exec("box-0", &["echo", "hi"]));

    // No sandbox was given: the record said docker, so docker was used.
    assert_eq!(executed.code, 0);
    let last = world.last();
    assert_eq!(last[0..2], ["docker", "exec"]);
    assert_eq!(
        last,
        ["docker", "exec", "tinybox-default-box-0", "echo", "hi"]
    );
    assert_eq!(executed.out, "hi");
}

#[test]
fn a_docker_box_can_be_snapshotted_and_forked() {
    let mut world = World::new();
    world.invoke(Command::Create(from_image("alpine:3")));

    world.push_ok("sha256:9f2c0e1b7a4d5e6f8a9b0c1d2e3f4a5b6c7d8e9f0a1b2c3d4e5f6a7b8c9d0e1f");
    let captured = world.invoke(snapshot("box-0"));
    assert_eq!(captured.code, 0);
    assert_eq!(captured.out.trim(), "sha-9f2c0e1b7a4d");

    let forked = world.invoke(Command::Fork {
        snapshot: captured.out.trim().to_owned(),
        sandbox: "docker".to_owned(),
    });
    assert_eq!(forked.code, 0);
    assert_eq!(forked.out.trim(), "box-1");

    // The fork starts from the snapshot image, not the original spec's.
    let last = world.last();
    assert!(last.contains(&"9f2c0e1b7a4d".to_owned()));
}

#[test]
fn a_docker_box_is_destroyed_through_docker() {
    let mut world = World::new();
    world.invoke(Command::Create(from_image("alpine:3")));

    let removed = world.invoke(rm("box-0"));

    assert_eq!(removed.code, 0);
    let last = world.last();
    assert_eq!(last[0..2], ["docker", "rm"]);
    assert_eq!(last, ["docker", "rm", "--force", "tinybox-default-box-0"]);
}

#[test]
fn inspecting_a_docker_box_reports_kernel_isolation() {
    let mut world = World::new();
    world.invoke(Command::Create(from_image("alpine:3")));
    world.push_ok("running");

    let inspected = world.invoke(inspect("box-0"));

    assert!(inspected.out.contains("sandbox:    docker"));
    assert!(inspected.out.contains("isolation:  kernel"));
    assert!(inspected.out.contains("untrusted:  safe"));
    assert!(inspected
        .out
        .contains("filesystem snapshots, forking, resource limits"));
    // The workspace column shows the image, not a Debug dump.
    assert!(inspected.out.contains("workspace:  alpine:3"));
    assert_eq!(
        inspected.out,
        "id:         box-0\n\
         sandbox:    docker\n\
         state:      ready\n\
         workspace:  alpine:3\n\
         runner:     local / docker\n\
         isolation:  kernel\n\
         untrusted:  safe\n\
         supports:   filesystem snapshots, forking, resource limits\n"
    );
}

#[test]
fn a_namespace_reaches_the_container_name() {
    let mut world = World::new();

    world.invoke_in("team-a", Command::Create(from_image("alpine:3")));

    let argv = world.commands().first().cloned().unwrap_or_default();
    let name = argv
        .iter()
        .position(|part| part == "--name")
        .and_then(|index| argv.get(index + 1));
    assert_eq!(name.map(String::as_str), Some("tinybox-team-a-box-0"));
}

#[test]
fn a_one_shot_docker_run_leaves_nothing_behind() {
    let mut world = World::new();
    world.push_ok(""); // docker run
    world.push_ok("running"); // inspect
    world.push_ok("once"); // the command

    let executed = world.invoke(Command::Run {
        wanted: from_image("alpine:3"),
        argv: texts(&["echo", "once"]),
    });

    assert_eq!(executed.code, 0);
    assert_eq!(executed.out.trim(), "once");
    assert!(world.invoke(Command::Ls).out.is_empty());
}

#[test]
fn a_container_that_cannot_be_removed_keeps_its_record() {
    let mut world = World::new();
    world.invoke(Command::Create(from_image("alpine:3")));

    world.push(1, "", "  daemon is busy\n");
    let refused = world.invoke(rm("box-0"));

    assert_eq!(refused.code, EXIT_TINYBOX_ERROR);
    assert!(refused.err.contains("daemon is busy"));
    assert!(world.invoke(Command::Ls).out.contains("box-0"));
}

#[test]
fn a_container_that_cannot_be_started_is_not_recorded() {
    let mut world = World::new();

    world.push(125, "", "no such image\n");
    let refused = world.invoke(Command::Create(from_image("absent:1")));

    assert_eq!(refused.code, EXIT_TINYBOX_ERROR);
    assert!(refused.err.contains("no such image"));
    assert!(world.invoke(Command::Ls).out.is_empty());
}

#[test]
fn a_stopped_container_runs_nothing() {
    let mut world = World::new();
    world.invoke(Command::Create(from_image("alpine:3")));

    world.push_ok("exited\n");
    let refused = world.invoke(exec("box-0", &["true"]));

    assert_eq!(refused.code, EXIT_TINYBOX_ERROR);
    assert_eq!(world.last()[0..2], ["docker", "inspect"]);

    world.push_ok("exited\n");
    assert!(world
        .invoke(inspect("box-0"))
        .out
        .contains("state:      stopped"));
}

#[test]
fn a_missing_snapshot_is_unknown() {
    let mut world = World::new();

    world.push(1, "", "No such image\n");
    let refused = world.invoke(Command::Fork {
        snapshot: "sha-9f2c0e1b7a4d".to_owned(),
        sandbox: "docker".to_owned(),
    });

    assert_eq!(refused.code, EXIT_TINYBOX_ERROR);
    assert!(refused.err.contains("sha-9f2c0e1b7a4d"));
    assert_eq!(
        world.last(),
        ["docker", "image", "inspect", "9f2c0e1b7a4d"]
    );

    // A name that no snapshot of a container has is not even looked for.
    let unnamed = world.invoke(Command::Fork {
        snapshot: "template".to_owned(),
        sandbox: "docker".to_owned(),
    });
    assert_eq!(unnamed.code, EXIT_TINYBOX_ERROR);
    assert_eq!(world.seen.len(), 1);
}

#[test]
fn forking_without_containers_is_refused() {
    let refused = World::new().invoke(Command::Fork {
        snapshot: "sha-9f2c0e1b7a4d".to_owned(),
        sandbox: "passthrough".to_owned(),
    });

    assert_eq!(refused.code, EXIT_TINYBOX_ERROR);
    assert!(refused.err.contains("does not support forking"));
}

#[test]
fn the_working_directory_is_the_workspace_where_nothing_was_said() {
    let mut world = World::new();
    let mut wanted = over("");
    wanted.origin = Origin::Here;
    world.invoke(Command::Create(wanted));

    assert_eq!(
        world.invoke(Command::Ls).out,
        "box-0\tpassthrough\tready\t/here\n"
    );
}

#[test]
fn an_unreadable_working_directory_is_reported() {
    let cli = Cli {
        store: None,
        namespace: "default".to_owned(),
        command: Command::Create(Wanted {
            sandbox: "passthrough".to_owned(),
            origin: Origin::Here,
            env: Vec::new(),
        }),
    };
    let replies = vec![Reply::WorkingDirectory(Err("it is gone".to_owned()))];

    assert_eq!(
        cli.dispatch(&replies),
        Action::Finish(Err(Error::Store {
            operation: "locate",
            message: "could not read the working directory: it is gone".to_owned(),
        }))
    );
}

#[test]
fn a_directory_box_needs_a_directory() {
    let mut world = World::new();
    let mut wanted = from_image("alpine:3");
    wanted.sandbox = "passthrough".to_owned();

    let refused = world.invoke(Command::Create(wanted));

    assert_eq!(refused.code, EXIT_TINYBOX_ERROR);
    assert!(refused.err.contains("local directory"));
}

#[test]
fn a_container_needs_an_image() {
    let mut world = World::new();
    let mut wanted = over("/tmp");
    wanted.sandbox = "docker".to_owned();

    let refused = world.invoke(Command::Create(wanted));

    assert_eq!(refused.code, EXIT_TINYBOX_ERROR);
    assert!(refused.err.contains("an image or a snapshot"));
    assert!(world.seen.is_empty());
}

#[test]
fn a_stopped_box_runs_nothing() -> Result<(), Error> {
    let mut world = World::new();
    world.invoke(Command::Create(over("/tmp")));
    world
        .store
        .set_state(&BoxId::new("box-0")?, BoxState::Stopped)?;

    let refused = world.invoke(exec("box-0", &["true"]));

    assert_eq!(refused.code, EXIT_TINYBOX_ERROR);
    assert!(world.seen.is_empty());
    Ok(())
}

#[test]
fn an_answer_to_another_question_leaves_the_question_asked() {
    let cli = Cli {
        store: None,
        namespace: "default".to_owned(),
        command: Command::Ls,
    };

    assert_eq!(
        cli.dispatch(&vec![Reply::Stored(Ok(()))]),
        Action::Ask(Effect::Store(StoreOp::List))
    );
}

#[test]
fn records_are_kept_where_the_caller_says() {
    let mut cli = Cli {
        store: Some("/elsewhere/boxes.json".to_owned()),
        namespace: "default".to_owned(),
        command: Command::Ls,
    };
    assert_eq!(
        cli.store_path(Some("/state"), None, None),
        Ok("/elsewhere/boxes.json".to_owned())
    );

    cli.store = None;
    assert_eq!(
        cli.store_path(Some("/state"), Some("/xdg"), Some("/home/me")),
        Ok("/state/boxes.json".to_owned())
    );
    assert!(cli.store_path(None, None, None).is_err());
}

#[test]
fn a_command_overrides_the_variables_of_its_box() -> Result<(), Error> {
    let spec = BoxSpec::new(
        Placement::new(HostRef::new("local")?, SandboxRef::new("passthrough")?),
        WorkspaceSource::LocalDir("/srv/work".to_owned()),
    )
    .with_env("A".to_owned(), "box".to_owned())
    .with_env("B".to_owned(), "box".to_owned());
    let info = BoxInfo::new(BoxId::new("box-0")?, BoxState::Ready, spec);
    let request = ExecRequest::new(texts(&["true"]))
        .with_env("B".to_owned(), "command".to_owned())
        .with_env("C".to_owned(), "command".to_owned())
        .with_cwd("/elsewhere".to_owned());

    let asked =
        PassthroughSandbox::new().exec(&info.id, &request, &vec![Reply::Fetched(Ok(info.clone()))], 0);

    match asked {
        Progress::Ask(Effect::Run(placed)) => {
            assert_eq!(placed.cwd.as_deref(), Some("/elsewhere"));
            assert_eq!(placed.env.len(), 3);
            assert_eq!(placed.env.get("A"), Some(&"box".to_owned()));
            assert_eq!(placed.env.get("B"), Some(&"command".to_owned()));
            assert_eq!(placed.env.get("C"), Some(&"command".to_owned()));
        }
        other => panic!("{other:?}"),
    }
    Ok(())
}

#[test]
fn a_finished_command_stays_finished() {
    let cli = Cli {
        store: None,
        namespace: "default".to_owned(),
        command: Command::Ls,
    };
    let mut replies = vec![Reply::Listed(Ok(Vec::new())), Reply::Wrote(Ok(()))];
    assert_eq!(cli.dispatch(&replies), Action::Finish(Ok(0)));

    replies.push(Reply::Wrote(Err(Error::io("write", "broken pipe"))));
    assert_eq!(cli.dispatch(&replies), Action::Finish(Ok(0)));
}

#[test]
fn a_command_of_a_container_needs_a_program() -> Result<(), Error> {
    let sandbox = DockerSandbox::new("default")?;

    assert_eq!(
        sandbox.exec(
            &BoxId::new("box-0")?,
            &ExecRequest::new(Vec::new()),
            &Vec::new(),
            0
        ),
        Progress::Failed(
            Error::EmptyCommand {
                sandbox: "docker".to_owned()
            },
            0
        )
    );
    Ok(())
}

#[test]
fn a_zero_limit_creates_nothing() -> Result<(), Error> {
    let mut spec = BoxSpec::new(
        Placement::new(HostRef::new("local")?, SandboxRef::new("docker")?),
        WorkspaceSource::OciImage("alpine:3".to_owned()),
    );
    spec.resources.memory_bytes = 0;

    for name in ["passthrough", "docker"] {
        assert_eq!(
            Backend::named(name, "default")?.create(&spec, &Vec::new(), 0),
            Progress::Failed(
                Error::ZeroResourceLimit {
                    limit: "memory_bytes"
                },
                0
            )
        );
    }
    Ok(())
}

#[test]
fn an_invocation_ends_as_its_command_does() {
    let cli = Cli {
        store: None,
        namespace: "default".to_owned(),
        command: exec("box-9", &["true"]),
    };

    assert_eq!(
        run(&cli, &Vec::new()),
        Running::Ask(Effect::Store(StoreOp::Get(match BoxId::new("box-9") {
            Ok(id) => id,
            Err(error) => panic!("{error:?}"),
        })))
    );
    let replies = vec![Reply::Fetched(Err(Error::UnknownBox {
        id: "box-9".to_owned(),
    }))];
    assert_eq!(
        run(&cli, &replies),
        Running::Exit(70, Some("error: no box with id box-9\n".to_owned()))
    );

    let listing = Cli {
        store: None,
        namespace: "default".to_owned(),
        command: Command::Ls,
    };
    let replies = vec![Reply::Listed(Ok(Vec::new())), Reply::Wrote(Ok(()))];
    assert_eq!(run(&listing, &replies), Running::Exit(0, None));
}

#[test]
fn a_container_run_that_fails_leaves_nothing_behind_either() {
    let mut world = World::new();
    world.push_ok(""); // docker run
    world.push_ok("running"); // inspect
    world
        .outputs
        .push_back(Err(Error::io("spawn", "no such file"))); // the command

    let executed = world.invoke(Command::Run {
        wanted: from_image("alpine:3"),
        argv: texts(&["echo", "once"]),
    });

    assert_eq!(executed.code, EXIT_TINYBOX_ERROR);
    assert_eq!(world.last()[0..2], ["docker", "rm"]);
    assert!(world.invoke(Command::Ls).out.is_empty());
}

#[test]
fn a_container_run_whose_output_is_refused_leaves_nothing_behind_either() {
    let mut world = World::new();
    world.out_is_closed = true;
    world.push_ok(""); // docker run
    world.push_ok("running"); // inspect
    world.push_ok("once"); // the command

    let executed = world.invoke(Command::Run {
        wanted: from_image("alpine:3"),
        argv: texts(&["echo", "once"]),
    });
    assert_eq!(executed.code, EXIT_TINYBOX_ERROR);

    world.out_is_closed = false;
    assert!(world.invoke(Command::Ls).out.is_empty());
}

#[test]
fn a_container_that_a_run_cannot_remove_stays_recorded() {
    let mut world = World::new();
    world.push_ok(""); // docker run
    world.push_ok("running"); // inspect
    world.push_ok("once"); // the command
    world.push(1, "", "daemon is busy"); // docker rm

    let executed = world.invoke(Command::Run {
        wanted: from_image("alpine:3"),
        argv: texts(&["echo", "once"]),
    });

    assert_eq!(executed.code, EXIT_TINYBOX_ERROR);
    assert!(executed.err.contains("daemon is busy"));
    assert!(world.invoke(Command::Ls).out.contains("box-0"));
}

#[test]
fn a_run_without_a_box_leaves_nothing_behind() {
    let mut world = World::new();
    let mut contained = over("/tmp");
    contained.sandbox = "docker".to_owned();
    let mut here = over("");
    here.sandbox = "docker".to_owned();
    here.origin = Origin::Here;
    let mut unknown = over("/tmp");
    unknown.sandbox = "microvm".to_owned();

    for wanted in [contained, here, unknown] {
        let refused = world.invoke(Command::Run {
            wanted,
            argv: texts(&["true"]),
        });
        assert_eq!(refused.code, EXIT_TINYBOX_ERROR);
        assert!(world.seen.is_empty());
        assert!(world.invoke(Command::Ls).out.is_empty());
    }
}

#[test]
fn a_forked_box_is_recorded() {
    let mut world = World::new();

    let forked = world.invoke(Command::Fork {
        snapshot: "sha-9f2c0e1b7a4d".to_owned(),
        sandbox: "docker".to_owned(),
    });
    assert_eq!(forked.out, "box-0\n");
    assert_eq!(
        world.invoke(Command::Ls).out,
        "box-0\tdocker\tready\tsha-9f2c0e1b7a4d\n"
    );

    world.push_ok(""); // docker image inspect
    world.push(125, "", "no space left"); // docker run
    let refused = world.invoke(Command::Fork {
        snapshot: "sha-9f2c0e1b7a4d".to_owned(),
        sandbox: "docker".to_owned(),
    });
    assert_eq!(refused.code, EXIT_TINYBOX_ERROR);
    assert!(!world.invoke(Command::Ls).out.contains("box-1"));
}
