//! What each command does, step by step and written out.
//!
//! Every step is stated for all inputs: what is asked of the outside next, given
//! what it answered, and with which words.

use vstd::prelude::*;

use crate::box_spec::{
    BoxSpecView, Lifecycle, NetworkPolicy, PlacementView, Resources, SourceView, Span,
};
use crate::command;
use crate::command::{ActionView, CommandView, OriginView, WantedView};
use crate::conversation::{EffectView, ReplyView, StoreOpView};
use crate::docker;
use crate::error::ErrorView;
use crate::number;
use crate::runtime::{BoxInfoView, BoxState, ExecOutputView, ExecRequestView};
use crate::text;

verus! {

/// A box as it is first recorded.
pub open spec fn made(
    id: Seq<char>,
    sandbox: Seq<char>,
    source: SourceView,
    variables: Map<Seq<char>, Seq<char>>,
) -> BoxInfoView {
    BoxInfoView {
        id,
        state: BoxState::Ready,
        spec: BoxSpecView {
            runner: PlacementView { host: "local"@, sandbox },
            workspace: PlacementView { host: "local"@, sandbox },
            source,
            resources: Resources {
                cpu_millis: 2000,
                memory_bytes: 2147483648,
                pids_max: 512,
                disk_bytes: 8589934592,
            },
            lifecycle: Lifecycle::Ephemeral { ttl: Span { secs: 3600, nanos: 0 } },
            network: NetworkPolicy::Denied,
            env: variables,
        },
    }
}

/// Running these words, and nothing else said.
pub open spec fn words(argv: Seq<Seq<char>>) -> EffectView {
    EffectView::Run(ExecRequestView { argv, cwd: None, env: Map::empty(), stdin: None })
}

/// The name of a container.
pub open spec fn container(namespace: Seq<char>, id: Seq<char>) -> Seq<char> {
    "tinybox-"@ + namespace + "-"@ + id
}

/// The words that start a container as a new box has it.
pub open spec fn start_words(
    namespace: Seq<char>,
    id: Seq<char>,
    image: Seq<char>,
    variables: Map<Seq<char>, Seq<char>>,
) -> Seq<Seq<char>> {
    seq![
        "docker"@,
        "run"@,
        "--detach"@,
        "--name"@,
        container(namespace, id),
        "--network"@,
        "none"@,
        "--cpu-quota"@,
        number::decimal_text(200000),
        "--memory"@,
        number::decimal_text(2147483648),
        "--pids-limit"@,
        number::decimal_text(512),
    ] + docker::env_options(variables) + seq![image, "sleep"@, "infinity"@]
}

/// The words that ask for a container's state.
pub open spec fn status_words(namespace: Seq<char>, id: Seq<char>) -> Seq<Seq<char>> {
    seq!["docker"@, "inspect"@, "--format"@, "{{.State.Status}}"@, container(namespace, id)]
}

/// The words that remove a container.
pub open spec fn remove_words(namespace: Seq<char>, id: Seq<char>) -> Seq<Seq<char>> {
    seq!["docker"@, "rm"@, "--force"@, container(namespace, id)]
}

/// Writing a line to the standard output.
pub open spec fn line(text: Seq<char>) -> EffectView {
    EffectView::WriteOut(vstd::utf8::encode_utf8(text + "\n"@))
}

/// A `docker` command that failed.
pub open spec fn backend_error(operation: Seq<char>, output: ExecOutputView) -> ErrorView {
    ErrorView::Backend {
        sandbox: "docker"@,
        operation,
        message: text::trimmed(text::lossy_text(output.stderr)),
    }
}

/// A command that was refused because its box is stopped.
pub open spec fn stopped(id: Seq<char>) -> ErrorView {
    ErrorView::InvalidState { id, actual: BoxState::Stopped, expected: BoxState::Ready }
}

/// The words that start a container are those of its box.
proof fn start_is_known(
    namespace: Seq<char>,
    id: Seq<char>,
    image: Seq<char>,
    spec: BoxSpecView,
    variables: Map<Seq<char>, Seq<char>>,
)
    requires
        spec.network is Denied,
        spec.env == variables,
        spec.resources.cpu_millis == 2000,
        spec.resources.memory_bytes == 2147483648,
        spec.resources.pids_max == 512,
    ensures
        docker::run_argv(docker::container_name(namespace, id), image, spec) == start_words(
            namespace,
            id,
            image,
            variables,
        ),
{
    assert(docker::run_argv(docker::container_name(namespace, id), image, spec) =~= start_words(
        namespace,
        id,
        image,
        variables,
    ));
}

/// The two sandboxes have different names.
proof fn the_names_differ()
    ensures
        "docker"@ != "passthrough"@,
{
    reveal_strlit("docker");
    reveal_strlit("passthrough");
    assert("docker"@[0] != "passthrough"@[0]);
}

/// The wanted directory box, and the replies that tell its directory: none where
/// it was named, and the working directory where it was not.
pub open spec fn directory_box(
    path: Seq<char>,
    named: bool,
    entries: Seq<Seq<char>>,
) -> (WantedView, Seq<ReplyView>) {
    if named {
        (
            WantedView { sandbox: "passthrough"@, origin: OriginView::Dir(path), env: entries },
            Seq::empty(),
        )
    } else {
        (
            WantedView { sandbox: "passthrough"@, origin: OriginView::Here, env: entries },
            seq![ReplyView::WorkingDirectory(Ok(path))],
        )
    }
}

/// `create` over a directory: a name is allocated, the box is recorded as it was
/// asked for, its name is printed, and a warning follows.
pub proof fn a_directory_box_is_created(
    path: Seq<char>,
    named: bool,
    entries: Seq<Seq<char>>,
    namespace: Seq<char>,
    id: Seq<char>,
    error: ErrorView,
)
    requires
        command::settings(entries) is Some,
    ensures
        ({
            let (wanted, start) = directory_box(path, named, entries);
            let create = CommandView::Create(wanted);
            let info = made(
                id,
                "passthrough"@,
                SourceView::LocalDir(path),
                command::settings(entries)->0,
            );
            let allocated = start.push(ReplyView::Allocated(Ok(id)));
            let recorded = allocated.push(ReplyView::Stored(Ok(())));
            let told = recorded.push(ReplyView::Wrote(Ok(())));
            let failed = ActionView::Finish(Err(error));
            &&& !named ==> command::dispatched(create, namespace, Seq::empty()) == ActionView::Ask(
                EffectView::WorkingDirectory,
            )
            &&& command::dispatched(create, namespace, start) == ActionView::Ask(
                EffectView::Store(StoreOpView::Allocate),
            )
            &&& command::dispatched(
                create,
                namespace,
                start.push(ReplyView::Allocated(Err(error))),
            ) == failed
            &&& command::dispatched(create, namespace, allocated) == ActionView::Ask(
                EffectView::Store(StoreOpView::Insert(info)),
            )
            &&& command::dispatched(
                create,
                namespace,
                allocated.push(ReplyView::Stored(Err(error))),
            ) == failed
            &&& command::dispatched(create, namespace, recorded) == ActionView::Ask(line(id))
            &&& command::dispatched(
                create,
                namespace,
                recorded.push(ReplyView::Wrote(Err(error))),
            ) == failed
            &&& command::dispatched(create, namespace, told) == ActionView::Ask(
                EffectView::WriteErr(
                    vstd::utf8::encode_utf8(
                        "warning: "@ + "passthrough"@
                            + " boxes are not isolated; commands run with your full privileges\n"@,
                    ),
                ),
            )
            &&& command::dispatched(create, namespace, told.push(ReplyView::Wrote(Err(error))))
                == failed
            &&& command::dispatched(create, namespace, told.push(ReplyView::Wrote(Ok(()))))
                == ActionView::Finish(Ok(0))
        }),
{
}

/// `create` from an image: a name is allocated, a container is started from the
/// image with the limits and variables of the box, and only then is the box
/// recorded as it was asked for and its name printed.
pub proof fn a_container_box_is_created(
    image: Seq<char>,
    entries: Seq<Seq<char>>,
    namespace: Seq<char>,
    id: Seq<char>,
    output: ExecOutputView,
    error: ErrorView,
)
    requires
        command::settings(entries) is Some,
        crate::identity::is_name(namespace),
    ensures
        ({
            let variables = command::settings(entries)->0;
            let create = CommandView::Create(
                WantedView {
                    sandbox: "docker"@,
                    origin: OriginView::Image(image),
                    env: entries,
                },
            );
            let allocated = seq![ReplyView::Allocated(Ok(id))];
            let started = allocated.push(ReplyView::Ran(Ok(output)));
            let recorded = started.push(ReplyView::Stored(Ok(())));
            let failed = ActionView::Finish(Err(error));
            &&& command::dispatched(create, namespace, Seq::empty()) == ActionView::Ask(
                EffectView::Store(StoreOpView::Allocate),
            )
            &&& command::dispatched(create, namespace, allocated) == ActionView::Ask(
                words(start_words(namespace, id, image, variables)),
            )
            &&& command::dispatched(
                create,
                namespace,
                allocated.push(ReplyView::Ran(Err(error))),
            ) == failed
            &&& output.exit_code != 0 ==> command::dispatched(create, namespace, started)
                == ActionView::Finish(Err(backend_error("create a box"@, output)))
            &&& output.exit_code == 0 ==> {
                &&& command::dispatched(create, namespace, started) == ActionView::Ask(
                    EffectView::Store(
                        StoreOpView::Insert(
                            made(id, "docker"@, SourceView::OciImage(image), variables),
                        ),
                    ),
                )
                &&& command::dispatched(
                    create,
                    namespace,
                    started.push(ReplyView::Stored(Err(error))),
                ) == failed
                &&& command::dispatched(create, namespace, recorded) == ActionView::Ask(line(id))
                &&& command::dispatched(
                    create,
                    namespace,
                    recorded.push(ReplyView::Wrote(Ok(()))),
                ) == ActionView::Finish(Ok(0))
            }
        }),
{
    the_names_differ();
    let variables = command::settings(entries)->0;
    let info = made(id, "docker"@, SourceView::OciImage(image), variables);
    start_is_known(namespace, id, image, info.spec, variables);
}

/// `exec` in a directory box: its record says where, and the command runs there
/// with all its arguments and the variables of the box. What it wrote is passed
/// on, and its status is the exit code.
pub proof fn a_command_runs_in_a_directory_box(
    id: Seq<char>,
    argv: Seq<Seq<char>>,
    namespace: Seq<char>,
    info: BoxInfoView,
    path: Seq<char>,
    output: ExecOutputView,
    error: ErrorView,
)
    requires
        crate::identity::is_name(id),
        info.spec.workspace.sandbox == "passthrough"@,
        info.spec.source == SourceView::LocalDir(path),
    ensures
        ({
            let exec = CommandView::Exec { id, argv };
            let get = ActionView::Ask(EffectView::Store(StoreOpView::Get(id)));
            let found = seq![ReplyView::Fetched(Ok(info))];
            let again = found.push(ReplyView::Fetched(Ok(info)));
            let ran = again.push(ReplyView::Ran(Ok(output)));
            let told = ran.push(ReplyView::Wrote(Ok(())));
            &&& command::dispatched(exec, namespace, Seq::empty()) == get
            &&& command::dispatched(exec, namespace, seq![ReplyView::Fetched(Err(error))])
                == ActionView::Finish(Err(error))
            &&& command::dispatched(exec, namespace, found) == get
            &&& info.state is Stopped ==> command::dispatched(exec, namespace, again)
                == ActionView::Finish(Err(stopped(id)))
            &&& info.state is Ready ==> {
                &&& command::dispatched(exec, namespace, again) == ActionView::Ask(
                    EffectView::Run(
                        ExecRequestView {
                            argv,
                            cwd: Some(path),
                            env: info.spec.env,
                            stdin: None,
                        },
                    ),
                )
                &&& command::dispatched(
                    exec,
                    namespace,
                    again.push(ReplyView::Ran(Err(error))),
                ) == ActionView::Finish(Err(error))
                &&& command::dispatched(exec, namespace, ran) == ActionView::Ask(
                    EffectView::WriteOut(output.stdout),
                )
                &&& command::dispatched(exec, namespace, ran.push(ReplyView::Wrote(Err(error))))
                    == ActionView::Finish(Err(error))
                &&& command::dispatched(exec, namespace, told) == ActionView::Ask(
                    EffectView::WriteErr(output.stderr),
                )
                &&& command::dispatched(exec, namespace, told.push(ReplyView::Wrote(Err(error))))
                    == ActionView::Finish(Err(error))
                &&& 0 <= output.exit_code <= 255 ==> command::dispatched(
                    exec,
                    namespace,
                    told.push(ReplyView::Wrote(Ok(()))),
                ) == ActionView::Finish(Ok(output.exit_code as u8))
                &&& !(0 <= output.exit_code <= 255) ==> command::dispatched(
                    exec,
                    namespace,
                    told.push(ReplyView::Wrote(Ok(()))),
                ) == ActionView::Finish(Ok(70))
            }
        }),
{
    let request = crate::passthrough::in_workspace(
        info.spec,
        crate::runtime::plain_request(argv),
    );
    assert(request.env =~= info.spec.env);
}

/// `exec` in a container: its status is asked for, and where that says that it
/// runs, whatever white space stands around the word, `docker exec` runs the
/// arguments that were given. What was written is passed on, and the status is
/// the exit code.
pub proof fn a_command_runs_in_a_container(
    id: Seq<char>,
    argv: Seq<Seq<char>>,
    namespace: Seq<char>,
    info: BoxInfoView,
    status: ExecOutputView,
    lead: Seq<char>,
    trail: Seq<char>,
    output: ExecOutputView,
    error: ErrorView,
)
    requires
        crate::identity::is_name(id),
        crate::identity::is_name(namespace),
        info.spec.workspace.sandbox == "docker"@,
        argv.len() > 0,
        forall|i: int| 0 <= i < lead.len() ==> text::is_space(#[trigger] lead[i]),
        forall|i: int| 0 <= i < trail.len() ==> text::is_space(#[trigger] trail[i]),
    ensures
        ({
            let exec = CommandView::Exec { id, argv };
            let get = ActionView::Ask(EffectView::Store(StoreOpView::Get(id)));
            let found = seq![ReplyView::Fetched(Ok(info))];
            let again = found.push(ReplyView::Fetched(Ok(info)));
            let looked = again.push(ReplyView::Ran(Ok(status)));
            let ran = looked.push(ReplyView::Ran(Ok(output)));
            let told = ran.push(ReplyView::Wrote(Ok(())));
            &&& command::dispatched(exec, namespace, Seq::empty()) == get
            &&& command::dispatched(exec, namespace, found) == get
            &&& command::dispatched(exec, namespace, again) == ActionView::Ask(
                words(status_words(namespace, id)),
            )
            &&& status.exit_code != 0 ==> command::dispatched(exec, namespace, looked)
                == ActionView::Finish(Err(backend_error("inspect a box"@, status)))
            &&& status.exit_code == 0 && text::lossy_text(status.stdout) == lead + "running"@
                + trail ==> {
                &&& command::dispatched(exec, namespace, looked) == ActionView::Ask(
                    words(seq!["docker"@, "exec"@, container(namespace, id)] + argv),
                )
                &&& command::dispatched(
                    exec,
                    namespace,
                    looked.push(ReplyView::Ran(Err(error))),
                ) == ActionView::Finish(Err(error))
                &&& command::dispatched(exec, namespace, ran) == ActionView::Ask(
                    EffectView::WriteOut(output.stdout),
                )
                &&& command::dispatched(exec, namespace, told) == ActionView::Ask(
                    EffectView::WriteErr(output.stderr),
                )
                &&& 0 <= output.exit_code <= 255 ==> command::dispatched(
                    exec,
                    namespace,
                    told.push(ReplyView::Wrote(Ok(()))),
                ) == ActionView::Finish(Ok(output.exit_code as u8))
                &&& !(0 <= output.exit_code <= 255) ==> command::dispatched(
                    exec,
                    namespace,
                    told.push(ReplyView::Wrote(Ok(()))),
                ) == ActionView::Finish(Ok(70))
            }
            &&& status.exit_code == 0 && text::trimmed(text::lossy_text(status.stdout))
                != "running"@ ==> command::dispatched(exec, namespace, looked)
                == ActionView::Finish(Err(stopped(id)))
        }),
{
    the_names_differ();
    docker::a_running_container_is_ready(lead, trail, lead);
    docker::a_plain_command_in_a_container_is_known(namespace, id, argv);
}

/// `run` over a directory: once the box is made, the one command that is run
/// there is the one that was given, with all its arguments, in the directory and
/// with the variables of the box. Then the box is destroyed, and only after that
/// is what the command wrote passed on and its status returned. A command that
/// cannot be run is an error, once the box is destroyed.
pub proof fn a_command_is_run_once_in_a_directory_box(
    path: Seq<char>,
    named: bool,
    entries: Seq<Seq<char>>,
    argv: Seq<Seq<char>>,
    namespace: Seq<char>,
    id: Seq<char>,
    output: ExecOutputView,
    error: ErrorView,
    other: ErrorView,
)
    requires
        command::settings(entries) is Some,
    ensures
        ({
            let (wanted, start) = directory_box(path, named, entries);
            let run = CommandView::Run { wanted, argv };
            let variables = command::settings(entries)->0;
            let info = made(id, "passthrough"@, SourceView::LocalDir(path), variables);
            let recorded = start.push(ReplyView::Allocated(Ok(id))).push(
                ReplyView::Stored(Ok(())),
            );
            let found = recorded.push(ReplyView::Fetched(Ok(info)));
            let ran = found.push(ReplyView::Ran(Ok(output)));
            let refused = found.push(ReplyView::Ran(Err(error)));
            let forgotten = ran.push(ReplyView::Stored(Ok(())));
            let told = forgotten.push(ReplyView::Wrote(Ok(())));
            let forget = ActionView::Ask(EffectView::Store(StoreOpView::Remove(id)));
            &&& command::dispatched(run, namespace, start) == ActionView::Ask(
                EffectView::Store(StoreOpView::Allocate),
            )
            &&& command::dispatched(run, namespace, start.push(ReplyView::Allocated(Ok(id))))
                == ActionView::Ask(EffectView::Store(StoreOpView::Insert(info)))
            &&& command::dispatched(run, namespace, recorded) == ActionView::Ask(
                EffectView::Store(StoreOpView::Get(id)),
            )
            &&& command::dispatched(run, namespace, found) == ActionView::Ask(
                EffectView::Run(
                    ExecRequestView { argv, cwd: Some(path), env: variables, stdin: None },
                ),
            )
            &&& command::dispatched(run, namespace, ran) == forget
            &&& command::dispatched(run, namespace, refused) == forget
            &&& command::dispatched(run, namespace, refused.push(ReplyView::Stored(Ok(()))))
                == ActionView::Finish(Err(error))
            &&& command::dispatched(run, namespace, refused.push(ReplyView::Stored(Err(other))))
                == ActionView::Finish(Err(error))
            &&& command::dispatched(run, namespace, ran.push(ReplyView::Stored(Err(other))))
                == ActionView::Finish(Err(other))
            &&& command::dispatched(run, namespace, forgotten) == ActionView::Ask(
                EffectView::WriteOut(output.stdout),
            )
            &&& command::dispatched(run, namespace, forgotten.push(ReplyView::Wrote(Err(error))))
                == ActionView::Finish(Err(error))
            &&& command::dispatched(run, namespace, told) == ActionView::Ask(
                EffectView::WriteErr(output.stderr),
            )
            &&& 0 <= output.exit_code <= 255 ==> command::dispatched(
                run,
                namespace,
                told.push(ReplyView::Wrote(Ok(()))),
            ) == ActionView::Finish(Ok(output.exit_code as u8))
            &&& !(0 <= output.exit_code <= 255) ==> command::dispatched(
                run,
                namespace,
                told.push(ReplyView::Wrote(Ok(()))),
            ) == ActionView::Finish(Ok(70))
        }),
{
    let info = made(
        id,
        "passthrough"@,
        SourceView::LocalDir(path),
        command::settings(entries)->0,
    );
    let request = crate::passthrough::in_workspace(
        info.spec,
        crate::runtime::plain_request(argv),
    );
    assert(request.env =~= info.spec.env);
}

/// `run` in a container, up to its command: once the container is started and
/// recorded, and its status says that it runs, `docker exec` runs the arguments
/// that were given, all of them.
pub proof fn a_command_is_run_once_in_a_container(
    image: Seq<char>,
    entries: Seq<Seq<char>>,
    argv: Seq<Seq<char>>,
    namespace: Seq<char>,
    id: Seq<char>,
    started: ExecOutputView,
    status: ExecOutputView,
    lead: Seq<char>,
    trail: Seq<char>,
)
    requires
        command::settings(entries) is Some,
        crate::identity::is_name(namespace),
        argv.len() > 0,
        started.exit_code == 0,
        status.exit_code == 0,
        forall|i: int| 0 <= i < lead.len() ==> text::is_space(#[trigger] lead[i]),
        forall|i: int| 0 <= i < trail.len() ==> text::is_space(#[trigger] trail[i]),
    ensures
        ({
            let variables = command::settings(entries)->0;
            let run = CommandView::Run {
                wanted: WantedView {
                    sandbox: "docker"@,
                    origin: OriginView::Image(image),
                    env: entries,
                },
                argv,
            };
            let info = made(id, "docker"@, SourceView::OciImage(image), variables);
            let allocated = seq![ReplyView::Allocated(Ok(id))];
            let up = allocated.push(ReplyView::Ran(Ok(started)));
            let recorded = up.push(ReplyView::Stored(Ok(())));
            let found = recorded.push(ReplyView::Fetched(Ok(info)));
            let looked = found.push(ReplyView::Ran(Ok(status)));
            &&& command::dispatched(run, namespace, Seq::empty()) == ActionView::Ask(
                EffectView::Store(StoreOpView::Allocate),
            )
            &&& command::dispatched(run, namespace, allocated) == ActionView::Ask(
                words(start_words(namespace, id, image, variables)),
            )
            &&& command::dispatched(run, namespace, up) == ActionView::Ask(
                EffectView::Store(StoreOpView::Insert(info)),
            )
            &&& command::dispatched(run, namespace, recorded) == ActionView::Ask(
                EffectView::Store(StoreOpView::Get(id)),
            )
            &&& command::dispatched(run, namespace, found) == ActionView::Ask(
                words(status_words(namespace, id)),
            )
            &&& text::lossy_text(status.stdout) == lead + "running"@ + trail
                ==> command::dispatched(run, namespace, looked) == ActionView::Ask(
                words(seq!["docker"@, "exec"@, container(namespace, id)] + argv),
            )
        }),
{
    the_names_differ();
    let variables = command::settings(entries)->0;
    let info = made(id, "docker"@, SourceView::OciImage(image), variables);
    start_is_known(namespace, id, image, info.spec, variables);
    docker::a_running_container_is_ready(lead, trail, lead);
    docker::a_plain_command_in_a_container_is_known(namespace, id, argv);
}

/// `run` in a container, from its command on: the container is removed, the box
/// is forgotten, and only after that is what the command wrote passed on and its
/// status returned. A command that cannot be run is an error, once the container
/// is removed.
pub proof fn a_container_is_removed_after_its_command(
    image: Seq<char>,
    entries: Seq<Seq<char>>,
    argv: Seq<Seq<char>>,
    namespace: Seq<char>,
    id: Seq<char>,
    started: ExecOutputView,
    status: ExecOutputView,
    lead: Seq<char>,
    trail: Seq<char>,
    output: ExecOutputView,
    removed: ExecOutputView,
    error: ErrorView,
)
    requires
        command::settings(entries) is Some,
        crate::identity::is_name(namespace),
        argv.len() > 0,
        started.exit_code == 0,
        status.exit_code == 0,
        text::lossy_text(status.stdout) == lead + "running"@ + trail,
        forall|i: int| 0 <= i < lead.len() ==> text::is_space(#[trigger] lead[i]),
        forall|i: int| 0 <= i < trail.len() ==> text::is_space(#[trigger] trail[i]),
    ensures
        ({
            let variables = command::settings(entries)->0;
            let run = CommandView::Run {
                wanted: WantedView {
                    sandbox: "docker"@,
                    origin: OriginView::Image(image),
                    env: entries,
                },
                argv,
            };
            let info = made(id, "docker"@, SourceView::OciImage(image), variables);
            let looked = seq![
                ReplyView::Allocated(Ok(id)),
                ReplyView::Ran(Ok(started)),
                ReplyView::Stored(Ok(())),
                ReplyView::Fetched(Ok(info)),
                ReplyView::Ran(Ok(status)),
            ];
            let get = ActionView::Ask(EffectView::Store(StoreOpView::Get(id)));
            let remove = ActionView::Ask(words(remove_words(namespace, id)));
            let forget = ActionView::Ask(EffectView::Store(StoreOpView::Remove(id)));
            let ran = looked.push(ReplyView::Ran(Ok(output)));
            let found = ran.push(ReplyView::Fetched(Ok(info)));
            let gone = found.push(ReplyView::Ran(Ok(removed)));
            let forgotten = gone.push(ReplyView::Stored(Ok(())));
            let told = forgotten.push(ReplyView::Wrote(Ok(())));
            let refused = looked.push(ReplyView::Ran(Err(error)));
            let refused_found = refused.push(ReplyView::Fetched(Ok(info)));
            let refused_gone = refused_found.push(ReplyView::Ran(Ok(removed)));
            &&& command::dispatched(run, namespace, ran) == get
            &&& command::dispatched(run, namespace, found) == remove
            &&& command::dispatched(run, namespace, refused) == get
            &&& command::dispatched(run, namespace, refused_found) == remove
            &&& removed.exit_code != 0 ==> {
                &&& command::dispatched(run, namespace, gone) == ActionView::Finish(
                    Err(backend_error("destroy a box"@, removed)),
                )
                &&& command::dispatched(run, namespace, refused_gone) == ActionView::Finish(
                    Err(error),
                )
            }
            &&& removed.exit_code == 0 ==> {
                &&& command::dispatched(run, namespace, gone) == forget
                &&& command::dispatched(run, namespace, refused_gone) == forget
                &&& command::dispatched(
                    run,
                    namespace,
                    refused_gone.push(ReplyView::Stored(Ok(()))),
                ) == ActionView::Finish(Err(error))
                &&& command::dispatched(run, namespace, forgotten) == ActionView::Ask(
                    EffectView::WriteOut(output.stdout),
                )
                &&& command::dispatched(run, namespace, told) == ActionView::Ask(
                    EffectView::WriteErr(output.stderr),
                )
                &&& 0 <= output.exit_code <= 255 ==> command::dispatched(
                    run,
                    namespace,
                    told.push(ReplyView::Wrote(Ok(()))),
                ) == ActionView::Finish(Ok(output.exit_code as u8))
                &&& !(0 <= output.exit_code <= 255) ==> command::dispatched(
                    run,
                    namespace,
                    told.push(ReplyView::Wrote(Ok(()))),
                ) == ActionView::Finish(Ok(70))
            }
        }),
{
    the_names_differ();
    docker::a_running_container_is_ready(lead, trail, lead);
}

/// `ls`: every record is asked for, and a line for each is printed at once.
pub proof fn boxes_are_listed(
    namespace: Seq<char>,
    boxes: Seq<BoxInfoView>,
    error: ErrorView,
)
    ensures
        ({
            let listed = seq![ReplyView::Listed(Ok(boxes))];
            &&& command::dispatched(CommandView::Ls, namespace, Seq::empty()) == ActionView::Ask(
                EffectView::Store(StoreOpView::List),
            )
            &&& command::dispatched(
                CommandView::Ls,
                namespace,
                seq![ReplyView::Listed(Err(error))],
            ) == ActionView::Finish(Err(error))
            &&& command::dispatched(CommandView::Ls, namespace, listed) == ActionView::Ask(
                EffectView::WriteOut(vstd::utf8::encode_utf8(command::listing_text(boxes))),
            )
            &&& command::dispatched(
                CommandView::Ls,
                namespace,
                listed.push(ReplyView::Wrote(Ok(()))),
            ) == ActionView::Finish(Ok(0))
            &&& command::dispatched(
                CommandView::Ls,
                namespace,
                listed.push(ReplyView::Wrote(Err(error))),
            ) == ActionView::Finish(Err(error))
        }),
{
}

/// `inspect` of a directory box: its record is read, and the report on it is
/// printed at once.
pub proof fn a_directory_box_is_described(
    id: Seq<char>,
    namespace: Seq<char>,
    info: BoxInfoView,
    error: ErrorView,
)
    requires
        crate::identity::is_name(id),
        info.spec.workspace.sandbox == "passthrough"@,
    ensures
        ({
            let inspect = CommandView::Inspect { id };
            let get = ActionView::Ask(EffectView::Store(StoreOpView::Get(id)));
            let found = seq![ReplyView::Fetched(Ok(info))];
            let again = found.push(ReplyView::Fetched(Ok(info)));
            &&& command::dispatched(inspect, namespace, Seq::empty()) == get
            &&& command::dispatched(inspect, namespace, found) == get
            &&& command::dispatched(inspect, namespace, again) == ActionView::Ask(
                EffectView::WriteOut(
                    vstd::utf8::encode_utf8(
                        command::report_text(
                            info,
                            crate::capability::SandboxCapabilities::confining_nothing(),
                        ),
                    ),
                ),
            )
            &&& command::dispatched(inspect, namespace, again.push(ReplyView::Wrote(Ok(()))))
                == ActionView::Finish(Ok(0))
            &&& command::dispatched(inspect, namespace, again.push(ReplyView::Wrote(Err(error))))
                == ActionView::Finish(Err(error))
        }),
{
}

/// `inspect` of a container box: its record is read and its container's status
/// asked for, and the report on it, in the state that the status gives, is
/// printed at once.
pub proof fn a_container_box_is_described(
    id: Seq<char>,
    namespace: Seq<char>,
    info: BoxInfoView,
    status: ExecOutputView,
)
    requires
        crate::identity::is_name(id),
        crate::identity::is_name(namespace),
        info.spec.workspace.sandbox == "docker"@,
    ensures
        ({
            let inspect = CommandView::Inspect { id };
            let get = ActionView::Ask(EffectView::Store(StoreOpView::Get(id)));
            let found = seq![ReplyView::Fetched(Ok(info))];
            let again = found.push(ReplyView::Fetched(Ok(info)));
            let looked = again.push(ReplyView::Ran(Ok(status)));
            let seen = BoxInfoView {
                id: info.id,
                state: if text::trimmed(text::lossy_text(status.stdout)) == "running"@ {
                    BoxState::Ready
                } else {
                    BoxState::Stopped
                },
                spec: info.spec,
            };
            &&& command::dispatched(inspect, namespace, Seq::empty()) == get
            &&& command::dispatched(inspect, namespace, found) == get
            &&& command::dispatched(inspect, namespace, again) == ActionView::Ask(
                words(status_words(namespace, id)),
            )
            &&& status.exit_code != 0 ==> command::dispatched(inspect, namespace, looked)
                == ActionView::Finish(Err(backend_error("inspect a box"@, status)))
            &&& status.exit_code == 0 ==> {
                &&& command::dispatched(inspect, namespace, looked) == ActionView::Ask(
                    EffectView::WriteOut(
                        vstd::utf8::encode_utf8(
                            command::report_text(seen, docker::docker_capabilities()),
                        ),
                    ),
                )
                &&& command::dispatched(
                    inspect,
                    namespace,
                    looked.push(ReplyView::Wrote(Ok(()))),
                ) == ActionView::Finish(Ok(0))
            }
        }),
{
    the_names_differ();
}

/// `rm` of a directory box: its record is read and removed, and its name is
/// printed.
pub proof fn a_directory_box_is_destroyed(
    id: Seq<char>,
    namespace: Seq<char>,
    info: BoxInfoView,
    error: ErrorView,
)
    requires
        crate::identity::is_name(id),
        info.spec.workspace.sandbox == "passthrough"@,
    ensures
        ({
            let rm = CommandView::Rm { id };
            let found = seq![ReplyView::Fetched(Ok(info))];
            let gone = found.push(ReplyView::Stored(Ok(())));
            &&& command::dispatched(rm, namespace, Seq::empty()) == ActionView::Ask(
                EffectView::Store(StoreOpView::Get(id)),
            )
            &&& command::dispatched(rm, namespace, found) == ActionView::Ask(
                EffectView::Store(StoreOpView::Remove(id)),
            )
            &&& command::dispatched(rm, namespace, found.push(ReplyView::Stored(Err(error))))
                == ActionView::Finish(Err(error))
            &&& command::dispatched(rm, namespace, gone) == ActionView::Ask(line(id))
            &&& command::dispatched(rm, namespace, gone.push(ReplyView::Wrote(Ok(()))))
                == ActionView::Finish(Ok(0))
            &&& command::dispatched(rm, namespace, gone.push(ReplyView::Wrote(Err(error))))
                == ActionView::Finish(Err(error))
        }),
{
}

/// `rm` of a container box: its container is removed by force, and only then is
/// its record removed and its name printed.
pub proof fn a_container_box_is_destroyed(
    id: Seq<char>,
    namespace: Seq<char>,
    info: BoxInfoView,
    output: ExecOutputView,
    error: ErrorView,
)
    requires
        crate::identity::is_name(id),
        crate::identity::is_name(namespace),
        info.spec.workspace.sandbox == "docker"@,
    ensures
        ({
            let rm = CommandView::Rm { id };
            let get = ActionView::Ask(EffectView::Store(StoreOpView::Get(id)));
            let found = seq![ReplyView::Fetched(Ok(info))];
            let again = found.push(ReplyView::Fetched(Ok(info)));
            let gone = again.push(ReplyView::Ran(Ok(output)));
            let forgotten = gone.push(ReplyView::Stored(Ok(())));
            &&& command::dispatched(rm, namespace, Seq::empty()) == get
            &&& command::dispatched(rm, namespace, found) == get
            &&& command::dispatched(rm, namespace, again) == ActionView::Ask(
                words(remove_words(namespace, id)),
            )
            &&& command::dispatched(rm, namespace, again.push(ReplyView::Ran(Err(error))))
                == ActionView::Finish(Err(error))
            &&& output.exit_code != 0 ==> command::dispatched(rm, namespace, gone)
                == ActionView::Finish(Err(backend_error("destroy a box"@, output)))
            &&& output.exit_code == 0 ==> {
                &&& command::dispatched(rm, namespace, gone) == ActionView::Ask(
                    EffectView::Store(StoreOpView::Remove(id)),
                )
                &&& command::dispatched(rm, namespace, forgotten) == ActionView::Ask(line(id))
                &&& command::dispatched(rm, namespace, forgotten.push(ReplyView::Wrote(Ok(()))))
                    == ActionView::Finish(Ok(0))
            }
        }),
{
    the_names_differ();
}

/// `snapshot` of a container box: its container is committed, and the image that
/// is reported, `sha256:` and a digest, is printed as `sha-` and the first
/// twelve characters of the digest.
pub proof fn a_container_box_is_captured(
    id: Seq<char>,
    namespace: Seq<char>,
    info: BoxInfoView,
    output: ExecOutputView,
    lead: Seq<char>,
    digest: Seq<char>,
    trail: Seq<char>,
    error: ErrorView,
)
    requires
        crate::identity::is_name(id),
        crate::identity::is_name(namespace),
        info.spec.workspace.sandbox == "docker"@,
        forall|i: int| 0 <= i < lead.len() ==> text::is_space(#[trigger] lead[i]),
        forall|i: int| 0 <= i < trail.len() ==> text::is_space(#[trigger] trail[i]),
        digest.len() > 0 ==> !text::is_space(digest.last()),
    ensures
        ({
            let snapshot = CommandView::Snapshot { id };
            let get = ActionView::Ask(EffectView::Store(StoreOpView::Get(id)));
            let found = seq![ReplyView::Fetched(Ok(info))];
            let again = found.push(ReplyView::Fetched(Ok(info)));
            let committed = again.push(ReplyView::Ran(Ok(output)));
            let named = "sha-"@ + digest.take(12);
            &&& command::dispatched(snapshot, namespace, Seq::empty()) == get
            &&& command::dispatched(snapshot, namespace, found) == get
            &&& command::dispatched(snapshot, namespace, again) == ActionView::Ask(
                words(seq!["docker"@, "commit"@, "tinybox-"@ + namespace + "-"@ + id]),
            )
            &&& command::dispatched(snapshot, namespace, again.push(ReplyView::Ran(Err(error))))
                == ActionView::Finish(Err(error))
            &&& output.exit_code != 0 ==> command::dispatched(snapshot, namespace, committed)
                == ActionView::Finish(Err(backend_error("snapshot a box"@, output)))
            &&& output.exit_code == 0 && text::lossy_text(output.stdout) == lead + ("sha256:"@
                + digest) + trail ==> {
                &&& digest.len() >= 12 && crate::identity::is_name(named) ==> {
                    &&& command::dispatched(snapshot, namespace, committed) == ActionView::Ask(
                        line(named),
                    )
                    &&& command::dispatched(
                        snapshot,
                        namespace,
                        committed.push(ReplyView::Wrote(Ok(()))),
                    ) == ActionView::Finish(Ok(0))
                }
                &&& digest.len() < 12 ==> command::dispatched(snapshot, namespace, committed)
                    == ActionView::Finish(
                    Err(
                        ErrorView::Backend {
                            sandbox: "docker"@,
                            operation: "snapshot a box"@,
                            message: "docker reported no image"@,
                        },
                    ),
                )
            }
        }),
{
    the_names_differ();
    docker::a_snapshot_is_named_by_its_digest(lead, digest, trail, lead, lead, lead);
    assert(docker::commit_argv(docker::container_name(namespace, id)) =~= seq![
        "docker"@,
        "commit"@,
        "tinybox-"@ + namespace + "-"@ + id,
    ]);
}

/// `fork` of a snapshot: its image is looked for, a name is allocated, a
/// container is started from that very image, and the new box is recorded as one
/// of that snapshot and its name printed. An image that is not there is an
/// unknown snapshot.
pub proof fn a_snapshot_is_forked(
    image: Seq<char>,
    namespace: Seq<char>,
    id: Seq<char>,
    found: ExecOutputView,
    output: ExecOutputView,
    error: ErrorView,
)
    requires
        crate::identity::is_name("sha-"@ + image),
        crate::identity::is_name(namespace),
    ensures
        ({
            let snapshot = "sha-"@ + image;
            let fork = CommandView::Fork { snapshot, sandbox: "docker"@ };
            let variables = Map::<Seq<char>, Seq<char>>::empty();
            let there = seq![ReplyView::Ran(Ok(found))];
            let allocated = there.push(ReplyView::Allocated(Ok(id)));
            let started = allocated.push(ReplyView::Ran(Ok(output)));
            let recorded = started.push(ReplyView::Stored(Ok(())));
            &&& command::dispatched(fork, namespace, Seq::empty()) == ActionView::Ask(
                words(seq!["docker"@, "image"@, "inspect"@, image]),
            )
            &&& command::dispatched(fork, namespace, seq![ReplyView::Ran(Err(error))])
                == ActionView::Finish(Err(error))
            &&& found.exit_code != 0 ==> command::dispatched(fork, namespace, there)
                == ActionView::Finish(Err(ErrorView::UnknownSnapshot { id: snapshot }))
            &&& found.exit_code == 0 ==> {
                &&& command::dispatched(fork, namespace, there) == ActionView::Ask(
                    EffectView::Store(StoreOpView::Allocate),
                )
                &&& command::dispatched(fork, namespace, allocated) == ActionView::Ask(
                    words(start_words(namespace, id, image, variables)),
                )
                &&& output.exit_code != 0 ==> command::dispatched(fork, namespace, started)
                    == ActionView::Finish(Err(backend_error("create a box"@, output)))
                &&& output.exit_code == 0 ==> {
                    &&& command::dispatched(fork, namespace, started) == ActionView::Ask(
                        EffectView::Store(
                            StoreOpView::Insert(
                                made(id, "docker"@, SourceView::Snapshot(snapshot), variables),
                            ),
                        ),
                    )
                    &&& command::dispatched(fork, namespace, recorded) == ActionView::Ask(line(id))
                    &&& command::dispatched(
                        fork,
                        namespace,
                        recorded.push(ReplyView::Wrote(Ok(()))),
                    ) == ActionView::Finish(Ok(0))
                }
            }
        }),
{
    the_names_differ();
    let snapshot = "sha-"@ + image;
    let variables = Map::<Seq<char>, Seq<char>>::empty();
    let info = made(id, "docker"@, SourceView::Snapshot(snapshot), variables);
    docker::a_container_starts_from_an_image(image, image, image);
    assert("sha-"@.is_prefix_of(snapshot)) by {
        assert(snapshot.take("sha-"@.len() as int) =~= "sha-"@);
    }
    assert(snapshot.skip("sha-"@.len() as int) =~= image);
    start_is_known(namespace, id, image, info.spec, variables);
}

/// A box that cannot be what was asked for is refused, by `create` and by `run`,
/// before anything is recorded or run: one in a sandbox that does not exist, in
/// a namespace that is no name, over a directory where an image is needed or the
/// other way round, over a working directory that cannot be told, or with a
/// variable that is not `KEY=VALUE`.
pub proof fn an_impossible_box_is_refused(
    sandbox: Seq<char>,
    origin: OriginView,
    entries: Seq<Seq<char>>,
    argv: Seq<Seq<char>>,
    namespace: Seq<char>,
    replies: Seq<ReplyView>,
    message: Seq<char>,
)
    ensures
        ({
            let wanted = WantedView { sandbox, origin, env: entries };
            let create = command::dispatched(CommandView::Create(wanted), namespace, replies);
            let run = command::dispatched(CommandView::Run { wanted, argv }, namespace, replies);
            let told = !(origin is Here) || (replies.len() > 0
                && replies[0] is WorkingDirectory && replies[0]->WorkingDirectory_0 is Ok);
            let known = sandbox == "passthrough"@ || (sandbox == "docker"@
                && crate::identity::is_name(namespace));
            &&& sandbox != "passthrough"@ && sandbox != "docker"@ ==> create == ActionView::Finish(
                Err(ErrorView::UnknownSandbox { name: sandbox }),
            ) && run == create
            &&& sandbox == "docker"@ && !crate::identity::is_name(namespace) ==> create
                == ActionView::Finish(
                Err(
                    ErrorView::InvalidIdentifier {
                        kind: "docker namespace"@,
                        value: namespace,
                    },
                ),
            ) && run == create
            &&& known && origin is Here && replies.len() > 0 && replies[0]
                == ReplyView::WorkingDirectory(Err(message)) ==> create == ActionView::Finish(
                Err(
                    ErrorView::Store {
                        operation: "locate"@,
                        message: "could not read the working directory: "@ + message,
                    },
                ),
            ) && run == create
            &&& known && told && command::settings(entries) is None ==> create
                == ActionView::Finish(
                Err(
                    ErrorView::Store {
                        operation: "parse"@,
                        message: "environment entries must be KEY=VALUE"@,
                    },
                ),
            ) && run == create
            &&& sandbox == "passthrough"@ && origin is Image && command::settings(entries) is Some
                ==> create == ActionView::Finish(
                Err(
                    ErrorView::Backend {
                        sandbox: "passthrough"@,
                        operation: "create a box"@,
                        message: "the workspace must be a local directory"@,
                    },
                ),
            ) && run == create
            &&& sandbox == "docker"@ && known && !(origin is Image) && told && command::settings(
                entries,
            ) is Some ==> create == ActionView::Finish(
                Err(
                    ErrorView::Backend {
                        sandbox: "docker"@,
                        operation: "create a box"@,
                        message: "the workspace must be an image or a snapshot"@,
                    },
                ),
            ) && run == create
        }),
{
    the_names_differ();
}

/// A name that is none is refused at once, whatever has been replied.
pub proof fn an_impossible_name_is_refused(
    id: Seq<char>,
    argv: Seq<Seq<char>>,
    sandbox: Seq<char>,
    namespace: Seq<char>,
    replies: Seq<ReplyView>,
)
    requires
        !crate::identity::is_name(id),
    ensures
        ({
            let no_box = ActionView::Finish(
                Err(ErrorView::InvalidIdentifier { kind: "box id"@, value: id }),
            );
            &&& command::dispatched(CommandView::Exec { id, argv }, namespace, replies) == no_box
            &&& command::dispatched(CommandView::Inspect { id }, namespace, replies) == no_box
            &&& command::dispatched(CommandView::Rm { id }, namespace, replies) == no_box
            &&& command::dispatched(CommandView::Snapshot { id }, namespace, replies) == no_box
            &&& command::dispatched(
                CommandView::Fork { snapshot: id, sandbox },
                namespace,
                replies,
            ) == ActionView::Finish(
                Err(ErrorView::InvalidIdentifier { kind: "snapshot id"@, value: id }),
            )
        }),
{
}

/// A directory box is neither captured nor forked, and a snapshot that is not
/// one of a container's is unknown.
pub proof fn what_is_not_declared_is_refused(
    id: Seq<char>,
    snapshot: Seq<char>,
    namespace: Seq<char>,
    info: BoxInfoView,
    replies: Seq<ReplyView>,
)
    requires
        crate::identity::is_name(id),
        crate::identity::is_name(snapshot),
        info.spec.workspace.sandbox == "passthrough"@,
    ensures
        command::dispatched(
            CommandView::Snapshot { id },
            namespace,
            seq![ReplyView::Fetched(Ok(info))] + replies,
        ) == ActionView::Finish(
            Err(
                ErrorView::Unsupported {
                    sandbox: "passthrough"@,
                    capability: crate::capability::Capability::FilesystemSnapshot,
                },
            ),
        ),
        command::dispatched(
            CommandView::Fork { snapshot, sandbox: "passthrough"@ },
            namespace,
            replies,
        ) == ActionView::Finish(
            Err(
                ErrorView::Unsupported {
                    sandbox: "passthrough"@,
                    capability: crate::capability::Capability::Fork,
                },
            ),
        ),
        crate::identity::is_name(namespace) && !"sha-"@.is_prefix_of(snapshot)
            ==> command::dispatched(
            CommandView::Fork { snapshot, sandbox: "docker"@ },
            namespace,
            replies,
        ) == ActionView::Finish(Err(ErrorView::UnknownSnapshot { id: snapshot })),
{
    the_names_differ();
}

/// A command without a program is refused in a container, and nothing is asked
/// of the container.
pub proof fn a_container_needs_a_program(
    id: Seq<char>,
    namespace: Seq<char>,
    info: BoxInfoView,
    replies: Seq<ReplyView>,
)
    requires
        crate::identity::is_name(id),
        crate::identity::is_name(namespace),
        info.spec.workspace.sandbox == "docker"@,
    ensures
        command::dispatched(
            CommandView::Exec { id, argv: Seq::empty() },
            namespace,
            seq![ReplyView::Fetched(Ok(info))] + replies,
        ) == ActionView::Finish(Err(ErrorView::EmptyCommand { sandbox: "docker"@ })),
{
    the_names_differ();
}

/// What an invocation comes to: a code is the exit code, and an error is
/// reported with code 70.
pub proof fn an_invocation_is_concluded(
    command: CommandView,
    namespace: Seq<char>,
    replies: Seq<ReplyView>,
    effect: EffectView,
    code: u8,
    error: ErrorView,
)
    ensures
        ({
            let action = command::dispatched(command, namespace, replies);
            let running = command::runs(command, namespace, replies);
            &&& action == ActionView::Ask(effect) ==> running == command::RunningView::Ask(effect)
            &&& action == ActionView::Finish(Ok(code)) ==> running == command::RunningView::Exit(
                code,
                None,
            )
            &&& action == ActionView::Finish(Err(error)) ==> running == command::RunningView::Exit(
                70,
                Some("error: "@ + error.text() + "\n"@),
            )
        }),
{
}

/// The numbers and names that others rely on.
pub proof fn the_constants_are_known()
    ensures
        command::EXIT_TINYBOX_ERROR == 70,
        crate::local::EXIT_CODE_UNAVAILABLE == 128,
        crate::local::NAME@ == "local"@,
        crate::ssh::NAME@ == "ssh"@,
        crate::passthrough::NAME@ == "passthrough"@,
        docker::NAME@ == "docker"@,
        docker::DEFAULT_NAMESPACE@ == "default"@,
        crate::forward::LISTEN_TIMEOUT_SECS == 10,
        crate::forward::POLL_INTERVAL_MILLIS == 50,
        crate::module::VERSION@ == "0.1.0"@,
        crate::module::INTERFACE@ == "ai.tinyhumans.tinybox.Box"@,
{
}

} // verus!
