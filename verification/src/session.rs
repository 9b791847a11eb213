//! Whole invocations, against the records.
//!
//! Nothing here runs. It states what the commands come to when their effects
//! are performed: the recorded boxes answer as a store does, and everything
//! else answers as it likes.

use vstd::prelude::*;

use crate::backend;
use crate::backend::BackendView;
use crate::box_spec::{BoxSpecView, SourceView};
use crate::capability::Capability;
use crate::command;
use crate::command::{ActionView, CommandView, OriginView, WantedView};
use crate::conversation::{EffectView, ProgressView, ReplyView, StoreOpView};
use crate::docker;
use crate::error::ErrorView;
use crate::passthrough;
use crate::runtime::{BoxInfoView, BoxState, ExecOutputView, ExecRequestView};
use crate::store;
use crate::text;

verus! {

/// How the outside answers what is not about the records.
pub type Answers = spec_fn(Seq<ReplyView>, EffectView) -> ReplyView;

/// The outside answers what it is asked, well or badly.
pub open spec fn is_obliging(answers: Answers) -> bool {
    forall|replies: Seq<ReplyView>, effect: EffectView|
        match effect {
            EffectView::WorkingDirectory => #[trigger] answers(replies, effect) is WorkingDirectory,
            EffectView::Run(_) => answers(replies, effect) is Ran,
            EffectView::WriteOut(_) | EffectView::WriteErr(_) => answers(replies, effect) is Wrote,
            EffectView::Store(_) => true,
        }
}

/// The answer to an effect.
pub open spec fn answer(
    records: Map<Seq<char>, BoxInfoView>,
    answers: Answers,
    replies: Seq<ReplyView>,
    effect: EffectView,
) -> ReplyView {
    match effect {
        EffectView::Store(op) => store::records_reply(records, op),
        _ => answers(replies, effect),
    }
}

/// What an effect makes of the records.
pub open spec fn records_left(records: Map<Seq<char>, BoxInfoView>, effect: EffectView) -> Map<
    Seq<char>,
    BoxInfoView,
> {
    match effect {
        EffectView::Store(op) => store::records_after(records, op),
        _ => records,
    }
}

/// Where an invocation stands.
pub struct Session {
    /// What it does next.
    pub action: ActionView,
    /// The records at that point.
    pub records: Map<Seq<char>, BoxInfoView>,
}

/// Where a command stands after at most `steps` more effects.
pub open spec fn session(
    command: CommandView,
    namespace: Seq<char>,
    records: Map<Seq<char>, BoxInfoView>,
    answers: Answers,
    replies: Seq<ReplyView>,
    steps: nat,
) -> Session
    decreases steps,
{
    let action = command::dispatched(command, namespace, replies);
    match action {
        ActionView::Ask(effect) if steps > 0 => session(
            command,
            namespace,
            records_left(records, effect),
            answers,
            replies.push(answer(records, answers, replies, effect)),
            (steps - 1) as nat,
        ),
        _ => Session { action, records },
    }
}

/// Whether a command only looks, as far as the records go.
pub open spec fn only_looks(command: CommandView) -> bool {
    match command {
        CommandView::Exec { .. } | CommandView::Ls | CommandView::Inspect { .. }
        | CommandView::Snapshot { .. } => true,
        _ => false,
    }
}

/// A command that only looks asks for no change of the records.
proof fn looking_asks_for_no_change(
    command: CommandView,
    namespace: Seq<char>,
    replies: Seq<ReplyView>,
    op: StoreOpView,
)
    requires
        only_looks(command),
        command::dispatched(command, namespace, replies) == ActionView::Ask(EffectView::Store(op)),
    ensures
        !store::changes(op),
{
}

/// `exec`, `ls`, `inspect` and `snapshot` leave the records as they are,
/// whatever the outside answers.
pub proof fn looking_changes_nothing(
    command: CommandView,
    namespace: Seq<char>,
    records: Map<Seq<char>, BoxInfoView>,
    answers: Answers,
    replies: Seq<ReplyView>,
    steps: nat,
)
    requires
        only_looks(command),
    ensures
        session(command, namespace, records, answers, replies, steps).records == records,
    decreases steps,
{
    match command::dispatched(command, namespace, replies) {
        ActionView::Ask(effect) if steps > 0 => {
            if let EffectView::Store(op) = effect {
                looking_asks_for_no_change(command, namespace, replies, op);
            }
            looking_changes_nothing(
                command,
                namespace,
                records_left(records, effect),
                answers,
                replies.push(answer(records, answers, replies, effect)),
                (steps - 1) as nat,
            );
        },
        _ => {},
    }
}

/// An identifier that is no name is refused before anything is asked, so it
/// never reaches the store.
pub proof fn an_invalid_identifier_is_refused_at_once(
    id: Seq<char>,
    argv: Seq<Seq<char>>,
    namespace: Seq<char>,
    replies: Seq<ReplyView>,
)
    requires
        !crate::identity::is_name(id),
    ensures
        ({
            let refusal = ActionView::Finish(Err(crate::error::invalid_name("box id"@, id)));
            &&& command::dispatched(CommandView::Exec { id, argv }, namespace, replies) == refusal
            &&& command::dispatched(CommandView::Inspect { id }, namespace, replies) == refusal
            &&& command::dispatched(CommandView::Rm { id }, namespace, replies) == refusal
            &&& command::dispatched(CommandView::Snapshot { id }, namespace, replies) == refusal
        }),
{
}

/// A box that is not recorded is an error, and nothing is done to find that
/// out but to read the records.
pub proof fn an_unknown_box_is_an_error(
    id: Seq<char>,
    argv: Seq<Seq<char>>,
    namespace: Seq<char>,
    records: Map<Seq<char>, BoxInfoView>,
    answers: Answers,
)
    requires
        crate::identity::is_name(id),
        !records.contains_key(id),
    ensures
        ({
            let refused = Session {
                action: ActionView::Finish(Err(ErrorView::UnknownBox { id })),
                records,
            };
            let none = Seq::<ReplyView>::empty();
            &&& session(CommandView::Exec { id, argv }, namespace, records, answers, none, 1)
                == refused
            &&& session(CommandView::Inspect { id }, namespace, records, answers, none, 1)
                == refused
            &&& session(CommandView::Rm { id }, namespace, records, answers, none, 1) == refused
            &&& session(CommandView::Snapshot { id }, namespace, records, answers, none, 1)
                == refused
        }),
{
    reveal_with_fuel(session, 2);
}

/// A record that names a sandbox this build does not have is refused, and
/// nothing is run.
pub proof fn an_unknown_sandbox_is_refused(
    id: Seq<char>,
    argv: Seq<Seq<char>>,
    namespace: Seq<char>,
    records: Map<Seq<char>, BoxInfoView>,
    answers: Answers,
)
    requires
        crate::identity::is_name(id),
        records.contains_key(id),
        records[id].spec.workspace.sandbox != "passthrough"@,
        records[id].spec.workspace.sandbox != "docker"@,
    ensures
        ({
            let refused = Session {
                action: ActionView::Finish(
                    Err(ErrorView::UnknownSandbox { name: records[id].spec.workspace.sandbox }),
                ),
                records,
            };
            let none = Seq::<ReplyView>::empty();
            &&& session(CommandView::Exec { id, argv }, namespace, records, answers, none, 1)
                == refused
            &&& session(CommandView::Inspect { id }, namespace, records, answers, none, 1)
                == refused
            &&& session(CommandView::Rm { id }, namespace, records, answers, none, 1) == refused
            &&& session(CommandView::Snapshot { id }, namespace, records, answers, none, 1)
                == refused
        }),
{
    reveal_with_fuel(session, 2);
}

/// Capturing a box of a sandbox that declares no snapshots is refused by name,
/// and nothing is run.
pub proof fn a_snapshot_is_refused_rather_than_faked(
    id: Seq<char>,
    namespace: Seq<char>,
    records: Map<Seq<char>, BoxInfoView>,
    answers: Answers,
)
    requires
        crate::identity::is_name(id),
        records.contains_key(id),
        records[id].spec.workspace.sandbox == "passthrough"@,
    ensures
        session(
            CommandView::Snapshot { id },
            namespace,
            records,
            answers,
            Seq::empty(),
            1,
        ) == (Session {
            action: ActionView::Finish(
                Err(crate::error::unsupported("passthrough"@, Capability::FilesystemSnapshot)),
            ),
            records,
        }),
{
    reveal_with_fuel(session, 2);
}

/// A malformed variable is refused before anything is recorded or run: at most
/// the working directory is asked for.
pub proof fn a_malformed_variable_creates_nothing(
    wanted: WantedView,
    argv: Seq<Seq<char>>,
    namespace: Seq<char>,
    replies: Seq<ReplyView>,
)
    requires
        command::settings(wanted.env) is None,
    ensures
        ({
            let created = command::dispatched(CommandView::Create(wanted), namespace, replies);
            let ran = command::dispatched(CommandView::Run { wanted, argv }, namespace, replies);
            &&& created == ran
            &&& created == ActionView::Ask(EffectView::WorkingDirectory) || (created is Finish
                && created->Finish_0 is Err)
            &&& !(wanted.origin is Here) && backend::named_backend(wanted.sandbox, namespace) is Ok
                ==> created == ActionView::Finish(Err(command::malformed_setting()))
        }),
{
}

/// However `run` ends once its box was made, the box has been destroyed as far
/// as its sandbox could, and a success means that it was.
pub proof fn a_run_ends_by_destroying_its_box(
    wanted: WantedView,
    argv: Seq<Seq<char>>,
    namespace: Seq<char>,
    replies: Seq<ReplyView>,
    info: BoxInfoView,
    made: int,
)
    requires
        command::making(wanted, namespace, replies, 0) == ProgressView::Done(info, made),
        command::dispatched(CommandView::Run { wanted, argv }, namespace, replies) is Finish,
    ensures
        ({
            let sandbox = backend::named_backend(wanted.sandbox, namespace)->Ok_0;
            let used = sandbox.executing(
                info.id,
                crate::runtime::plain_request(argv),
                replies,
                made,
            );
            let next = match used {
                ProgressView::Done(_, next) => next,
                ProgressView::Failed(_, next) => next,
                ProgressView::Ask(_) => made,
            };
            let destroyed = sandbox.destroying(info.id, replies, next);
            &&& !(used is Ask)
            &&& !(destroyed is Ask)
            &&& command::dispatched(
                CommandView::Run { wanted, argv },
                namespace,
                replies,
            )->Finish_0 is Ok ==> destroyed is Done
        }),
{
}

/// What an obliging outside answers has the shape of what it was asked.
proof fn an_answer_fits(answers: Answers, replies: Seq<ReplyView>, effect: EffectView)
    requires
        is_obliging(answers),
    ensures
        effect is WorkingDirectory ==> answers(replies, effect) is WorkingDirectory,
        effect is Run ==> answers(replies, effect) is Ran,
        effect is WriteOut || effect is WriteErr ==> answers(replies, effect) is Wrote,
{
}

/// One step of a session.
proof fn step(
    command: CommandView,
    namespace: Seq<char>,
    records: Map<Seq<char>, BoxInfoView>,
    answers: Answers,
    replies: Seq<ReplyView>,
    steps: nat,
    effect: EffectView,
)
    requires
        command::dispatched(command, namespace, replies) == ActionView::Ask(effect),
        steps > 0,
    ensures
        session(command, namespace, records, answers, replies, steps) == session(
            command,
            namespace,
            records_left(records, effect),
            answers,
            replies.push(answer(records, answers, replies, effect)),
            (steps - 1) as nat,
        ),
{
}

/// The reply that an effect gets the first time it is asked for, if it is.
#[verifier::opaque]
pub open spec fn reply_to(
    asked: EffectView,
    command: CommandView,
    namespace: Seq<char>,
    records: Map<Seq<char>, BoxInfoView>,
    answers: Answers,
    replies: Seq<ReplyView>,
    steps: nat,
) -> Option<ReplyView>
    decreases steps,
{
    match command::dispatched(command, namespace, replies) {
        ActionView::Ask(effect) if steps > 0 => {
            let reply = answer(records, answers, replies, effect);
            if effect == asked {
                Some(reply)
            } else {
                reply_to(
                    asked,
                    command,
                    namespace,
                    records_left(records, effect),
                    answers,
                    replies.push(reply),
                    (steps - 1) as nat,
                )
            }
        },
        _ => None,
    }
}

/// One step on the way to the reply that an effect gets.
proof fn reply_step(
    asked: EffectView,
    command: CommandView,
    namespace: Seq<char>,
    records: Map<Seq<char>, BoxInfoView>,
    answers: Answers,
    replies: Seq<ReplyView>,
    steps: nat,
    effect: EffectView,
)
    requires
        command::dispatched(command, namespace, replies) == ActionView::Ask(effect),
        steps > 0,
    ensures
        ({
            let reply = answer(records, answers, replies, effect);
            reply_to(asked, command, namespace, records, answers, replies, steps) == if effect
                == asked {
                Some(reply)
            } else {
                reply_to(
                    asked,
                    command,
                    namespace,
                    records_left(records, effect),
                    answers,
                    replies.push(reply),
                    (steps - 1) as nat,
                )
            }
        }),
{
    reveal(reply_to);
}

/// What is over asks for nothing more.
proof fn no_reply(
    asked: EffectView,
    command: CommandView,
    namespace: Seq<char>,
    records: Map<Seq<char>, BoxInfoView>,
    answers: Answers,
    replies: Seq<ReplyView>,
    steps: nat,
)
    requires
        command::dispatched(command, namespace, replies) is Finish,
    ensures
        reply_to(asked, command, namespace, records, answers, replies, steps) is None,
{
    reveal(reply_to);
}

/// A command was run, and exited with zero.
pub open spec fn is_success(reply: ReplyView) -> bool {
    reply is Ran && reply->Ran_0 is Ok && reply->Ran_0->Ok_0.exit_code == 0
}

/// The replies by which a directory box is specified, and what it is to be.
pub open spec fn specified_by(wanted: WantedView, start: Seq<ReplyView>, spec: BoxSpecView) -> bool {
    &&& wanted.sandbox == "passthrough"@
    &&& spec.source is LocalDir
    &&& match wanted.origin {
        OriginView::Here => {
            &&& start.len() == 1
            &&& start[0] matches ReplyView::WorkingDirectory(Ok(path))
            &&& command::specified(wanted.sandbox, SourceView::LocalDir(path), wanted.env) == Ok::<
                BoxSpecView,
                ErrorView,
            >(spec)
        },
        OriginView::Dir(path) => {
            &&& start.len() == 0
            &&& command::specified(wanted.sandbox, SourceView::LocalDir(path), wanted.env) == Ok::<
                BoxSpecView,
                ErrorView,
            >(spec)
        },
        OriginView::Image(_) => false,
    }
}

/// From the point where a directory box is specified, making it allocates a
/// name and records it.
proof fn making_records(
    command: CommandView,
    wanted: WantedView,
    namespace: Seq<char>,
    boxes: Seq<(Seq<char>, BoxInfoView)>,
    answers: Answers,
    start: Seq<ReplyView>,
    spec: BoxSpecView,
    steps: nat,
)
    requires
        specified_by(wanted, start, spec),
        command == CommandView::Create(wanted) || (command matches CommandView::Run {
            wanted: used,
            argv,
        } && used == wanted),
        steps >= 2,
    ensures
        ({
            let records = crate::ordered::map_of(boxes);
            let id = store::lowest_free_name(records);
            let info = BoxInfoView { id, state: BoxState::Ready, spec };
            let replies = start.push(ReplyView::Allocated(Ok(id))).push(
                ReplyView::Stored(Ok(())),
            );
            &&& !records.contains_key(id)
            &&& command::making(wanted, namespace, replies, 0) == ProgressView::Done(
                info,
                (start.len() + 2) as int,
            )
            &&& session(command, namespace, records, answers, start, steps) == session(
                command,
                namespace,
                records.insert(id, info),
                answers,
                replies,
                (steps - 2) as nat,
            )
        }),
{
    let records = crate::ordered::map_of(boxes);
    let id = store::lowest_free_name(records);
    let info = BoxInfoView { id, state: BoxState::Ready, spec };
    store::a_name_is_always_free(boxes);
    let first = start.push(ReplyView::Allocated(Ok(id)));
    step(
        command,
        namespace,
        records,
        answers,
        start,
        steps,
        EffectView::Store(StoreOpView::Allocate),
    );
    step(
        command,
        namespace,
        records,
        answers,
        first,
        (steps - 1) as nat,
        EffectView::Store(StoreOpView::Insert(info)),
    );
}

/// More effects than any of these invocations asks for.
pub open spec fn enough_steps() -> nat {
    12
}

/// The directory that a box is over: the one that was named, or the one that
/// the process is in.
pub open spec fn is_over(wanted: WantedView, answers: Answers, path: Seq<char>) -> bool {
    match wanted.origin {
        OriginView::Dir(dir) => dir == path,
        OriginView::Here => answers(Seq::empty(), EffectView::WorkingDirectory)
            == ReplyView::WorkingDirectory(Ok(path)),
        OriginView::Image(_) => false,
    }
}

/// What a directory box is to be.
pub open spec fn over(path: Seq<char>, env: Map<Seq<char>, Seq<char>>) -> BoxSpecView {
    BoxSpecView {
        env,
        ..crate::box_spec::plain_spec(
            command::placed_here("passthrough"@),
            SourceView::LocalDir(path),
        )
    }
}

/// `create` records the box it was asked for under the lowest free name, as
/// ready, and nothing else, whether or not it can then announce it. The next
/// process finds it there.
pub proof fn a_created_box_is_recorded(
    wanted: WantedView,
    path: Seq<char>,
    env: Map<Seq<char>, Seq<char>>,
    namespace: Seq<char>,
    boxes: Seq<(Seq<char>, BoxInfoView)>,
    answers: Answers,
)
    requires
        wanted.sandbox == "passthrough"@,
        is_over(wanted, answers, path),
        command::settings(wanted.env) == Some(env),
        is_obliging(answers),
    ensures
        ({
            let records = crate::ordered::map_of(boxes);
            let id = store::lowest_free_name(records);
            let end = session(
                CommandView::Create(wanted),
                namespace,
                records,
                answers,
                Seq::empty(),
                enough_steps(),
            );
            &&& end.action is Finish
            &&& !records.contains_key(id)
            &&& end.records == records.insert(
                id,
                BoxInfoView { id, state: BoxState::Ready, spec: over(path, env) },
            )
        }),
{
    let command = CommandView::Create(wanted);
    let records = crate::ordered::map_of(boxes);
    let id = store::lowest_free_name(records);
    let spec = over(path, env);
    let info = BoxInfoView { id, state: BoxState::Ready, spec };
    let none = Seq::<ReplyView>::empty();
    let here = wanted.origin is Here;
    if here {
        step(command, namespace, records, answers, none, 12, EffectView::WorkingDirectory);
    }
    let start = if here {
        none.push(ReplyView::WorkingDirectory(Ok(path)))
    } else {
        none
    };
    let steps: nat = if here {
        11
    } else {
        12
    };
    making_records(command, wanted, namespace, boxes, answers, start, spec, steps);
    announcing_ends(
        wanted,
        namespace,
        records.insert(id, info),
        answers,
        start.push(ReplyView::Allocated(Ok(id))).push(ReplyView::Stored(Ok(()))),
        id,
        (steps - 2) as nat,
    );
}

/// Announcing a directory box changes no record, and ends.
proof fn announcing_ends(
    wanted: WantedView,
    namespace: Seq<char>,
    records: Map<Seq<char>, BoxInfoView>,
    answers: Answers,
    replies: Seq<ReplyView>,
    id: Seq<char>,
    steps: nat,
)
    requires
        wanted.sandbox == "passthrough"@,
        wanted.origin is Dir ==> replies.len() == 2,
        wanted.origin is Here ==> replies.len() == 3,
        !(wanted.origin is Image),
        command::making(wanted, namespace, replies, 0) matches ProgressView::Done(info, next)
            && info.id == id && next == replies.len(),
        is_obliging(answers),
        steps >= 2,
    ensures
        ({
            let end = session(
                CommandView::Create(wanted),
                namespace,
                records,
                answers,
                replies,
                steps,
            );
            end.records == records && end.action is Finish
        }),
{
    let command = CommandView::Create(wanted);
    let told = EffectView::WriteOut(vstd::utf8::encode_utf8(id + "\n"@));
    an_answer_fits(answers, replies, told);
    step(command, namespace, records, answers, replies, steps, told);
    let more = replies.push(answers(replies, told));
    let warned = EffectView::WriteErr(
        vstd::utf8::encode_utf8(command::warning_text("passthrough"@)),
    );
    if answers(replies, told)->Wrote_0 is Ok {
        an_answer_fits(answers, more, warned);
        step(command, namespace, records, answers, more, (steps - 1) as nat, warned);
    }
}

/// Using a directory box once destroys it and ends.
proof fn using_destroys(
    wanted: WantedView,
    argv: Seq<Seq<char>>,
    namespace: Seq<char>,
    records: Map<Seq<char>, BoxInfoView>,
    answers: Answers,
    replies: Seq<ReplyView>,
    info: BoxInfoView,
    steps: nat,
)
    requires
        wanted.sandbox == "passthrough"@,
        !(wanted.origin is Image),
        wanted.origin is Dir ==> replies.len() == 2,
        wanted.origin is Here ==> replies.len() == 3,
        command::making(wanted, namespace, replies, 0) == ProgressView::Done(
            info,
            replies.len() as int,
        ),
        info.state is Ready,
        records.contains_key(info.id),
        records[info.id] == info,
        is_obliging(answers),
        steps >= 5,
    ensures
        session(
            CommandView::Run { wanted, argv },
            namespace,
            records,
            answers,
            replies,
            steps,
        ).records == records.remove(info.id),
        session(
            CommandView::Run { wanted, argv },
            namespace,
            records,
            answers,
            replies,
            steps,
        ).action is Finish,
{
    let command = CommandView::Run { wanted, argv };
    let fetch = EffectView::Store(StoreOpView::Get(info.id));
    step(command, namespace, records, answers, replies, steps, fetch);
    let fetched = replies.push(ReplyView::Fetched(Ok(info)));
    let run = EffectView::Run(
        passthrough::in_workspace(info.spec, crate::runtime::plain_request(argv)),
    );
    an_answer_fits(answers, fetched, run);
    step(command, namespace, records, answers, fetched, (steps - 1) as nat, run);
    let ran = fetched.push(answers(fetched, run));
    let forget = EffectView::Store(StoreOpView::Remove(info.id));
    step(command, namespace, records, answers, ran, (steps - 2) as nat, forget);
    let left = records.remove(info.id);
    let forgotten = ran.push(ReplyView::Stored(Ok(())));
    if answers(fetched, run)->Ran_0 is Ok {
        let output = answers(fetched, run)->Ran_0->Ok_0;
        let told = EffectView::WriteOut(output.stdout);
        an_answer_fits(answers, forgotten, told);
        step(command, namespace, left, answers, forgotten, (steps - 3) as nat, told);
        let more = forgotten.push(answers(forgotten, told));
        if answers(forgotten, told)->Wrote_0 is Ok {
            let complained = EffectView::WriteErr(output.stderr);
            an_answer_fits(answers, more, complained);
            step(command, namespace, left, answers, more, (steps - 4) as nat, complained);
        }
    }
}

/// `run` leaves nothing behind: whatever becomes of the command, the records
/// are in the end what they were.
pub proof fn a_run_leaves_nothing_behind(
    wanted: WantedView,
    argv: Seq<Seq<char>>,
    namespace: Seq<char>,
    boxes: Seq<(Seq<char>, BoxInfoView)>,
    answers: Answers,
)
    requires
        wanted.sandbox == "passthrough"@,
        is_obliging(answers),
    ensures
        ({
            let records = crate::ordered::map_of(boxes);
            let end = session(
                CommandView::Run { wanted, argv },
                namespace,
                records,
                answers,
                Seq::empty(),
                enough_steps(),
            );
            &&& end.action is Finish
            &&& end.records == records
        }),
{
    let command = CommandView::Run { wanted, argv };
    let records = crate::ordered::map_of(boxes);
    let none = Seq::<ReplyView>::empty();
    match wanted.origin {
        OriginView::Dir(path) => {
            if command::settings(wanted.env) is Some {
                running_from(wanted, argv, namespace, boxes, answers, none, path, 12);
            }
        },
        OriginView::Here => {
            an_answer_fits(answers, none, EffectView::WorkingDirectory);
            step(
                command,
                namespace,
                records,
                answers,
                none,
                12,
                EffectView::WorkingDirectory,
            );
            let reply = answers(none, EffectView::WorkingDirectory);
            if reply->WorkingDirectory_0 is Ok && command::settings(wanted.env) is Some {
                running_from(
                    wanted,
                    argv,
                    namespace,
                    boxes,
                    answers,
                    none.push(reply),
                    reply->WorkingDirectory_0->Ok_0,
                    11,
                );
            }
        },
        OriginView::Image(_) => {},
    }
}

/// From the point where its box is specified, `run` makes it, uses it and
/// destroys it.
proof fn running_from(
    wanted: WantedView,
    argv: Seq<Seq<char>>,
    namespace: Seq<char>,
    boxes: Seq<(Seq<char>, BoxInfoView)>,
    answers: Answers,
    start: Seq<ReplyView>,
    path: Seq<char>,
    steps: nat,
)
    requires
        wanted.sandbox == "passthrough"@,
        is_obliging(answers),
        command::settings(wanted.env) is Some,
        steps >= 7,
        match wanted.origin {
            OriginView::Dir(given) => given == path && start.len() == 0,
            OriginView::Here => start.len() == 1 && start[0] is WorkingDirectory
                && start[0]->WorkingDirectory_0 == Ok::<Seq<char>, Seq<char>>(path),
            OriginView::Image(_) => false,
        },
    ensures
        session(
            CommandView::Run { wanted, argv },
            namespace,
            crate::ordered::map_of(boxes),
            answers,
            start,
            steps,
        ).records == crate::ordered::map_of(boxes),
        session(
            CommandView::Run { wanted, argv },
            namespace,
            crate::ordered::map_of(boxes),
            answers,
            start,
            steps,
        ).action is Finish,
{
    let command = CommandView::Run { wanted, argv };
    let records = crate::ordered::map_of(boxes);
    let id = store::lowest_free_name(records);
    let spec = command::specified(wanted.sandbox, SourceView::LocalDir(path), wanted.env)->Ok_0;
    let info = BoxInfoView { id, state: BoxState::Ready, spec };
    making_records(command, wanted, namespace, boxes, answers, start, spec, steps);
    let replies = start.push(ReplyView::Allocated(Ok(id))).push(ReplyView::Stored(Ok(())));
    let recorded = records.insert(id, info);
    using_destroys(
        wanted,
        argv,
        namespace,
        recorded,
        answers,
        replies,
        info,
        (steps - 2) as nat,
    );
    assert(recorded.remove(id) =~= records);
}

/// `exec` runs the command in the directory of the box, with its variables, and
/// a command that fails is a result: its output is passed on, and its status is
/// the exit code.
pub proof fn an_executed_command_is_a_result(
    id: Seq<char>,
    argv: Seq<Seq<char>>,
    namespace: Seq<char>,
    info: BoxInfoView,
    path: Seq<char>,
    output: ExecOutputView,
)
    requires
        crate::identity::is_name(id),
        info.state is Ready,
        info.spec.workspace.sandbox == "passthrough"@,
        info.spec.source == SourceView::LocalDir(path),
    ensures
        ({
            let command = CommandView::Exec { id, argv };
            let found = seq![ReplyView::Fetched(Ok(info)), ReplyView::Fetched(Ok(info))];
            let ran = found.push(ReplyView::Ran(Ok(output)));
            let told = ran.push(ReplyView::Wrote(Ok(())));
            let request = passthrough::in_workspace(
                info.spec,
                crate::runtime::plain_request(argv),
            );
            &&& request.argv == argv
            &&& request.cwd == Some(path)
            &&& request.env == info.spec.env
            &&& command::dispatched(command, namespace, found) == ActionView::Ask(
                EffectView::Run(request),
            )
            &&& command::dispatched(command, namespace, ran) == ActionView::Ask(
                EffectView::WriteOut(output.stdout),
            )
            &&& command::dispatched(command, namespace, told) == ActionView::Ask(
                EffectView::WriteErr(output.stderr),
            )
            &&& command::dispatched(
                command,
                namespace,
                told.push(ReplyView::Wrote(Ok(()))),
            ) == ActionView::Finish(Ok(command::exit_byte(output.exit_code)))
        }),
{
    let request = passthrough::in_workspace(info.spec, crate::runtime::plain_request(argv));
    assert(request.env =~= info.spec.env);
}

/// `rm` forgets the box, and no other.
pub proof fn a_removed_box_is_forgotten(
    id: Seq<char>,
    namespace: Seq<char>,
    records: Map<Seq<char>, BoxInfoView>,
    answers: Answers,
)
    requires
        crate::identity::is_name(id),
        records.contains_key(id),
        records[id].spec.workspace.sandbox == "passthrough"@,
        is_obliging(answers),
    ensures
        ({
            let end = session(
                CommandView::Rm { id },
                namespace,
                records,
                answers,
                Seq::empty(),
                enough_steps(),
            );
            &&& end.action is Finish
            &&& end.records == records.remove(id)
        }),
{
    let command = CommandView::Rm { id };
    let none = Seq::<ReplyView>::empty();
    step(
        command,
        namespace,
        records,
        answers,
        none,
        12,
        EffectView::Store(StoreOpView::Get(id)),
    );
    let found = none.push(ReplyView::Fetched(Ok(records[id])));
    step(
        command,
        namespace,
        records,
        answers,
        found,
        11,
        EffectView::Store(StoreOpView::Remove(id)),
    );
    let forgotten = found.push(ReplyView::Stored(Ok(())));
    let told = EffectView::WriteOut(vstd::utf8::encode_utf8(id + "\n"@));
    an_answer_fits(answers, forgotten, told);
    step(command, namespace, records.remove(id), answers, forgotten, 10, told);
}

/// What a container box is to be.
pub open spec fn contained(image: Seq<char>, env: Map<Seq<char>, Seq<char>>) -> BoxSpecView {
    BoxSpecView {
        env,
        ..crate::box_spec::plain_spec(command::placed_here("docker"@), SourceView::OciImage(image))
    }
}

/// The removal of a box's container.
pub open spec fn removal(namespace: Seq<char>, id: Seq<char>) -> EffectView {
    EffectView::Run(
        crate::runtime::plain_request(docker::rm_argv(docker::container_name(namespace, id))),
    )
}

/// How `run` ends once its container is recorded: the record stays exactly if
/// the container could not be removed, and that is a failure.
pub open spec fn is_cleaned_up(
    command: CommandView,
    namespace: Seq<char>,
    records: Map<Seq<char>, BoxInfoView>,
    answers: Answers,
    replies: Seq<ReplyView>,
    id: Seq<char>,
    steps: nat,
) -> bool {
    let end = session(command, namespace, records, answers, replies, steps);
    let reply = reply_to(
        removal(namespace, id),
        command,
        namespace,
        records,
        answers,
        replies,
        steps,
    );
    &&& end.action is Finish
    &&& reply is Some
    &&& if is_success(reply->0) {
        end.records == records.remove(id)
    } else {
        end.records == records && end.action->Finish_0 is Err
    }
}

/// No other command of a container is its removal.
proof fn removal_is_another_command(
    namespace: Seq<char>,
    id: Seq<char>,
    image: Seq<char>,
    spec: BoxSpecView,
    request: ExecRequestView,
)
    ensures
        ({
            let name = docker::container_name(namespace, id);
            let rm = removal(namespace, id);
            &&& rm != EffectView::Run(
                crate::runtime::plain_request(docker::run_argv(name, image, spec)),
            )
            &&& rm != EffectView::Run(crate::runtime::plain_request(docker::status_argv(name)))
            &&& rm != EffectView::Run(docker::exec_request(name, request))
        }),
{
    let name = docker::container_name(namespace, id);
    reveal_strlit("rm");
    reveal_strlit("run");
    reveal_strlit("inspect");
    reveal_strlit("exec");
    assert(docker::rm_argv(name)[1].len() == 2);
    assert(docker::run_argv(name, image, spec)[1].len() == 3);
    assert(docker::status_argv(name)[1].len() == 7);
    assert(docker::exec_argv(name, request)[1].len() == 4);
}

/// From the point where its container is recorded, `run` uses the box and
/// destroys it.
proof fn using_a_container_destroys(
    wanted: WantedView,
    argv: Seq<Seq<char>>,
    namespace: Seq<char>,
    records: Map<Seq<char>, BoxInfoView>,
    answers: Answers,
    replies: Seq<ReplyView>,
    info: BoxInfoView,
)
    requires
        wanted.sandbox == "docker"@,
        wanted.origin is Image,
        replies.len() == 3,
        command::making(wanted, namespace, replies, 0) == ProgressView::Done(info, 3int),
        records.contains_key(info.id),
        records[info.id] == info,
        is_obliging(answers),
    ensures
        is_cleaned_up(
            CommandView::Run { wanted, argv },
            namespace,
            records,
            answers,
            replies,
            info.id,
            9,
        ),
{
    let command = CommandView::Run { wanted, argv };
    let name = docker::container_name(namespace, info.id);
    let request = crate::runtime::plain_request(argv);
    let rm = removal(namespace, info.id);
    let fetch = EffectView::Store(StoreOpView::Get(info.id));
    removal_is_another_command(namespace, info.id, Seq::empty(), info.spec, request);
    if argv.len() == 0 {
        destroying_a_container(command, namespace, records, answers, replies, info, 9);
    } else {
        step(command, namespace, records, answers, replies, 9, fetch);
        reply_step(rm, command, namespace, records, answers, replies, 9, fetch);
        let fetched = replies.push(ReplyView::Fetched(Ok(info)));
        let look = EffectView::Run(crate::runtime::plain_request(docker::status_argv(name)));
        an_answer_fits(answers, fetched, look);
        step(command, namespace, records, answers, fetched, 8, look);
        reply_step(rm, command, namespace, records, answers, fetched, 8, look);
        let looked = fetched.push(answers(fetched, look));
        let status = answers(fetched, look)->Ran_0;
        if status is Ok && status->Ok_0.exit_code == 0 && docker::state_of(
            text::lossy_text(status->Ok_0.stdout),
        ) is Ready {
            let run = EffectView::Run(docker::exec_request(name, request));
            an_answer_fits(answers, looked, run);
            step(command, namespace, records, answers, looked, 7, run);
            reply_step(rm, command, namespace, records, answers, looked, 7, run);
            let ran = looked.push(answers(looked, run));
            destroying_a_container(command, namespace, records, answers, ran, info, 6);
        } else {
            destroying_a_container(command, namespace, records, answers, looked, info, 7);
        }
    }
}

/// A box of a container that is used once has been used, and is destroyed next.
pub open spec fn is_used(
    command: CommandView,
    namespace: Seq<char>,
    replies: Seq<ReplyView>,
    id: Seq<char>,
) -> bool {
    &&& command matches CommandView::Run { wanted, argv }
    &&& wanted.sandbox == "docker"@
    &&& wanted.origin is Image
    &&& command::making(wanted, namespace, replies, 0) matches ProgressView::Done(info, made)
    &&& info.id == id
    &&& made == 3
    &&& match docker::docker_executing(
        namespace,
        id,
        crate::runtime::plain_request(argv),
        replies,
        made,
    ) {
        ProgressView::Ask(_) => false,
        ProgressView::Failed(_, next) => next == replies.len(),
        ProgressView::Done(_, next) => next == replies.len(),
    }
}

/// Destroying a container box that was used ends, and the record is gone exactly
/// if the container is.
proof fn destroying_a_container(
    command: CommandView,
    namespace: Seq<char>,
    records: Map<Seq<char>, BoxInfoView>,
    answers: Answers,
    replies: Seq<ReplyView>,
    info: BoxInfoView,
    steps: nat,
)
    requires
        is_used(command, namespace, replies, info.id),
        3 <= replies.len() <= 6,
        records.contains_key(info.id),
        records[info.id] == info,
        is_obliging(answers),
        steps >= 6,
    ensures
        is_cleaned_up(command, namespace, records, answers, replies, info.id, steps),
{
    let rm = removal(namespace, info.id);
    let fetch = EffectView::Store(StoreOpView::Get(info.id));
    step(command, namespace, records, answers, replies, steps, fetch);
    reply_step(rm, command, namespace, records, answers, replies, steps, fetch);
    let fetched = replies.push(ReplyView::Fetched(Ok(info)));
    an_answer_fits(answers, fetched, rm);
    step(command, namespace, records, answers, fetched, (steps - 1) as nat, rm);
    reply_step(rm, command, namespace, records, answers, fetched, (steps - 1) as nat, rm);
    let removed = fetched.push(answers(fetched, rm));
    let outcome = answers(fetched, rm)->Ran_0;
    if outcome is Ok && outcome->Ok_0.exit_code == 0 {
        let forget = EffectView::Store(StoreOpView::Remove(info.id));
        step(command, namespace, records, answers, removed, (steps - 2) as nat, forget);
        let left = records.remove(info.id);
        let forgotten = removed.push(ReplyView::Stored(Ok(())));
        let argv = command->Run_argv;
        let used = docker::docker_executing(
            namespace,
            info.id,
            crate::runtime::plain_request(argv),
            forgotten,
            3,
        );
        if let ProgressView::Done(output, _) = used {
            let told = EffectView::WriteOut(output.stdout);
            an_answer_fits(answers, forgotten, told);
            step(command, namespace, left, answers, forgotten, (steps - 3) as nat, told);
            let more = forgotten.push(answers(forgotten, told));
            if answers(forgotten, told)->Wrote_0 is Ok {
                let complained = EffectView::WriteErr(output.stderr);
                an_answer_fits(answers, more, complained);
                step(command, namespace, left, answers, more, (steps - 4) as nat, complained);
            }
        }
    }
}

/// `run` in a container leaves nothing behind either, whatever becomes of the
/// command: in the end the records are what they were, unless the container
/// could not be removed. Its box is then still recorded, so that it is not
/// orphaned, and that is reported as a failure.
pub proof fn a_container_run_leaves_nothing_behind(
    wanted: WantedView,
    argv: Seq<Seq<char>>,
    namespace: Seq<char>,
    boxes: Seq<(Seq<char>, BoxInfoView)>,
    answers: Answers,
)
    requires
        wanted.sandbox == "docker"@,
        wanted.origin is Image,
        is_obliging(answers),
    ensures
        ({
            let records = crate::ordered::map_of(boxes);
            let end = session(
                CommandView::Run { wanted, argv },
                namespace,
                records,
                answers,
                Seq::empty(),
                enough_steps(),
            );
            let id = store::lowest_free_name(records);
            let reply = reply_to(
                removal(namespace, id),
                CommandView::Run { wanted, argv },
                namespace,
                records,
                answers,
                Seq::empty(),
                enough_steps(),
            );
            &&& end.action is Finish
            &&& if reply is Some && !is_success(reply->0) {
                &&& end.action->Finish_0 is Err
                &&& end.records == records.insert(
                    id,
                    BoxInfoView {
                        id,
                        state: BoxState::Ready,
                        spec: contained(
                            wanted.origin->Image_0,
                            command::settings(wanted.env)->0,
                        ),
                    },
                )
            } else {
                end.records == records
            }
        }),
{
    let command = CommandView::Run { wanted, argv };
    let records = crate::ordered::map_of(boxes);
    let none = Seq::<ReplyView>::empty();
    let image = wanted.origin->Image_0;
    reveal_strlit("docker");
    reveal_strlit("passthrough");
    assert("docker"@[0] != "passthrough"@[0]);
    let rm = removal(namespace, store::lowest_free_name(records));
    if crate::identity::is_name(namespace) && command::settings(wanted.env) is Some {
        let id = store::lowest_free_name(records);
        let spec = contained(image, command::settings(wanted.env)->0);
        let info = BoxInfoView { id, state: BoxState::Ready, spec };
        store::a_name_is_always_free(boxes);
        removal_is_another_command(
            namespace,
            id,
            image,
            spec,
            crate::runtime::plain_request(argv),
        );
        let allocate = EffectView::Store(StoreOpView::Allocate);
        step(command, namespace, records, answers, none, 12, allocate);
        reply_step(rm, command, namespace, records, answers, none, 12, allocate);
        let allocated = none.push(ReplyView::Allocated(Ok(id)));
        let start = EffectView::Run(
            crate::runtime::plain_request(
                docker::run_argv(docker::container_name(namespace, id), image, spec),
            ),
        );
        an_answer_fits(answers, allocated, start);
        step(command, namespace, records, answers, allocated, 11, start);
        reply_step(rm, command, namespace, records, answers, allocated, 11, start);
        let started = allocated.push(answers(allocated, start));
        let outcome = answers(allocated, start)->Ran_0;
        if outcome is Ok && outcome->Ok_0.exit_code == 0 {
            let insert = EffectView::Store(StoreOpView::Insert(info));
            step(command, namespace, records, answers, started, 10, insert);
            reply_step(rm, command, namespace, records, answers, started, 10, insert);
            let recorded = started.push(ReplyView::Stored(Ok(())));
            using_a_container_destroys(
                wanted,
                argv,
                namespace,
                records.insert(id, info),
                answers,
                recorded,
                info,
            );
            assert(records.insert(id, info).remove(id) =~= records);
        } else {
            no_reply(rm, command, namespace, records, answers, started, 10);
        }
    } else {
        no_reply(rm, command, namespace, records, answers, none, 12);
    }
}

/// `run` leaves nothing behind where its box cannot be made at all: a container
/// over a directory, or a sandbox that this build does not have, is a failure,
/// and the records stay as they are.
pub proof fn a_run_without_a_box_leaves_nothing_behind(
    wanted: WantedView,
    argv: Seq<Seq<char>>,
    namespace: Seq<char>,
    records: Map<Seq<char>, BoxInfoView>,
    answers: Answers,
)
    requires
        wanted.sandbox != "passthrough"@,
        wanted.sandbox == "docker"@ ==> !(wanted.origin is Image),
        is_obliging(answers),
    ensures
        ({
            let end = session(
                CommandView::Run { wanted, argv },
                namespace,
                records,
                answers,
                Seq::empty(),
                enough_steps(),
            );
            &&& end.action is Finish
            &&& end.action->Finish_0 is Err
            &&& end.records == records
        }),
{
    let command = CommandView::Run { wanted, argv };
    let none = Seq::<ReplyView>::empty();
    if wanted.sandbox == "docker"@ && crate::identity::is_name(namespace) && wanted.origin is Here {
        an_answer_fits(answers, none, EffectView::WorkingDirectory);
        step(command, namespace, records, answers, none, 12, EffectView::WorkingDirectory);
    }
}

/// `create` in a container records the box exactly if its container started.
pub proof fn a_created_container_is_recorded(
    wanted: WantedView,
    image: Seq<char>,
    env: Map<Seq<char>, Seq<char>>,
    namespace: Seq<char>,
    boxes: Seq<(Seq<char>, BoxInfoView)>,
    answers: Answers,
)
    requires
        wanted.sandbox == "docker"@,
        wanted.origin == OriginView::Image(image),
        command::settings(wanted.env) == Some(env),
        crate::identity::is_name(namespace),
        is_obliging(answers),
    ensures
        ({
            let records = crate::ordered::map_of(boxes);
            let id = store::lowest_free_name(records);
            let spec = contained(image, env);
            let started = answers(
                seq![ReplyView::Allocated(Ok(id))],
                EffectView::Run(
                    crate::runtime::plain_request(
                        docker::run_argv(docker::container_name(namespace, id), image, spec),
                    ),
                ),
            )->Ran_0;
            let end = session(
                CommandView::Create(wanted),
                namespace,
                records,
                answers,
                Seq::empty(),
                enough_steps(),
            );
            &&& end.action is Finish
            &&& if started is Ok && started->Ok_0.exit_code == 0 {
                end.records == records.insert(
                    id,
                    BoxInfoView { id, state: BoxState::Ready, spec },
                )
            } else {
                end.records == records && end.action->Finish_0 is Err
            }
        }),
{
    let command = CommandView::Create(wanted);
    let records = crate::ordered::map_of(boxes);
    let none = Seq::<ReplyView>::empty();
    reveal_strlit("docker");
    reveal_strlit("passthrough");
    assert("docker"@[0] != "passthrough"@[0]);
    let id = store::lowest_free_name(records);
    let spec = contained(image, env);
    let info = BoxInfoView { id, state: BoxState::Ready, spec };
    store::a_name_is_always_free(boxes);
    step(
        command,
        namespace,
        records,
        answers,
        none,
        12,
        EffectView::Store(StoreOpView::Allocate),
    );
    let allocated = none.push(ReplyView::Allocated(Ok(id)));
    assert(allocated =~= seq![ReplyView::Allocated(Ok(id))]);
    let start = EffectView::Run(
        crate::runtime::plain_request(
            docker::run_argv(docker::container_name(namespace, id), image, spec),
        ),
    );
    an_answer_fits(answers, allocated, start);
    step(command, namespace, records, answers, allocated, 11, start);
    let started = allocated.push(answers(allocated, start));
    let outcome = answers(allocated, start)->Ran_0;
    if outcome is Ok && outcome->Ok_0.exit_code == 0 {
        let insert = EffectView::Store(StoreOpView::Insert(info));
        step(command, namespace, records, answers, started, 10, insert);
        let recorded = started.push(ReplyView::Stored(Ok(())));
        let left = records.insert(id, info);
        let told = EffectView::WriteOut(vstd::utf8::encode_utf8(id + "\n"@));
        an_answer_fits(answers, recorded, told);
        step(command, namespace, left, answers, recorded, 9, told);
    }
}

/// What a forked box is to be.
pub open spec fn forked(snapshot: Seq<char>) -> BoxSpecView {
    crate::box_spec::plain_spec(command::placed_here("docker"@), SourceView::Snapshot(snapshot))
}

/// `fork` records the new box under the lowest free name, as ready, exactly if
/// the snapshot's image was found and a container started from it. Otherwise it
/// fails, and the records stay as they are.
pub proof fn a_forked_box_is_recorded(
    snapshot: Seq<char>,
    namespace: Seq<char>,
    boxes: Seq<(Seq<char>, BoxInfoView)>,
    answers: Answers,
)
    requires
        crate::identity::is_name(snapshot),
        crate::identity::is_name(namespace),
        is_obliging(answers),
    ensures
        ({
            let records = crate::ordered::map_of(boxes);
            let id = store::lowest_free_name(records);
            let image = docker::snapshot_image(snapshot)->0;
            let found = answers(
                Seq::empty(),
                EffectView::Run(crate::runtime::plain_request(docker::image_argv(image))),
            );
            let started = answers(
                seq![found, ReplyView::Allocated(Ok(id))],
                EffectView::Run(
                    crate::runtime::plain_request(
                        docker::run_argv(
                            docker::container_name(namespace, id),
                            image,
                            forked(snapshot),
                        ),
                    ),
                ),
            );
            let end = session(
                CommandView::Fork { snapshot, sandbox: "docker"@ },
                namespace,
                records,
                answers,
                Seq::empty(),
                enough_steps(),
            );
            &&& end.action is Finish
            &&& !records.contains_key(id)
            &&& if docker::snapshot_image(snapshot) is Some && is_success(found) && is_success(
                started,
            ) {
                end.records == records.insert(
                    id,
                    BoxInfoView { id, state: BoxState::Ready, spec: forked(snapshot) },
                )
            } else {
                end.records == records && end.action->Finish_0 is Err
            }
        }),
{
    let command = CommandView::Fork { snapshot, sandbox: "docker"@ };
    let records = crate::ordered::map_of(boxes);
    let none = Seq::<ReplyView>::empty();
    reveal_strlit("docker");
    reveal_strlit("passthrough");
    assert("docker"@[0] != "passthrough"@[0]);
    let id = store::lowest_free_name(records);
    let spec = forked(snapshot);
    let info = BoxInfoView { id, state: BoxState::Ready, spec };
    store::a_name_is_always_free(boxes);
    if let Some(image) = docker::snapshot_image(snapshot) {
        let find = EffectView::Run(crate::runtime::plain_request(docker::image_argv(image)));
        an_answer_fits(answers, none, find);
        step(command, namespace, records, answers, none, 12, find);
        let found = none.push(answers(none, find));
        if is_success(answers(none, find)) {
            let allocate = EffectView::Store(StoreOpView::Allocate);
            step(command, namespace, records, answers, found, 11, allocate);
            let allocated = found.push(ReplyView::Allocated(Ok(id)));
            assert(allocated =~= seq![answers(none, find), ReplyView::Allocated(Ok(id))]);
            let start = EffectView::Run(
                crate::runtime::plain_request(
                    docker::run_argv(docker::container_name(namespace, id), image, spec),
                ),
            );
            an_answer_fits(answers, allocated, start);
            step(command, namespace, records, answers, allocated, 10, start);
            let started = allocated.push(answers(allocated, start));
            if is_success(answers(allocated, start)) {
                let insert = EffectView::Store(StoreOpView::Insert(info));
                step(command, namespace, records, answers, started, 9, insert);
                let recorded = started.push(ReplyView::Stored(Ok(())));
                let left = records.insert(id, info);
                let told = EffectView::WriteOut(vstd::utf8::encode_utf8(id + "\n"@));
                an_answer_fits(answers, recorded, told);
                step(command, namespace, left, answers, recorded, 8, told);
            }
        }
    }
}

/// `rm` of a container box forgets it exactly if its container was removed.
pub proof fn a_removed_container_is_forgotten(
    id: Seq<char>,
    namespace: Seq<char>,
    records: Map<Seq<char>, BoxInfoView>,
    answers: Answers,
)
    requires
        crate::identity::is_name(id),
        crate::identity::is_name(namespace),
        records.contains_key(id),
        records[id].spec.workspace.sandbox == "docker"@,
        is_obliging(answers),
    ensures
        ({
            let found = ReplyView::Fetched(Ok(records[id]));
            let removed = answers(
                seq![found, found],
                EffectView::Run(
                    crate::runtime::plain_request(
                        docker::rm_argv(docker::container_name(namespace, id)),
                    ),
                ),
            )->Ran_0;
            let end = session(
                CommandView::Rm { id },
                namespace,
                records,
                answers,
                Seq::empty(),
                enough_steps(),
            );
            &&& end.action is Finish
            &&& if removed is Ok && removed->Ok_0.exit_code == 0 {
                end.records == records.remove(id)
            } else {
                end.records == records && end.action->Finish_0 is Err
            }
        }),
{
    let command = CommandView::Rm { id };
    let none = Seq::<ReplyView>::empty();
    reveal_strlit("docker");
    reveal_strlit("passthrough");
    assert("docker"@[0] != "passthrough"@[0]);
    let fetch = EffectView::Store(StoreOpView::Get(id));
    let found = ReplyView::Fetched(Ok(records[id]));
    step(command, namespace, records, answers, none, 12, fetch);
    let once = none.push(found);
    step(command, namespace, records, answers, once, 11, fetch);
    let twice = once.push(found);
    assert(twice =~= seq![found, found]);
    let rm = EffectView::Run(
        crate::runtime::plain_request(docker::rm_argv(docker::container_name(namespace, id))),
    );
    an_answer_fits(answers, twice, rm);
    step(command, namespace, records, answers, twice, 10, rm);
    let removed = twice.push(answers(twice, rm));
    let outcome = answers(twice, rm)->Ran_0;
    if outcome is Ok && outcome->Ok_0.exit_code == 0 {
        let forget = EffectView::Store(StoreOpView::Remove(id));
        step(command, namespace, records, answers, removed, 9, forget);
        let forgotten = removed.push(ReplyView::Stored(Ok(())));
        let told = EffectView::WriteOut(vstd::utf8::encode_utf8(id + "\n"@));
        an_answer_fits(answers, forgotten, told);
        step(command, namespace, records.remove(id), answers, forgotten, 8, told);
    }
}

/// `exec` in a container runs the command there, if it runs, and a command that
/// fails is a result: its output is passed on, and its status is the exit code.
pub proof fn a_command_in_a_container_is_a_result(
    id: Seq<char>,
    argv: Seq<Seq<char>>,
    namespace: Seq<char>,
    info: BoxInfoView,
    status: ExecOutputView,
    output: ExecOutputView,
)
    requires
        crate::identity::is_name(id),
        crate::identity::is_name(namespace),
        argv.len() > 0,
        info.spec.workspace.sandbox == "docker"@,
        status.exit_code == 0,
    ensures
        ({
            let command = CommandView::Exec { id, argv };
            let found = seq![
                ReplyView::Fetched(Ok(info)),
                ReplyView::Fetched(Ok(info)),
                ReplyView::Ran(Ok(status)),
            ];
            let ran = found.push(ReplyView::Ran(Ok(output)));
            let told = ran.push(ReplyView::Wrote(Ok(())));
            let next = command::dispatched(command, namespace, found);
            if docker::state_of(text::lossy_text(status.stdout)) is Ready {
                &&& next == ActionView::Ask(
                    EffectView::Run(
                        docker::exec_request(
                            docker::container_name(namespace, id),
                            crate::runtime::plain_request(argv),
                        ),
                    ),
                )
                &&& command::dispatched(command, namespace, ran) == ActionView::Ask(
                    EffectView::WriteOut(output.stdout),
                )
                &&& command::dispatched(command, namespace, told) == ActionView::Ask(
                    EffectView::WriteErr(output.stderr),
                )
                &&& command::dispatched(
                    command,
                    namespace,
                    told.push(ReplyView::Wrote(Ok(()))),
                ) == ActionView::Finish(Ok(command::exit_byte(output.exit_code)))
            } else {
                next == ActionView::Finish(
                    Err(
                        ErrorView::InvalidState {
                            id,
                            actual: BoxState::Stopped,
                            expected: BoxState::Ready,
                        },
                    ),
                )
            }
        }),
{
    reveal_strlit("docker");
    reveal_strlit("passthrough");
    assert("docker"@[0] != "passthrough"@[0]);
}

/// A box remembers its sandbox: the one it was made in is the one that its
/// record leads back to.
pub proof fn a_box_remembers_its_sandbox(
    wanted: WantedView,
    namespace: Seq<char>,
    replies: Seq<ReplyView>,
    info: BoxInfoView,
    made: int,
)
    requires
        command::making(wanted, namespace, replies, 0) == ProgressView::Done(info, made),
        crate::identity::is_name(info.id),
    ensures
        info.spec.workspace.sandbox == wanted.sandbox,
        backend::named_backend(wanted.sandbox, namespace) matches Ok(sandbox)
            && sandbox.confinement() == wanted.sandbox && command::finding(
            info.id,
            namespace,
            seq![ReplyView::Fetched(Ok(info))],
            0,
        ) == ProgressView::Done(sandbox, 1int),
{
}

/// A warning is written exactly for a sandbox that does not contain untrusted
/// code, and creating a box in one succeeds only after it was.
pub proof fn an_unsafe_box_is_warned_about(
    wanted: WantedView,
    namespace: Seq<char>,
    replies: Seq<ReplyView>,
)
    ensures
        ({
            let goes = command::create_goes(wanted, namespace, replies);
            let sandbox = backend::named_backend(wanted.sandbox, namespace);
            let made = command::making(wanted, namespace, replies, 0);
            &&& goes is Ask && goes->Ask_0 is WriteErr ==> {
                &&& sandbox is Ok
                &&& !sandbox->Ok_0.declared().contains_untrusted_code()
                &&& goes->Ask_0->WriteErr_0 == vstd::utf8::encode_utf8(
                    command::warning_text(wanted.sandbox),
                )
            }
            &&& goes is Done && !sandbox->Ok_0.declared().contains_untrusted_code() ==> {
                &&& made is Done
                &&& goes->Done_1 == made->Done_1 + 2
                &&& replies[made->Done_1 + 1] is Wrote
                &&& replies[made->Done_1 + 1]->Wrote_0 is Ok
            }
        }),
{
}

/// A failure of tinybox and a failure of the command are told apart by the exit
/// code, unless the command itself exits with tinybox's own.
pub proof fn the_two_kinds_of_failure_are_told_apart(status: i32)
    requires
        0 <= status <= 255,
        status != command::EXIT_TINYBOX_ERROR,
    ensures
        command::exit_byte(status) == status,
        command::exit_byte(status) != command::EXIT_TINYBOX_ERROR,
{
}

/// What is over is the same afterwards, and has used no replies before its own.
pub open spec fn is_settled<V>(before: ProgressView<V>, after: ProgressView<V>, at: int) -> bool {
    match before {
        ProgressView::Ask(_) => true,
        ProgressView::Failed(_, next) => at <= next && after == before,
        ProgressView::Done(_, next) => at <= next && after == before,
    }
}

/// A box that was created, or was not, stays so.
proof fn creating_is_settled(
    sandbox: BackendView,
    spec: BoxSpecView,
    replies: Seq<ReplyView>,
    more: ReplyView,
    at: int,
)
    requires
        0 <= at,
    ensures
        is_settled(
            sandbox.creating(spec, replies, at),
            sandbox.creating(spec, replies.push(more), at),
            at,
        ),
{
}

/// A command that was run, or was not, stays so.
proof fn executing_is_settled(
    sandbox: BackendView,
    id: Seq<char>,
    request: ExecRequestView,
    replies: Seq<ReplyView>,
    more: ReplyView,
    at: int,
)
    requires
        0 <= at,
    ensures
        is_settled(
            sandbox.executing(id, request, replies, at),
            sandbox.executing(id, request, replies.push(more), at),
            at,
        ),
{
}

/// A box that was captured, or was not, stays so.
proof fn capturing_is_settled(
    sandbox: BackendView,
    id: Seq<char>,
    replies: Seq<ReplyView>,
    more: ReplyView,
    at: int,
)
    requires
        0 <= at,
    ensures
        is_settled(
            sandbox.capturing(id, replies, at),
            sandbox.capturing(id, replies.push(more), at),
            at,
        ),
{
}

/// A box that was described, or was not, stays so.
proof fn inspecting_is_settled(
    sandbox: BackendView,
    id: Seq<char>,
    replies: Seq<ReplyView>,
    more: ReplyView,
    at: int,
)
    requires
        0 <= at,
    ensures
        is_settled(
            sandbox.inspecting(id, replies, at),
            sandbox.inspecting(id, replies.push(more), at),
            at,
        ),
{
}

/// A box that was destroyed, or was not, stays so.
proof fn destroying_is_settled(
    sandbox: BackendView,
    id: Seq<char>,
    replies: Seq<ReplyView>,
    more: ReplyView,
    at: int,
)
    requires
        0 <= at,
    ensures
        is_settled(
            sandbox.destroying(id, replies, at),
            sandbox.destroying(id, replies.push(more), at),
            at,
        ),
{
}

/// A box that was specified, or was not, stays so.
proof fn specifying_is_settled(
    wanted: WantedView,
    replies: Seq<ReplyView>,
    more: ReplyView,
    at: int,
)
    requires
        0 <= at,
    ensures
        is_settled(
            command::specifying(wanted, replies, at),
            command::specifying(wanted, replies.push(more), at),
            at,
        ),
{
}

/// A sandbox that was found, or was not, stays so.
proof fn finding_is_settled(
    id: Seq<char>,
    namespace: Seq<char>,
    replies: Seq<ReplyView>,
    more: ReplyView,
    at: int,
)
    requires
        0 <= at,
    ensures
        is_settled(
            command::finding(id, namespace, replies, at),
            command::finding(id, namespace, replies.push(more), at),
            at,
        ),
{
}

/// An output that was passed on, or was not, stays so.
proof fn passing_on_is_settled(
    output: ExecOutputView,
    replies: Seq<ReplyView>,
    more: ReplyView,
    at: int,
)
    requires
        0 <= at,
    ensures
        is_settled(
            command::passing_on(output, replies, at),
            command::passing_on(output, replies.push(more), at),
            at,
        ),
{
}

/// A box that was announced, or was not, stays so.
proof fn announcing_is_settled(
    sandbox: BackendView,
    id: Seq<char>,
    replies: Seq<ReplyView>,
    more: ReplyView,
    at: int,
)
    requires
        0 <= at,
    ensures
        is_settled(
            command::announcing(sandbox, id, replies, at),
            command::announcing(sandbox, id, replies.push(more), at),
            at,
        ),
{
}

/// A snapshot that was forked, or was not, stays so.
proof fn forking_is_settled(
    sandbox: BackendView,
    snapshot: Seq<char>,
    spec: BoxSpecView,
    replies: Seq<ReplyView>,
    more: ReplyView,
    at: int,
)
    requires
        0 <= at,
    ensures
        is_settled(
            sandbox.forking(snapshot, spec, replies, at),
            sandbox.forking(snapshot, spec, replies.push(more), at),
            at,
        ),
{
    let branched = BoxSpecView { source: SourceView::Snapshot(snapshot), ..spec };
    creating_is_settled(sandbox, branched, replies, more, at + 1);
}

/// A box that was made, or was not, stays so.
proof fn making_is_settled(
    wanted: WantedView,
    namespace: Seq<char>,
    replies: Seq<ReplyView>,
    more: ReplyView,
)
    ensures
        is_settled(
            command::making(wanted, namespace, replies, 0),
            command::making(wanted, namespace, replies.push(more), 0),
            0,
        ),
{
    specifying_is_settled(wanted, replies, more, 0);
    if let Ok(sandbox) = backend::named_backend(wanted.sandbox, namespace) {
        if let ProgressView::Done(spec, next) = command::specifying(wanted, replies, 0) {
            creating_is_settled(sandbox, spec, replies, more, next);
        }
    }
}

/// A box that was used once, or was not, stays so.
proof fn using_once_is_settled(
    sandbox: BackendView,
    id: Seq<char>,
    argv: Seq<Seq<char>>,
    replies: Seq<ReplyView>,
    more: ReplyView,
    at: int,
)
    requires
        0 <= at,
    ensures
        is_settled(
            command::using_once(sandbox, id, argv, replies, at),
            command::using_once(sandbox, id, argv, replies.push(more), at),
            at,
        ),
{
    let request = crate::runtime::plain_request(argv);
    executing_is_settled(sandbox, id, request, replies, more, at);
    match sandbox.executing(id, request, replies, at) {
        ProgressView::Ask(_) => {},
        ProgressView::Failed(_, next) => {
            destroying_is_settled(sandbox, id, replies, more, next);
        },
        ProgressView::Done(output, next) => {
            destroying_is_settled(sandbox, id, replies, more, next);
            if let ProgressView::Done(_, last) = sandbox.destroying(id, replies, next) {
                passing_on_is_settled(output, replies, more, last);
            }
        },
    }
}

/// What is over stays over: a further reply changes nothing of how a command
/// ended.
pub proof fn a_finished_command_stays_finished(
    command: CommandView,
    namespace: Seq<char>,
    replies: Seq<ReplyView>,
    more: ReplyView,
)
    requires
        command::dispatched(command, namespace, replies) is Finish,
    ensures
        command::dispatched(command, namespace, replies.push(more)) == command::dispatched(
            command,
            namespace,
            replies,
        ),
{
    match command {
        CommandView::Create(wanted) => {
            making_is_settled(wanted, namespace, replies, more);
            if let ProgressView::Done(info, next) = command::making(wanted, namespace, replies, 0) {
                let sandbox = backend::named_backend(wanted.sandbox, namespace)->Ok_0;
                announcing_is_settled(sandbox, info.id, replies, more, next);
            }
        },
        CommandView::Run { wanted, argv } => {
            making_is_settled(wanted, namespace, replies, more);
            if let ProgressView::Done(info, next) = command::making(wanted, namespace, replies, 0) {
                let sandbox = backend::named_backend(wanted.sandbox, namespace)->Ok_0;
                using_once_is_settled(sandbox, info.id, argv, replies, more, next);
            }
        },
        CommandView::Exec { id, argv } => {
            finding_is_settled(id, namespace, replies, more, 0);
            if let ProgressView::Done(sandbox, next) = command::finding(id, namespace, replies, 0) {
                let request = crate::runtime::plain_request(argv);
                executing_is_settled(sandbox, id, request, replies, more, next);
                if let ProgressView::Done(output, last) = sandbox.executing(
                    id,
                    request,
                    replies,
                    next,
                ) {
                    passing_on_is_settled(output, replies, more, last);
                }
            }
        },
        CommandView::Inspect { id } => {
            finding_is_settled(id, namespace, replies, more, 0);
            if let ProgressView::Done(sandbox, next) = command::finding(id, namespace, replies, 0) {
                inspecting_is_settled(sandbox, id, replies, more, next);
            }
        },
        CommandView::Rm { id } => {
            finding_is_settled(id, namespace, replies, more, 0);
            if let ProgressView::Done(sandbox, next) = command::finding(id, namespace, replies, 0) {
                destroying_is_settled(sandbox, id, replies, more, next);
            }
        },
        CommandView::Snapshot { id } => {
            finding_is_settled(id, namespace, replies, more, 0);
            if let ProgressView::Done(sandbox, next) = command::finding(id, namespace, replies, 0) {
                capturing_is_settled(sandbox, id, replies, more, next);
            }
        },
        CommandView::Fork { snapshot, sandbox } => {
            if let Ok(named) = backend::named_backend(sandbox, namespace) {
                let spec = crate::box_spec::plain_spec(
                    command::placed_here(sandbox),
                    SourceView::Snapshot(snapshot),
                );
                forking_is_settled(named, snapshot, spec, replies, more, 0);
                if let ProgressView::Done(info, next) = named.forking(snapshot, spec, replies, 0) {
                    announcing_is_settled(named, info.id, replies, more, next);
                }
            }
        },
        CommandView::Ls => {},
    }
}

/// What the two output streams have taken.
pub struct Streams {
    pub out: Seq<u8>,
    pub err: Seq<u8>,
}

impl Streams {
    /// What they have taken after an effect and its reply. A write that is
    /// refused adds nothing.
    pub open spec fn after(self, effect: EffectView, reply: ReplyView) -> Streams {
        if reply is Wrote && reply->Wrote_0 is Ok {
            match effect {
                EffectView::WriteOut(bytes) => Streams { out: self.out + bytes, ..self },
                EffectView::WriteErr(bytes) => Streams { err: self.err + bytes, ..self },
                _ => self,
            }
        } else {
            self
        }
    }
}

/// What the streams have taken of what a command wrote.
pub open spec fn dispatch_streams(
    command: CommandView,
    namespace: Seq<char>,
    replies: Seq<ReplyView>,
) -> Streams
    decreases replies.len(),
{
    if replies.len() == 0 {
        Streams { out: Seq::empty(), err: Seq::empty() }
    } else {
        let before = replies.drop_last();
        let streams = dispatch_streams(command, namespace, before);
        match command::dispatched(command, namespace, before) {
            ActionView::Ask(effect) => streams.after(effect, replies.last()),
            ActionView::Finish(_) => streams,
        }
    }
}

/// What the streams have taken of what an invocation wrote before it was over.
pub open spec fn run_streams(
    command: CommandView,
    namespace: Seq<char>,
    replies: Seq<ReplyView>,
) -> Streams
    decreases replies.len(),
{
    if replies.len() == 0 {
        Streams { out: Seq::empty(), err: Seq::empty() }
    } else {
        let before = replies.drop_last();
        let streams = run_streams(command, namespace, before);
        match command::runs(command, namespace, before) {
            command::RunningView::Ask(effect) => streams.after(effect, replies.last()),
            command::RunningView::Exit(_, _) => streams,
        }
    }
}

/// What the streams have taken in the end: what was said about the end goes to
/// the standard error, which answers `last`.
pub open spec fn final_streams(
    command: CommandView,
    namespace: Seq<char>,
    replies: Seq<ReplyView>,
    last: ReplyView,
) -> Streams {
    let streams = run_streams(command, namespace, replies);
    match command::runs(command, namespace, replies) {
        command::RunningView::Exit(_, Some(said)) => streams.after(
            EffectView::WriteErr(vstd::utf8::encode_utf8(said)),
            last,
        ),
        _ => streams,
    }
}

/// An invocation writes what its command does.
proof fn an_invocation_writes_as_its_command_does(
    command: CommandView,
    namespace: Seq<char>,
    replies: Seq<ReplyView>,
)
    ensures
        run_streams(command, namespace, replies) == dispatch_streams(command, namespace, replies),
    decreases replies.len(),
{
    if replies.len() > 0 {
        an_invocation_writes_as_its_command_does(command, namespace, replies.drop_last());
    }
}

/// An invocation ends as its command does. A code is its own, with nothing
/// added to what was written. An error is tinybox's code, and its message stands
/// at the end of the standard error, if that accepts it; if not, the code is the
/// same.
pub proof fn an_invocation_ends_as_its_command_does(
    command: CommandView,
    namespace: Seq<char>,
    replies: Seq<ReplyView>,
    result: Result<u8, ErrorView>,
    last: ReplyView,
)
    requires
        command::dispatched(command, namespace, replies) == ActionView::Finish(result),
        last is Wrote,
    ensures
        ({
            let end = command::runs(command, namespace, replies);
            let written = dispatch_streams(command, namespace, replies);
            let streams = final_streams(command, namespace, replies, last);
            &&& end is Exit
            &&& match result {
                Ok(code) => {
                    &&& end->Exit_0 == code
                    &&& streams == written
                },
                Err(error) => {
                    &&& end->Exit_0 == command::EXIT_TINYBOX_ERROR
                    &&& streams.out == written.out
                    &&& streams.err == if last->Wrote_0 is Ok {
                        written.err + vstd::utf8::encode_utf8(
                            "error: "@ + error.text() + "\n"@,
                        )
                    } else {
                        written.err
                    }
                },
            }
        }),
{
    an_invocation_writes_as_its_command_does(command, namespace, replies);
}

} // verus!
