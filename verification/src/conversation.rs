//! Talking to the outside without touching it.
//!
//! What a command does is decided from the replies it has had so far: the next
//! [`Effect`] to perform, or how it ended. Whoever performs the effects appends
//! each reply and asks again. A reply that does not answer what was asked
//! leaves it asked.

use vstd::prelude::*;
use vstd::string::*;

use crate::error::{Error, ErrorView};
use crate::identity::BoxId;
use crate::runtime::{
    BoxInfo, BoxInfoView, BoxState, ExecOutput, ExecOutputView, ExecRequest, ExecRequestView,
};

verus! {

/// Something to do with the recorded boxes.
#[derive(Debug, PartialEq, Eq)]
pub enum StoreOp {
    /// Find a name for a new box.
    Allocate,
    /// Record a box under a name that is not taken.
    Insert(BoxInfo),
    /// Read the record of a box.
    Get(BoxId),
    /// Read every record.
    List,
    /// Change what is recorded of a box's state.
    SetState(BoxId, BoxState),
    /// Forget a box.
    Remove(BoxId),
}

/// A [`StoreOp`] with its strings as their characters.
pub enum StoreOpView {
    Allocate,
    Insert(BoxInfoView),
    Get(Seq<char>),
    List,
    SetState(Seq<char>, BoxState),
    Remove(Seq<char>),
}

impl View for StoreOp {
    type V = StoreOpView;

    open spec fn view(&self) -> StoreOpView {
        match *self {
            StoreOp::Allocate => StoreOpView::Allocate,
            StoreOp::Insert(info) => StoreOpView::Insert(info@),
            StoreOp::Get(id) => StoreOpView::Get(id@),
            StoreOp::List => StoreOpView::List,
            StoreOp::SetState(id, state) => StoreOpView::SetState(id@, state),
            StoreOp::Remove(id) => StoreOpView::Remove(id@),
        }
    }
}

/// Something that only the outside can do.
#[derive(Debug, PartialEq, Eq)]
pub enum Effect {
    /// Say which directory this process is in.
    WorkingDirectory,
    /// Use the recorded boxes.
    Store(StoreOp),
    /// Run a command on the host.
    Run(ExecRequest),
    /// Write to the standard output.
    WriteOut(Vec<u8>),
    /// Write to the standard error.
    WriteErr(Vec<u8>),
}

/// An [`Effect`] with its strings as their characters.
pub enum EffectView {
    WorkingDirectory,
    Store(StoreOpView),
    Run(ExecRequestView),
    WriteOut(Seq<u8>),
    WriteErr(Seq<u8>),
}

impl View for Effect {
    type V = EffectView;

    open spec fn view(&self) -> EffectView {
        match *self {
            Effect::WorkingDirectory => EffectView::WorkingDirectory,
            Effect::Store(op) => EffectView::Store(op@),
            Effect::Run(request) => EffectView::Run(request@),
            Effect::WriteOut(bytes) => EffectView::WriteOut(bytes@),
            Effect::WriteErr(bytes) => EffectView::WriteErr(bytes@),
        }
    }
}

/// What the outside answered.
#[derive(Debug, PartialEq, Eq)]
pub enum Reply {
    /// The directory this process is in, or why it cannot be told.
    WorkingDirectory(Result<String, String>),
    /// The name for a new box.
    Allocated(Result<BoxId, Error>),
    /// The record of a box.
    Fetched(Result<BoxInfo, Error>),
    /// Every record.
    Listed(Result<Vec<BoxInfo>, Error>),
    /// The records were changed.
    Stored(Result<(), Error>),
    /// What a command left behind.
    Ran(Result<ExecOutput, Error>),
    /// The output was written.
    Wrote(Result<(), Error>),
}

/// A [`Reply`] with its strings as their characters.
pub enum ReplyView {
    WorkingDirectory(Result<Seq<char>, Seq<char>>),
    Allocated(Result<Seq<char>, ErrorView>),
    Fetched(Result<BoxInfoView, ErrorView>),
    Listed(Result<Seq<BoxInfoView>, ErrorView>),
    Stored(Result<(), ErrorView>),
    Ran(Result<ExecOutputView, ErrorView>),
    Wrote(Result<(), ErrorView>),
}

/// The records of a list.
pub open spec fn infos(list: Seq<BoxInfo>) -> Seq<BoxInfoView> {
    Seq::new(list.len(), |i: int| list[i]@)
}

/// What a fallible listing returned.
pub open spec fn listing(result: Result<Vec<BoxInfo>, Error>) -> Result<Seq<BoxInfoView>, ErrorView> {
    match result {
        Ok(list) => Ok(infos(list@)),
        Err(error) => Err(error@),
    }
}

/// What a fallible change returned.
pub open spec fn change(result: Result<(), Error>) -> Result<(), ErrorView> {
    match result {
        Ok(_) => Ok(()),
        Err(error) => Err(error@),
    }
}

impl View for Reply {
    type V = ReplyView;

    open spec fn view(&self) -> ReplyView {
        match *self {
            Reply::WorkingDirectory(Ok(path)) => ReplyView::WorkingDirectory(Ok(path@)),
            Reply::WorkingDirectory(Err(message)) => ReplyView::WorkingDirectory(Err(message@)),
            Reply::Allocated(result) => ReplyView::Allocated(crate::runtime::outcome(result)),
            Reply::Fetched(result) => ReplyView::Fetched(crate::runtime::outcome(result)),
            Reply::Listed(result) => ReplyView::Listed(listing(result)),
            Reply::Stored(result) => ReplyView::Stored(change(result)),
            Reply::Ran(result) => ReplyView::Ran(crate::runtime::outcome(result)),
            Reply::Wrote(result) => ReplyView::Wrote(change(result)),
        }
    }
}

/// The replies so far.
pub open spec fn history(replies: Seq<Reply>) -> Seq<ReplyView> {
    Seq::new(replies.len(), |i: int| replies[i]@)
}

/// How far an operation has come.
#[derive(Debug, PartialEq, Eq)]
pub enum Progress<T> {
    /// It needs this to go on.
    Ask(Effect),
    /// It failed, and the next reply that is not its own has this position.
    Failed(Error, usize),
    /// It is done, and the next reply that is not its own has this position.
    Done(T, usize),
}

/// A [`Progress`] with its strings as their characters.
pub enum ProgressView<V> {
    Ask(EffectView),
    Failed(ErrorView, int),
    Done(V, int),
}

impl<T: View> View for Progress<T> {
    type V = ProgressView<T::V>;

    open spec fn view(&self) -> ProgressView<T::V> {
        match *self {
            Progress::Ask(effect) => ProgressView::Ask(effect@),
            Progress::Failed(error, next) => ProgressView::Failed(error@, next as int),
            Progress::Done(value, next) => ProgressView::Done(value@, next as int),
        }
    }
}

/// What comes of a reply that answers.
pub open spec fn answered<V>(result: Result<V, ErrorView>, next: int) -> ProgressView<V> {
    match result {
        Ok(value) => ProgressView::Done(value, next),
        Err(error) => ProgressView::Failed(error, next),
    }
}

/// Ask for a command to be run.
pub open spec fn asks_run(request: ExecRequestView, replies: Seq<ReplyView>, at: int) -> ProgressView<
    ExecOutputView,
> {
    if 0 <= at < replies.len() && replies[at] is Ran {
        answered(replies[at]->Ran_0, at + 1)
    } else {
        ProgressView::Ask(EffectView::Run(request))
    }
}

/// Ask for a name for a new box.
pub open spec fn asks_allocate(replies: Seq<ReplyView>, at: int) -> ProgressView<Seq<char>> {
    if 0 <= at < replies.len() && replies[at] is Allocated {
        answered(replies[at]->Allocated_0, at + 1)
    } else {
        ProgressView::Ask(EffectView::Store(StoreOpView::Allocate))
    }
}

/// Ask for the record of a box.
pub open spec fn asks_fetch(id: Seq<char>, replies: Seq<ReplyView>, at: int) -> ProgressView<
    BoxInfoView,
> {
    if 0 <= at < replies.len() && replies[at] is Fetched {
        answered(replies[at]->Fetched_0, at + 1)
    } else {
        ProgressView::Ask(EffectView::Store(StoreOpView::Get(id)))
    }
}

/// Ask for every record.
pub open spec fn asks_list(replies: Seq<ReplyView>, at: int) -> ProgressView<Seq<BoxInfoView>> {
    if 0 <= at < replies.len() && replies[at] is Listed {
        answered(replies[at]->Listed_0, at + 1)
    } else {
        ProgressView::Ask(EffectView::Store(StoreOpView::List))
    }
}

/// Ask for the records to be changed.
pub open spec fn asks_store(op: StoreOpView, replies: Seq<ReplyView>, at: int) -> ProgressView<()> {
    if 0 <= at < replies.len() && replies[at] is Stored {
        answered(replies[at]->Stored_0, at + 1)
    } else {
        ProgressView::Ask(EffectView::Store(op))
    }
}

/// How recording a new box goes.
pub open spec fn recording(info: BoxInfoView, replies: Seq<ReplyView>, at: int) -> ProgressView<
    BoxInfoView,
> {
    match asks_store(StoreOpView::Insert(info), replies, at) {
        ProgressView::Ask(effect) => ProgressView::Ask(effect),
        ProgressView::Failed(error, next) => ProgressView::Failed(error, next),
        ProgressView::Done(_, next) => ProgressView::Done(info, next),
    }
}

/// Ask for output to be written.
pub open spec fn asks_write(effect: EffectView, replies: Seq<ReplyView>, at: int) -> ProgressView<()> {
    if 0 <= at < replies.len() && replies[at] is Wrote {
        answered(replies[at]->Wrote_0, at + 1)
    } else {
        ProgressView::Ask(effect)
    }
}

/// Ask which directory this process is in.
pub open spec fn asks_directory(replies: Seq<ReplyView>, at: int) -> ProgressView<Seq<char>> {
    if 0 <= at < replies.len() && replies[at] is WorkingDirectory {
        match replies[at]->WorkingDirectory_0 {
            Ok(path) => ProgressView::Done(path, at + 1),
            Err(message) => ProgressView::Failed(
                ErrorView::Store {
                    operation: "locate"@,
                    message: "could not read the working directory: "@ + message,
                },
                at + 1,
            ),
        }
    } else {
        ProgressView::Ask(EffectView::WorkingDirectory)
    }
}

/// Ask for a command to be run.
pub fn ask_run(request: ExecRequest, replies: &Vec<Reply>, at: usize) -> (progress: Progress<ExecOutput>)
    ensures
        progress@ == asks_run(request@, history(replies@), at as int),
{
    if at < replies.len() {
        if let Reply::Ran(result) = &replies[at] {
            return match result {
                Ok(output) => Progress::Done(output.clone(), at + 1),
                Err(error) => Progress::Failed(error.clone(), at + 1),
            };
        }
    }
    Progress::Ask(Effect::Run(request))
}

/// Ask for a name for a new box.
pub fn ask_allocate(replies: &Vec<Reply>, at: usize) -> (progress: Progress<BoxId>)
    ensures
        progress@ == asks_allocate(history(replies@), at as int),
{
    if at < replies.len() {
        if let Reply::Allocated(result) = &replies[at] {
            return match result {
                Ok(id) => Progress::Done(id.clone(), at + 1),
                Err(error) => Progress::Failed(error.clone(), at + 1),
            };
        }
    }
    Progress::Ask(Effect::Store(StoreOp::Allocate))
}

/// Ask for the record of a box.
pub fn ask_fetch(id: &BoxId, replies: &Vec<Reply>, at: usize) -> (progress: Progress<BoxInfo>)
    ensures
        progress@ == asks_fetch(id@, history(replies@), at as int),
{
    if at < replies.len() {
        if let Reply::Fetched(result) = &replies[at] {
            return match result {
                Ok(info) => Progress::Done(info.clone(), at + 1),
                Err(error) => Progress::Failed(error.clone(), at + 1),
            };
        }
    }
    Progress::Ask(Effect::Store(StoreOp::Get(id.clone())))
}

/// The records that a reply lists.
pub struct Listing {
    /// The records, in the order of their names.
    pub boxes: Vec<BoxInfo>,
}

impl View for Listing {
    type V = Seq<BoxInfoView>;

    open spec fn view(&self) -> Seq<BoxInfoView> {
        infos(self.boxes@)
    }
}

/// Ask for every record.
pub fn ask_list(replies: &Vec<Reply>, at: usize) -> (progress: Progress<Listing>)
    ensures
        progress@ == asks_list(history(replies@), at as int),
{
    if at < replies.len() {
        if let Reply::Listed(result) = &replies[at] {
            return match result {
                Ok(list) => Progress::Done(Listing { boxes: copy_infos(list) }, at + 1),
                Err(error) => Progress::Failed(error.clone(), at + 1),
            };
        }
    }
    Progress::Ask(Effect::Store(StoreOp::List))
}

/// A copy of a list of records.
pub fn copy_infos(list: &Vec<BoxInfo>) -> (copy: Vec<BoxInfo>)
    ensures
        infos(copy@) == infos(list@),
{
    let mut copy: Vec<BoxInfo> = Vec::new();
    for i in 0..list.len()
        invariant
            copy@.len() == i,
            forall|j: int| 0 <= j < i ==> (#[trigger] copy@[j])@ == list@[j]@,
    {
        copy.push(list[i].clone());
    }
    assert(infos(copy@) =~= infos(list@));
    copy
}

/// Ask for the records to be changed.
pub fn ask_store(op: StoreOp, replies: &Vec<Reply>, at: usize) -> (progress: Progress<()>)
    ensures
        progress@ == asks_store(op@, history(replies@), at as int),
{
    if at < replies.len() {
        if let Reply::Stored(result) = &replies[at] {
            return match result {
                Ok(_) => Progress::Done((), at + 1),
                Err(error) => Progress::Failed(error.clone(), at + 1),
            };
        }
    }
    Progress::Ask(Effect::Store(op))
}

/// Record a new box.
pub fn record(info: BoxInfo, replies: &Vec<Reply>, at: usize) -> (progress: Progress<BoxInfo>)
    ensures
        progress@ == recording(info@, history(replies@), at as int),
{
    match ask_store(StoreOp::Insert(info.clone()), replies, at) {
        Progress::Ask(effect) => Progress::Ask(effect),
        Progress::Failed(error, next) => Progress::Failed(error, next),
        Progress::Done(_, next) => Progress::Done(info, next),
    }
}

/// Ask for output to be written.
pub fn ask_write(effect: Effect, replies: &Vec<Reply>, at: usize) -> (progress: Progress<()>)
    ensures
        progress@ == asks_write(effect@, history(replies@), at as int),
{
    if at < replies.len() {
        if let Reply::Wrote(result) = &replies[at] {
            return match result {
                Ok(_) => Progress::Done((), at + 1),
                Err(error) => Progress::Failed(error.clone(), at + 1),
            };
        }
    }
    Progress::Ask(effect)
}

/// Ask which directory this process is in.
pub fn ask_directory(replies: &Vec<Reply>, at: usize) -> (progress: Progress<String>)
    ensures
        progress@ == asks_directory(history(replies@), at as int),
{
    if at < replies.len() {
        if let Reply::WorkingDirectory(result) = &replies[at] {
            return match result {
                Ok(path) => Progress::Done(path.clone(), at + 1),
                Err(message) => Progress::Failed(
                    Error::Store {
                        operation: "locate",
                        message: "could not read the working directory: ".to_owned().concat(
                            message.as_str(),
                        ),
                    },
                    at + 1,
                ),
            };
        }
    }
    Progress::Ask(Effect::WorkingDirectory)
}

/// Effects read as their parts do.
pub proof fn an_effect_reads_as_its_parts(effect: Effect, op: StoreOp)
    ensures
        effect is WorkingDirectory ==> effect@ is WorkingDirectory,
        effect matches Effect::Store(inner) ==> effect@ == EffectView::Store(inner@),
        effect matches Effect::Run(request) ==> effect@ == EffectView::Run(request@),
        effect matches Effect::WriteOut(bytes) ==> effect@ == EffectView::WriteOut(bytes@),
        effect matches Effect::WriteErr(bytes) ==> effect@ == EffectView::WriteErr(bytes@),
        op is Allocate ==> op@ is Allocate,
        op matches StoreOp::Insert(info) ==> op@ == StoreOpView::Insert(info@),
        op matches StoreOp::Get(id) ==> op@ == StoreOpView::Get(id@),
        op is List ==> op@ is List,
        op matches StoreOp::SetState(id, state) ==> op@ == StoreOpView::SetState(id@, state),
        op matches StoreOp::Remove(id) ==> op@ == StoreOpView::Remove(id@),
{
}

/// Replies read as their parts do, one after the other.
pub proof fn a_reply_reads_as_its_parts(reply: Reply, replies: Seq<Reply>, list: Seq<BoxInfo>)
    ensures
        reply matches Reply::WorkingDirectory(Ok(path)) ==> reply@ == ReplyView::WorkingDirectory(
            Ok(path@),
        ),
        reply matches Reply::WorkingDirectory(Err(message)) ==> reply@
            == ReplyView::WorkingDirectory(Err(message@)),
        reply matches Reply::Allocated(Ok(id)) ==> reply@ == ReplyView::Allocated(Ok(id@)),
        reply matches Reply::Allocated(Err(error)) ==> reply@ == ReplyView::Allocated(Err(error@)),
        reply matches Reply::Fetched(Ok(info)) ==> reply@ == ReplyView::Fetched(Ok(info@)),
        reply matches Reply::Fetched(Err(error)) ==> reply@ == ReplyView::Fetched(Err(error@)),
        reply matches Reply::Listed(Err(error)) ==> reply@ == ReplyView::Listed(Err(error@)),
        reply matches Reply::Listed(Ok(boxes)) ==> reply@ == ReplyView::Listed(Ok(infos(boxes@))),
        reply matches Reply::Stored(Err(error)) ==> reply@ == ReplyView::Stored(Err(error@)),
        reply matches Reply::Stored(Ok(_)) ==> reply@ is Stored && reply@->Stored_0 is Ok,
        reply matches Reply::Ran(Ok(output)) ==> reply@ == ReplyView::Ran(Ok(output@)),
        reply matches Reply::Ran(Err(error)) ==> reply@ == ReplyView::Ran(Err(error@)),
        reply matches Reply::Wrote(Err(error)) ==> reply@ == ReplyView::Wrote(Err(error@)),
        reply matches Reply::Wrote(Ok(_)) ==> reply@ is Wrote && reply@->Wrote_0 is Ok,
        history(replies).len() == replies.len(),
        forall|i: int| 0 <= i < replies.len() ==> #[trigger] history(replies)[i] == replies[i]@,
        infos(list).len() == list.len(),
        forall|i: int| 0 <= i < list.len() ==> #[trigger] infos(list)[i] == list[i]@,
{
}

/// Where no reply has come yet, a question is asked as it is.
pub proof fn an_unanswered_question_is_asked(
    replies: Seq<ReplyView>,
    request: ExecRequestView,
    id: Seq<char>,
    op: StoreOpView,
    effect: EffectView,
)
    ensures
        ({
            let at = replies.len() as int;
            &&& asks_run(request, replies, at) == ProgressView::<ExecOutputView>::Ask(
                EffectView::Run(request),
            )
            &&& asks_allocate(replies, at) == ProgressView::<Seq<char>>::Ask(
                EffectView::Store(StoreOpView::Allocate),
            )
            &&& asks_fetch(id, replies, at) == ProgressView::<BoxInfoView>::Ask(
                EffectView::Store(StoreOpView::Get(id)),
            )
            &&& asks_list(replies, at) == ProgressView::<Seq<BoxInfoView>>::Ask(
                EffectView::Store(StoreOpView::List),
            )
            &&& asks_store(op, replies, at) == ProgressView::<()>::Ask(EffectView::Store(op))
            &&& asks_write(effect, replies, at) == ProgressView::<()>::Ask(effect)
            &&& asks_directory(replies, at) == ProgressView::<Seq<char>>::Ask(
                EffectView::WorkingDirectory,
            )
        }),
{
}

/// An answer is taken as it came, whatever was replied before and after it, and
/// exactly one reply is used up.
pub proof fn an_answer_is_taken_as_it_came(
    before: Seq<ReplyView>,
    after: Seq<ReplyView>,
    request: ExecRequestView,
    id: Seq<char>,
    output: ExecOutputView,
    info: BoxInfoView,
    boxes: Seq<BoxInfoView>,
    path: Seq<char>,
    error: ErrorView,
)
    ensures
        ({
            let at = before.len() as int;
            &&& asks_run(request, before + seq![ReplyView::Ran(Ok(output))] + after, at)
                == ProgressView::Done(output, at + 1)
            &&& asks_run(request, before + seq![ReplyView::Ran(Err(error))] + after, at)
                == ProgressView::<ExecOutputView>::Failed(error, at + 1)
            &&& asks_allocate(before + seq![ReplyView::Allocated(Ok(id))] + after, at)
                == ProgressView::Done(id, at + 1)
            &&& asks_allocate(before + seq![ReplyView::Allocated(Err(error))] + after, at)
                == ProgressView::<Seq<char>>::Failed(error, at + 1)
            &&& asks_fetch(id, before + seq![ReplyView::Fetched(Ok(info))] + after, at)
                == ProgressView::Done(info, at + 1)
            &&& asks_fetch(id, before + seq![ReplyView::Fetched(Err(error))] + after, at)
                == ProgressView::<BoxInfoView>::Failed(error, at + 1)
            &&& asks_list(before + seq![ReplyView::Listed(Ok(boxes))] + after, at)
                == ProgressView::Done(boxes, at + 1)
            &&& asks_list(before + seq![ReplyView::Listed(Err(error))] + after, at)
                == ProgressView::<Seq<BoxInfoView>>::Failed(error, at + 1)
            &&& asks_directory(before + seq![ReplyView::WorkingDirectory(Ok(path))] + after, at)
                == ProgressView::Done(path, at + 1)
            &&& asks_directory(before + seq![ReplyView::WorkingDirectory(Err(path))] + after, at)
                == ProgressView::<Seq<char>>::Failed(
                ErrorView::Store {
                    operation: "locate"@,
                    message: "could not read the working directory: "@ + path,
                },
                at + 1,
            )
        }),
{
}

/// A change or a write that was answered is done, or failed with the error that
/// came.
pub proof fn a_deed_is_taken_as_it_came(
    before: Seq<ReplyView>,
    after: Seq<ReplyView>,
    op: StoreOpView,
    effect: EffectView,
    error: ErrorView,
)
    ensures
        ({
            let at = before.len() as int;
            let stored = asks_store(op, before + seq![ReplyView::Stored(Ok(()))] + after, at);
            let wrote = asks_write(effect, before + seq![ReplyView::Wrote(Ok(()))] + after, at);
            &&& stored is Done && stored->Done_1 == at + 1
            &&& wrote is Done && wrote->Done_1 == at + 1
            &&& asks_store(op, before + seq![ReplyView::Stored(Err(error))] + after, at)
                == ProgressView::<()>::Failed(error, at + 1)
            &&& asks_write(effect, before + seq![ReplyView::Wrote(Err(error))] + after, at)
                == ProgressView::<()>::Failed(error, at + 1)
        }),
{
}

} // verus!
