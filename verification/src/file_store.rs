//! A box store that survives the process that wrote it.
//!
//! `create` and `exec` are separate processes, so a box recorded by the first
//! has to still exist for the second. The records are one document on disk.
//! Reading and writing it is somebody else's work: an operation on the store is
//! a conversation about the file, which says what to do with it next.
//!
//! A document is written to a temporary file beside the target and renamed over
//! it, so a reader sees either the old document or the new one, never half of
//! one. Two processes that write at the same moment can still lose one update:
//! the last one wins.

use vstd::prelude::*;
use vstd::string::*;

use crate::conversation::{Reply, ReplyView, StoreOp, StoreOpView};
use crate::error::{Error, ErrorView};
use crate::path;
use crate::runtime::BoxInfoView;
use crate::store::Records;
use crate::text;

verus! {

/// What reading the document came to.
#[derive(Debug, PartialEq, Eq)]
pub enum Document {
    /// There is no file. That is an empty store, so a first run needs no setup.
    Missing,
    /// The file cannot be read, and why.
    Unreadable(String),
    /// The file holds something else, and what is wrong with it.
    Malformed(String),
    /// The file holds these records.
    Loaded(Records),
}

/// A [`Document`] with its strings as their characters.
pub enum DocumentView {
    Missing,
    Unreadable(Seq<char>),
    Malformed(Seq<char>),
    Loaded(Map<Seq<char>, BoxInfoView>),
}

impl View for Document {
    type V = DocumentView;

    open spec fn view(&self) -> DocumentView {
        match *self {
            Document::Missing => DocumentView::Missing,
            Document::Unreadable(message) => DocumentView::Unreadable(message@),
            Document::Malformed(message) => DocumentView::Malformed(message@),
            Document::Loaded(records) => DocumentView::Loaded(records@),
        }
    }
}

/// Something to do with files.
#[derive(Debug, PartialEq, Eq)]
pub enum FileEffect {
    /// Read the document at this path.
    Read(String),
    /// Create this directory and those above it.
    CreateDir(String),
    /// Write these records out as text.
    Encode(Records),
    /// Write a text to this path.
    Write(String, String),
    /// Rename the first path to the second, replacing what is there.
    Rename(String, String),
}

/// A [`FileEffect`] with its strings as their characters.
pub enum FileEffectView {
    Read(Seq<char>),
    CreateDir(Seq<char>),
    Encode(Map<Seq<char>, BoxInfoView>),
    Write(Seq<char>, Seq<char>),
    Rename(Seq<char>, Seq<char>),
}

impl View for FileEffect {
    type V = FileEffectView;

    open spec fn view(&self) -> FileEffectView {
        match *self {
            FileEffect::Read(target) => FileEffectView::Read(target@),
            FileEffect::CreateDir(directory) => FileEffectView::CreateDir(directory@),
            FileEffect::Encode(records) => FileEffectView::Encode(records@),
            FileEffect::Write(target, contents) => FileEffectView::Write(target@, contents@),
            FileEffect::Rename(source, target) => FileEffectView::Rename(source@, target@),
        }
    }
}

/// What came of a [`FileEffect`].
#[derive(Debug, PartialEq, Eq)]
pub enum FileReply {
    /// The document was read.
    Read(Document),
    /// The directory is there, or why it is not.
    Created(Result<(), String>),
    /// The records as text, or why they cannot be written down.
    Encoded(Result<String, String>),
    /// The text was written, or why not.
    Written(Result<(), String>),
    /// The file was renamed, or why not.
    Renamed(Result<(), String>),
}

/// A [`FileReply`] with its strings as their characters.
pub enum FileReplyView {
    Read(DocumentView),
    Created(Result<(), Seq<char>>),
    Encoded(Result<Seq<char>, Seq<char>>),
    Written(Result<(), Seq<char>>),
    Renamed(Result<(), Seq<char>>),
}

/// Whether something was done, or the characters of why not.
pub open spec fn deed(result: Result<(), String>) -> Result<(), Seq<char>> {
    match result {
        Ok(_) => Ok(()),
        Err(message) => Err(message@),
    }
}

impl View for FileReply {
    type V = FileReplyView;

    open spec fn view(&self) -> FileReplyView {
        match *self {
            FileReply::Read(document) => FileReplyView::Read(document@),
            FileReply::Created(result) => FileReplyView::Created(deed(result)),
            FileReply::Encoded(Ok(contents)) => FileReplyView::Encoded(Ok(contents@)),
            FileReply::Encoded(Err(message)) => FileReplyView::Encoded(Err(message@)),
            FileReply::Written(result) => FileReplyView::Written(deed(result)),
            FileReply::Renamed(result) => FileReplyView::Renamed(deed(result)),
        }
    }
}

/// The replies so far.
pub open spec fn file_history(replies: Seq<FileReply>) -> Seq<FileReplyView> {
    Seq::new(replies.len(), |i: int| replies[i]@)
}

/// How far an operation on the file has come.
#[derive(Debug, PartialEq, Eq)]
pub enum FileProgress {
    /// It needs this to go on.
    Ask(FileEffect),
    /// It is over, and this is its answer.
    Done(Reply),
}

/// A [`FileProgress`] with its strings as their characters.
pub enum FileProgressView {
    Ask(FileEffectView),
    Done(ReplyView),
}

impl View for FileProgress {
    type V = FileProgressView;

    open spec fn view(&self) -> FileProgressView {
        match *self {
            FileProgress::Ask(effect) => FileProgressView::Ask(effect@),
            FileProgress::Done(reply) => FileProgressView::Done(reply@),
        }
    }
}

/// A failure of the store.
pub open spec fn store_failure(operation: Seq<char>, message: Seq<char>) -> ErrorView {
    ErrorView::Store { operation, message }
}

/// The answer to an operation that failed before it reached the records.
pub open spec fn refusal(op: StoreOpView, error: ErrorView) -> ReplyView {
    match op {
        StoreOpView::Allocate => ReplyView::Allocated(Err(error)),
        StoreOpView::Get(_) => ReplyView::Fetched(Err(error)),
        StoreOpView::List => ReplyView::Listed(Err(error)),
        _ => ReplyView::Stored(Err(error)),
    }
}

/// The temporary file that a document is written to first.
pub open spec fn temporary_path(target: Seq<char>) -> Seq<char> {
    path::with_extension(target, "json.tmp"@)
}

/// What to do next, given the replies to an operation on the file `target`.
pub open spec fn transaction(target: Seq<char>, op: StoreOpView, replies: Seq<FileReplyView>) -> FileProgressView {
    if replies.len() > 0 && replies[0] is Read {
        match replies[0]->Read_0 {
            DocumentView::Missing => update(target, Map::empty(), op, replies),
            DocumentView::Unreadable(message) => FileProgressView::Done(
                refusal(op, store_failure("read"@, message)),
            ),
            DocumentView::Malformed(message) => FileProgressView::Done(
                refusal(
                    op,
                    store_failure("parse"@, target + " is not a valid box store: "@ + message),
                ),
            ),
            DocumentView::Loaded(records) => update(target, records, op, replies),
        }
    } else {
        FileProgressView::Ask(FileEffectView::Read(target))
    }
}

/// What to do once the records have been read. An operation that changes
/// nothing, or that is refused, writes nothing.
pub open spec fn update(
    target: Seq<char>,
    records: Map<Seq<char>, BoxInfoView>,
    op: StoreOpView,
    replies: Seq<FileReplyView>,
) -> FileProgressView {
    let reply = crate::store::records_reply(records, op);
    if reply == ReplyView::Stored(Ok(())) {
        replacement(target, crate::store::records_after(records, op), replies)
    } else {
        FileProgressView::Done(reply)
    }
}

/// The answer to a change whose document could not be written.
pub open spec fn unwritten(operation: Seq<char>, message: Seq<char>) -> FileProgressView {
    FileProgressView::Done(ReplyView::Stored(Err(store_failure(operation, message))))
}

/// What to do to replace the document at `target` with these records.
pub open spec fn replacement(
    target: Seq<char>,
    records: Map<Seq<char>, BoxInfoView>,
    replies: Seq<FileReplyView>,
) -> FileProgressView {
    match path::parent_directory(target) {
        None => unwritten("write"@, target + " has no parent directory"@),
        Some(parent) => if replies.len() > 1 && replies[1] is Created {
            match replies[1]->Created_0 {
                Err(message) => unwritten("create"@, message),
                Ok(_) => if replies.len() > 2 && replies[2] is Encoded {
                    match replies[2]->Encoded_0 {
                        Err(message) => unwritten("encode"@, message),
                        Ok(contents) => placement(target, contents, replies),
                    }
                } else {
                    FileProgressView::Ask(FileEffectView::Encode(records))
                },
            }
        } else {
            FileProgressView::Ask(FileEffectView::CreateDir(parent))
        },
    }
}

/// What to do to put a finished document in its place.
pub open spec fn placement(target: Seq<char>, contents: Seq<char>, replies: Seq<FileReplyView>) -> FileProgressView {
    let temporary = temporary_path(target);
    if replies.len() > 3 && replies[3] is Written {
        match replies[3]->Written_0 {
            Err(message) => unwritten("write"@, message),
            Ok(_) => if replies.len() > 4 && replies[4] is Renamed {
                match replies[4]->Renamed_0 {
                    Err(message) => unwritten("rename"@, message),
                    Ok(_) => FileProgressView::Done(ReplyView::Stored(Ok(()))),
                }
            } else {
                FileProgressView::Ask(FileEffectView::Rename(temporary, target))
            },
        }
    } else {
        FileProgressView::Ask(FileEffectView::Write(temporary, contents))
    }
}

/// The path of a user's box records below the directory that a variable names.
pub open spec fn chosen_path(
    state_dir: Option<Seq<char>>,
    xdg_state_home: Option<Seq<char>>,
    home: Option<Seq<char>>,
) -> Option<Seq<char>> {
    if state_dir is Some {
        Some(path::joined_path(state_dir->0, "boxes.json"@))
    } else if xdg_state_home is Some {
        Some(
            path::joined_path(path::joined_path(xdg_state_home->0, "tinybox"@), "boxes.json"@),
        )
    } else if home is Some {
        let local = path::joined_path(path::joined_path(home->0, ".local"@), "state"@);
        Some(path::joined_path(path::joined_path(local, "tinybox"@), "boxes.json"@))
    } else {
        None
    }
}

/// The characters of an optional string.
pub open spec fn given(text: Option<&str>) -> Option<Seq<char>> {
    match text {
        Some(text) => Some(text@),
        None => None,
    }
}

/// A store backed by a document on disk.
#[derive(Debug, PartialEq, Eq)]
pub struct FileStore {
    path: String,
}

impl View for FileStore {
    type V = Seq<char>;

    closed spec fn view(&self) -> Seq<char> {
        self.path@
    }
}

impl Clone for FileStore {
    fn clone(&self) -> (copy: Self)
        ensures
            copy@ == self@,
    {
        FileStore { path: self.path.clone() }
    }
}

impl FileStore {
    /// Keep box records at `path`.
    pub fn new(path: String) -> (store: FileStore)
        ensures
            store@ == path@,
    {
        FileStore { path }
    }

    /// Where this store keeps its records.
    pub fn path(&self) -> (path: &str)
        ensures
            path@ == self@,
    {
        self.path.as_str()
    }

    /// Choose a store path from the three variables that can determine it:
    /// `TINYBOX_STATE_DIR` first, so that a scripted run can be kept
    /// self-contained, then `XDG_STATE_HOME`, then `~/.local/state`.
    pub fn resolve_path(
        state_dir: Option<&str>,
        xdg_state_home: Option<&str>,
        home: Option<&str>,
    ) -> (resolved: Result<String, Error>)
        ensures
            match resolved {
                Ok(path) => chosen_path(given(state_dir), given(xdg_state_home), given(home))
                    == Some(path@),
                Err(error) => {
                    &&& state_dir is None && xdg_state_home is None && home is None
                    &&& error@ == store_failure(
                        "locate"@,
                        "set TINYBOX_STATE_DIR, XDG_STATE_HOME, or HOME"@,
                    )
                },
            },
    {
        if let Some(dir) = state_dir {
            return Ok(path::join(dir, "boxes.json"));
        }
        if let Some(dir) = xdg_state_home {
            let own: String = path::join(dir, "tinybox");
            return Ok(path::join(own.as_str(), "boxes.json"));
        }
        if let Some(dir) = home {
            let hidden: String = path::join(dir, ".local");
            let state: String = path::join(hidden.as_str(), "state");
            let own: String = path::join(state.as_str(), "tinybox");
            return Ok(path::join(own.as_str(), "boxes.json"));
        }
        Err(
            Error::Store {
                operation: "locate",
                message: "set TINYBOX_STATE_DIR, XDG_STATE_HOME, or HOME".to_owned(),
            },
        )
    }

    /// Perform an operation, given the replies about the file so far.
    pub fn perform(&self, op: &StoreOp, replies: &Vec<FileReply>) -> (progress: FileProgress)
        ensures
            progress@ == transaction(self@, op@, file_history(replies@)),
    {
        if replies.len() > 0 {
            if let FileReply::Read(document) = &replies[0] {
                return match document {
                    Document::Missing => self.update(Records::new(), op, replies),
                    Document::Unreadable(message) => FileProgress::Done(
                        refuse(op, Error::Store { operation: "read", message: message.clone() }),
                    ),
                    Document::Malformed(message) => FileProgress::Done(
                        refuse(
                            op,
                            Error::Store {
                                operation: "parse",
                                message: text::concat3(
                                    self.path.as_str(),
                                    " is not a valid box store: ",
                                    message.as_str(),
                                ),
                            },
                        ),
                    ),
                    Document::Loaded(records) => self.update(records.clone(), op, replies),
                };
            }
        }
        FileProgress::Ask(FileEffect::Read(self.path.clone()))
    }

    /// What to do once the records have been read.
    fn update(&self, records: Records, op: &StoreOp, replies: &Vec<FileReply>) -> (progress:
        FileProgress)
        ensures
            progress@ == update(self@, records@, op@, file_history(replies@)),
    {
        let mut records: Records = records;
        match records.perform(op) {
            Reply::Stored(Ok(_)) => self.write(records, replies),
            reply => FileProgress::Done(reply),
        }
    }

    /// What to do to replace the document with these records.
    fn write(&self, records: Records, replies: &Vec<FileReply>) -> (progress: FileProgress)
        ensures
            progress@ == replacement(self@, records@, file_history(replies@)),
    {
        let parent: String = match path::parent(self.path.as_str()) {
            Some(parent) => parent,
            None => {
                return fail("write", self.path.clone().concat(" has no parent directory"));
            },
        };
        if replies.len() > 1 {
            if let FileReply::Created(created) = &replies[1] {
                if let Err(message) = created {
                    return fail("create", message.clone());
                }
                if replies.len() > 2 {
                    if let FileReply::Encoded(encoded) = &replies[2] {
                        return match encoded {
                            Ok(contents) => self.place(contents, replies),
                            Err(message) => fail("encode", message.clone()),
                        };
                    }
                }
                return FileProgress::Ask(FileEffect::Encode(records));
            }
        }
        FileProgress::Ask(FileEffect::CreateDir(parent))
    }

    /// What to do to put a finished document in its place.
    fn place(&self, contents: &String, replies: &Vec<FileReply>) -> (progress: FileProgress)
        ensures
            progress@ == placement(self@, contents@, file_history(replies@)),
    {
        proof {
            reveal_strlit("json.tmp");
        }
        let temporary: String = path::replace_extension(self.path.as_str(), "json.tmp");
        if replies.len() > 3 {
            if let FileReply::Written(written) = &replies[3] {
                if let Err(message) = written {
                    return fail("write", message.clone());
                }
                if replies.len() > 4 {
                    if let FileReply::Renamed(renamed) = &replies[4] {
                        return match renamed {
                            Ok(_) => FileProgress::Done(Reply::Stored(Ok(()))),
                            Err(message) => fail("rename", message.clone()),
                        };
                    }
                }
                return FileProgress::Ask(FileEffect::Rename(temporary, self.path.clone()));
            }
        }
        FileProgress::Ask(FileEffect::Write(temporary, contents.clone()))
    }
}

/// The answer to an operation that failed before it reached the records.
fn refuse(op: &StoreOp, error: Error) -> (reply: Reply)
    ensures
        reply@ == refusal(op@, error@),
{
    match op {
        StoreOp::Allocate => Reply::Allocated(Err(error)),
        StoreOp::Get(_) => Reply::Fetched(Err(error)),
        StoreOp::List => Reply::Listed(Err(error)),
        _ => Reply::Stored(Err(error)),
    }
}

/// The answer to a change whose document could not be written.
fn fail(operation: &'static str, message: String) -> (progress: FileProgress)
    ensures
        progress@ == unwritten(operation@, message@),
{
    FileProgress::Done(Reply::Stored(Err(Error::Store { operation, message })))
}

/// The records that a document which was read stands for.
pub open spec fn records_read(document: DocumentView) -> Option<Map<Seq<char>, BoxInfoView>> {
    match document {
        DocumentView::Missing => Some(Map::empty()),
        DocumentView::Loaded(records) => Some(records),
        _ => None,
    }
}

/// Whether an effect changes the file at a path.
pub open spec fn touches(effect: FileEffectView, target: Seq<char>) -> bool {
    match effect {
        FileEffectView::Write(written, _) => written == target,
        FileEffectView::Rename(source, renamed) => source == target || renamed == target,
        _ => false,
    }
}

/// The text of the records after an operation was asked for, and written to
/// the temporary file.
pub open spec fn a_whole_document_was_written(
    target: Seq<char>,
    op: StoreOpView,
    replies: Seq<FileReplyView>,
) -> bool {
    &&& replies.len() >= 4
    &&& replies[0] is Read
    &&& records_read(replies[0]->Read_0) matches Some(records)
    &&& transaction(target, op, replies.take(2)) == FileProgressView::Ask(
        FileEffectView::Encode(crate::store::records_after(records, op)),
    )
    &&& replies[2] is Encoded
    &&& replies[2]->Encoded_0 matches Ok(contents)
    &&& transaction(target, op, replies.take(3)) == FileProgressView::Ask(
        FileEffectView::Write(temporary_path(target), contents),
    )
    &&& replies[3] is Written
    &&& replies[3]->Written_0 is Ok
}

/// A reader sees the old document or the new one, never half of one: nothing
/// that an operation asks for touches the document but one rename, from a
/// temporary file to which the whole text of the new records has been written.
/// That is so wherever the temporary file is not the document itself.
pub proof fn the_document_is_replaced_whole(
    target: Seq<char>,
    op: StoreOpView,
    replies: Seq<FileReplyView>,
    effect: FileEffectView,
)
    requires
        transaction(target, op, replies) == FileProgressView::Ask(effect),
        touches(effect, target),
    ensures
        temporary_path(target) != target ==> {
            &&& effect == FileEffectView::Rename(temporary_path(target), target)
            &&& a_whole_document_was_written(target, op, replies)
        },
{
    assert(replies.take(3)[0] == replies[0]);
    assert(replies.take(3)[1] == replies[1]);
    assert(replies.take(3)[2] == replies[2]);
    assert(replies.take(2)[0] == replies[0]);
    assert(replies.take(2)[1] == replies[1]);
}

/// An operation that changes nothing, or that is refused, leaves the file
/// alone: it is over as soon as the document has been read.
pub proof fn only_a_change_is_written(
    target: Seq<char>,
    op: StoreOpView,
    replies: Seq<FileReplyView>,
)
    requires
        replies.len() > 0,
        replies[0] is Read,
        records_read(replies[0]->Read_0) matches Some(records) ==> crate::store::records_reply(
            records,
            op,
        ) != ReplyView::Stored(Ok(())),
    ensures
        transaction(target, op, replies) is Done,
{
}

/// A store on disk answers as one in memory does that holds the records of the
/// document, whenever the file works.
pub proof fn a_file_answers_as_its_records_do(
    target: Seq<char>,
    op: StoreOpView,
    replies: Seq<FileReplyView>,
    contents: Seq<char>,
)
    requires
        replies.len() == 5,
        replies[0] is Read,
        records_read(replies[0]->Read_0) is Some,
        replies[1] == FileReplyView::Created(Ok(())),
        replies[2] == FileReplyView::Encoded(Ok(contents)),
        replies[3] == FileReplyView::Written(Ok(())),
        replies[4] == FileReplyView::Renamed(Ok(())),
    ensures
        path::parent_directory(target) is Some ==> transaction(target, op, replies)
            == FileProgressView::Done(
            crate::store::records_reply(records_read(replies[0]->Read_0)->0, op),
        ),
{
}

/// The files of a disk, each with its text.
pub type Disk = Map<Seq<char>, Seq<char>>;

/// What an effect that succeeded makes of the files.
pub open spec fn disk_after(disk: Disk, effect: FileEffectView) -> Disk {
    match effect {
        FileEffectView::Write(target, contents) => disk.insert(target, contents),
        FileEffectView::Rename(source, target) => disk.remove(source).insert(target, disk[source]),
        _ => disk,
    }
}

/// What an operation whose effects all succeeded has made of the files.
pub open spec fn disk_left(
    disk: Disk,
    target: Seq<char>,
    op: StoreOpView,
    replies: Seq<FileReplyView>,
) -> Disk
    decreases replies.len(),
{
    if replies.len() == 0 {
        disk
    } else {
        let before = replies.drop_last();
        let left = disk_left(disk, target, op, before);
        match transaction(target, op, before) {
            FileProgressView::Ask(effect) => disk_after(left, effect),
            FileProgressView::Done(_) => left,
        }
    }
}

/// The replies to a change that is written: these records were read, and the
/// new ones were encoded as this text, written and put in place.
pub open spec fn is_written(
    replies: Seq<FileReplyView>,
    records: Map<Seq<char>, BoxInfoView>,
    contents: Seq<char>,
) -> bool {
    &&& replies.len() == 5
    &&& replies[0] is Read
    &&& records_read(replies[0]->Read_0) == Some(records)
    &&& replies[1] == FileReplyView::Created(Ok(()))
    &&& replies[2] == FileReplyView::Encoded(Ok(contents))
    &&& replies[3] == FileReplyView::Written(Ok(()))
    &&& replies[4] == FileReplyView::Renamed(Ok(()))
}

/// A change that is written replaces the whole document by the text of the new
/// records. Nothing of the earlier one remains, no temporary file is left, and
/// no other file is touched.
pub proof fn a_change_replaces_the_document(
    disk: Disk,
    target: Seq<char>,
    op: StoreOpView,
    replies: Seq<FileReplyView>,
    records: Map<Seq<char>, BoxInfoView>,
    contents: Seq<char>,
)
    requires
        is_written(replies, records, contents),
        crate::store::records_reply(records, op) == ReplyView::Stored(Ok(())),
    ensures
        path::parent_directory(target) is Some ==> {
            let left = disk_left(disk, target, op, replies);
            &&& transaction(target, op, replies) == FileProgressView::Done(
                ReplyView::Stored(Ok(())),
            )
            &&& transaction(target, op, replies.take(2)) == FileProgressView::Ask(
                FileEffectView::Encode(crate::store::records_after(records, op)),
            )
            &&& left.contains_key(target)
            &&& left[target] == contents
            &&& temporary_path(target) != target ==> left == disk.remove(
                temporary_path(target),
            ).insert(target, contents)
        },
{
    if path::parent_directory(target) is Some {
        let temporary = temporary_path(target);
        let one = replies.take(1);
        let two = replies.take(2);
        let three = replies.take(3);
        let four = replies.take(4);
        assert(replies.drop_last() =~= four);
        assert(four.drop_last() =~= three);
        assert(three.drop_last() =~= two);
        assert(two.drop_last() =~= one);
        assert(one.drop_last() =~= Seq::empty());
        assert(disk_left(disk, target, op, one.drop_last()) == disk);
        assert(disk_left(disk, target, op, one) == disk);
        assert(disk_left(disk, target, op, two) == disk);
        assert(disk_left(disk, target, op, three) == disk);
        assert(disk_left(disk, target, op, four) == disk.insert(temporary, contents));
        if temporary != target {
            assert(disk.insert(temporary, contents).remove(temporary) =~= disk.remove(temporary));
        }
    }
}

/// What one process wrote, the next one reads, whichever the change was: where
/// the text of the new records reads as those records, every later operation
/// works on them and on nothing else. A listing gives them all, in order.
pub proof fn a_change_is_read_from_disk(
    disk: Disk,
    target: Seq<char>,
    op: StoreOpView,
    replies: Seq<FileReplyView>,
    records: Map<Seq<char>, BoxInfoView>,
    contents: Seq<char>,
    decoded: spec_fn(Seq<char>) -> DocumentView,
    later: StoreOpView,
)
    requires
        is_written(replies, records, contents),
        crate::store::records_reply(records, op) == ReplyView::Stored(Ok(())),
        decoded(contents) == DocumentView::Loaded(crate::store::records_after(records, op)),
    ensures
        path::parent_directory(target) is Some ==> {
            let left = disk_left(disk, target, op, replies);
            let changed = crate::store::records_after(records, op);
            let read = seq![FileReplyView::Read(decoded(left[target]))];
            &&& records_read(read[0]->Read_0) == Some(changed)
            &&& transaction(target, later, read) == update(target, changed, later, read)
            &&& !crate::store::changes(later) ==> transaction(target, later, read)
                == FileProgressView::Done(crate::store::records_reply(changed, later))
            &&& transaction(target, StoreOpView::List, read) == FileProgressView::Done(
                ReplyView::Listed(Ok(crate::store::in_order(changed))),
            )
        },
{
    a_change_replaces_the_document(disk, target, op, replies, records, contents);
}

/// Whatever a change asks to be encoded is what a later operation works on, once
/// it is what the document holds.
pub proof fn encoded_records_are_read_back(
    target: Seq<char>,
    op: StoreOpView,
    written: Seq<FileReplyView>,
    records: Map<Seq<char>, BoxInfoView>,
    later: StoreOpView,
)
    requires
        transaction(target, op, written) == FileProgressView::Ask(FileEffectView::Encode(records)),
    ensures
        ({
            let read = seq![FileReplyView::Read(DocumentView::Loaded(records))];
            &&& written.len() > 0
            &&& written[0] is Read
            &&& records_read(written[0]->Read_0) matches Some(before)
            &&& records == crate::store::records_after(before, op)
            &&& transaction(target, later, read) == update(target, records, later, read)
            &&& !crate::store::changes(later) ==> transaction(target, later, read)
                == FileProgressView::Done(crate::store::records_reply(records, later))
            &&& transaction(target, StoreOpView::List, read) == FileProgressView::Done(
                ReplyView::Listed(Ok(crate::store::in_order(records))),
            )
        }),
{
}

/// What one process recorded, the next one reads: once the document holds the
/// records that were asked to be written, the inserted record is found in it.
pub proof fn an_inserted_record_is_read_from_disk(
    target: Seq<char>,
    info: BoxInfoView,
    written: Seq<FileReplyView>,
    records: Map<Seq<char>, BoxInfoView>,
)
    requires
        transaction(target, StoreOpView::Insert(info), written) == FileProgressView::Ask(
            FileEffectView::Encode(records),
        ),
    ensures
        transaction(
            target,
            StoreOpView::Get(info.id),
            seq![FileReplyView::Read(DocumentView::Loaded(records))],
        ) == FileProgressView::Done(ReplyView::Fetched(Ok(info))),
{
}

/// Records are kept below the first of the three variables that is set.
pub proof fn the_first_variable_decides(
    state_dir: Seq<char>,
    xdg_state_home: Seq<char>,
    home: Seq<char>,
    any: Option<Seq<char>>,
    other: Option<Seq<char>>,
)
    ensures
        chosen_path(Some(state_dir), any, other) == Some(
            path::joined_path(state_dir, "boxes.json"@),
        ),
        chosen_path(None, Some(xdg_state_home), any) == Some(
            path::joined_path(path::joined_path(xdg_state_home, "tinybox"@), "boxes.json"@),
        ),
        chosen_path(None, None, Some(home)) == Some(
            path::joined_path(
                path::joined_path(
                    path::joined_path(path::joined_path(home, ".local"@), "state"@),
                    "tinybox"@,
                ),
                "boxes.json"@,
            ),
        ),
        chosen_path(None, None, None) is None,
{
}

/// The document is read first, and one that is missing holds no records. One
/// that cannot be read, or that holds something else, fails every operation.
pub proof fn the_document_is_read_first(
    target: Seq<char>,
    op: StoreOpView,
    message: Seq<char>,
    records: Map<Seq<char>, BoxInfoView>,
)
    ensures
        ({
            let empty = Map::<Seq<char>, BoxInfoView>::empty();
            let missing = seq![FileReplyView::Read(DocumentView::Missing)];
            let loaded = seq![FileReplyView::Read(DocumentView::Loaded(records))];
            let unreadable = transaction(
                target,
                op,
                seq![FileReplyView::Read(DocumentView::Unreadable(message))],
            );
            let malformed = transaction(
                target,
                op,
                seq![FileReplyView::Read(DocumentView::Malformed(message))],
            );
            let read = ErrorView::Store { operation: "read"@, message };
            let parsed = ErrorView::Store {
                operation: "parse"@,
                message: target + " is not a valid box store: "@ + message,
            };
            &&& transaction(target, op, Seq::empty()) == FileProgressView::Ask(
                FileEffectView::Read(target),
            )
            &&& !(op is Insert) && !(op is SetState) && !(op is Remove) ==> {
                &&& transaction(target, op, loaded) == FileProgressView::Done(
                    crate::store::records_reply(records, op),
                )
                &&& transaction(target, op, missing) == FileProgressView::Done(
                    crate::store::records_reply(empty, op),
                )
            }
            &&& op is Allocate ==> unreadable == FileProgressView::Done(
                ReplyView::Allocated(Err(read)),
            ) && malformed == FileProgressView::Done(ReplyView::Allocated(Err(parsed)))
            &&& op is Get ==> unreadable == FileProgressView::Done(ReplyView::Fetched(Err(read)))
                && malformed == FileProgressView::Done(ReplyView::Fetched(Err(parsed)))
            &&& op is List ==> unreadable == FileProgressView::Done(ReplyView::Listed(Err(read)))
                && malformed == FileProgressView::Done(ReplyView::Listed(Err(parsed)))
            &&& op is Insert || op is SetState || op is Remove ==> unreadable
                == FileProgressView::Done(ReplyView::Stored(Err(read))) && malformed
                == FileProgressView::Done(ReplyView::Stored(Err(parsed)))
        }),
{
}

/// A change is written step by step: the directory, the text, the temporary
/// file, and the rename. Each step that fails ends it with an error of its own.
pub proof fn a_change_is_written_step_by_step(
    target: Seq<char>,
    op: StoreOpView,
    records: Map<Seq<char>, BoxInfoView>,
    contents: Seq<char>,
    message: Seq<char>,
)
    requires
        crate::store::records_reply(records, op) == ReplyView::Stored(Ok(())),
    ensures
        ({
            let temporary = path::with_extension(target, "json.tmp"@);
            let read = seq![FileReplyView::Read(DocumentView::Loaded(records))];
            let created = read.push(FileReplyView::Created(Ok(())));
            let encoded = created.push(FileReplyView::Encoded(Ok(contents)));
            let written = encoded.push(FileReplyView::Written(Ok(())));
            let renamed = written.push(FileReplyView::Renamed(Ok(())));
            match path::parent_directory(target) {
                None => transaction(target, op, read) == FileProgressView::Done(
                    ReplyView::Stored(
                        Err(
                            ErrorView::Store {
                                operation: "write"@,
                                message: target + " has no parent directory"@,
                            },
                        ),
                    ),
                ),
                Some(parent) => {
                    &&& transaction(target, op, read) == FileProgressView::Ask(
                        FileEffectView::CreateDir(parent),
                    )
                    &&& transaction(target, op, read.push(FileReplyView::Created(Err(message))))
                        == FileProgressView::Done(
                        ReplyView::Stored(Err(ErrorView::Store { operation: "create"@, message })),
                    )
                    &&& transaction(target, op, created) == FileProgressView::Ask(
                        FileEffectView::Encode(crate::store::records_after(records, op)),
                    )
                    &&& transaction(target, op, created.push(FileReplyView::Encoded(Err(message))))
                        == FileProgressView::Done(
                        ReplyView::Stored(Err(ErrorView::Store { operation: "encode"@, message })),
                    )
                    &&& transaction(target, op, encoded) == FileProgressView::Ask(
                        FileEffectView::Write(temporary, contents),
                    )
                    &&& transaction(target, op, encoded.push(FileReplyView::Written(Err(message))))
                        == FileProgressView::Done(
                        ReplyView::Stored(Err(ErrorView::Store { operation: "write"@, message })),
                    )
                    &&& transaction(target, op, written) == FileProgressView::Ask(
                        FileEffectView::Rename(temporary, target),
                    )
                    &&& transaction(target, op, written.push(FileReplyView::Renamed(Err(message))))
                        == FileProgressView::Done(
                        ReplyView::Stored(Err(ErrorView::Store { operation: "rename"@, message })),
                    )
                    &&& transaction(target, op, renamed) == FileProgressView::Done(
                        ReplyView::Stored(Ok(())),
                    )
                },
            }
        }),
{
}

/// A change that is refused ends with its own error, and nothing is written.
pub proof fn a_refused_change_is_not_written(
    target: Seq<char>,
    op: StoreOpView,
    records: Map<Seq<char>, BoxInfoView>,
    error: ErrorView,
)
    requires
        crate::store::records_reply(records, op) == ReplyView::Stored(Err(error)),
    ensures
        transaction(target, op, seq![FileReplyView::Read(DocumentView::Loaded(records))])
            == FileProgressView::Done(ReplyView::Stored(Err(error))),
{
}

/// What is done with files reads as its parts do.
pub proof fn a_file_effect_reads_as_its_parts(
    effect: FileEffect,
    reply: FileReply,
    document: Document,
    replies: Seq<FileReply>,
)
    ensures
        effect matches FileEffect::Read(target) ==> effect@ == FileEffectView::Read(target@),
        effect matches FileEffect::CreateDir(target) ==> effect@ == FileEffectView::CreateDir(
            target@,
        ),
        effect matches FileEffect::Encode(records) ==> effect@ == FileEffectView::Encode(records@),
        effect matches FileEffect::Write(target, contents) ==> effect@ == FileEffectView::Write(
            target@,
            contents@,
        ),
        effect matches FileEffect::Rename(source, target) ==> effect@ == FileEffectView::Rename(
            source@,
            target@,
        ),
        reply matches FileReply::Read(inner) ==> reply@ == FileReplyView::Read(inner@),
        reply matches FileReply::Created(Err(message)) ==> reply@ == FileReplyView::Created(
            Err(message@),
        ),
        reply matches FileReply::Created(Ok(_)) ==> reply@ is Created && reply@->Created_0 is Ok,
        reply matches FileReply::Encoded(Ok(contents)) ==> reply@ == FileReplyView::Encoded(
            Ok(contents@),
        ),
        reply matches FileReply::Encoded(Err(message)) ==> reply@ == FileReplyView::Encoded(
            Err(message@),
        ),
        reply matches FileReply::Written(Err(message)) ==> reply@ == FileReplyView::Written(
            Err(message@),
        ),
        reply matches FileReply::Written(Ok(_)) ==> reply@ is Written && reply@->Written_0 is Ok,
        reply matches FileReply::Renamed(Err(message)) ==> reply@ == FileReplyView::Renamed(
            Err(message@),
        ),
        reply matches FileReply::Renamed(Ok(_)) ==> reply@ is Renamed && reply@->Renamed_0 is Ok,
        document is Missing ==> document@ is Missing,
        document matches Document::Unreadable(message) ==> document@ == DocumentView::Unreadable(
            message@,
        ),
        document matches Document::Malformed(message) ==> document@ == DocumentView::Malformed(
            message@,
        ),
        document matches Document::Loaded(records) ==> document@ == DocumentView::Loaded(records@),
        file_history(replies).len() == replies.len(),
        forall|i: int| 0 <= i < replies.len() ==> #[trigger] file_history(replies)[i]
            == replies[i]@,
{
}

} // verus!
