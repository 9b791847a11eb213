//! The box store on disk.

use std::collections::BTreeMap;

use tinybox::box_spec::{BoxSpec, Placement, WorkspaceSource};
use tinybox::conversation::{Reply, StoreOp};
use tinybox::error::Error;
use tinybox::file_store::{Document, FileEffect, FileProgress, FileReply, FileStore};
use tinybox::identity::{BoxId, HostRef, SandboxRef};
use tinybox::runtime::{BoxInfo, BoxState};
use tinybox::store::Records;

/// A file system that holds texts, and remembers the records that each text it
/// was asked to encode stands for.
struct Disk {
    files: BTreeMap<String, String>,
    encoded: BTreeMap<String, Records>,
    log: Vec<String>,
    failing: &'static str,
}

impl Disk {
    fn new() -> Disk {
        Disk {
            files: BTreeMap::new(),
            encoded: BTreeMap::new(),
            log: Vec::new(),
            failing: "",
        }
    }

    fn outcome(&self, step: &str) -> Result<(), String> {
        if self.failing == step {
            Err(format!("{step} is broken"))
        } else {
            Ok(())
        }
    }

    fn perform(&mut self, effect: FileEffect) -> FileReply {
        match effect {
            FileEffect::Read(path) => {
                self.log.push(format!("read {path}"));
                FileReply::Read(match self.files.get(&path) {
                    None => Document::Missing,
                    Some(text) => match self.encoded.get(text) {
                        Some(records) => Document::Loaded(records.clone()),
                        None => Document::Malformed("expected value".to_owned()),
                    },
                })
            }
            FileEffect::CreateDir(path) => {
                self.log.push(format!("create {path}"));
                FileReply::Created(self.outcome("create"))
            }
            FileEffect::Encode(records) => {
                self.log.push("encode".to_owned());
                FileReply::Encoded(self.outcome("encode").map(|()| {
                    let text = format!("document {}", self.encoded.len());
                    self.encoded.insert(text.clone(), records);
                    text
                }))
            }
            FileEffect::Write(path, text) => {
                self.log.push(format!("write {path}"));
                let outcome = self.outcome("write");
                if outcome.is_ok() {
                    self.files.insert(path, text);
                } else {
                    self.files.insert(path, "half a docu".to_owned());
                }
                FileReply::Written(outcome)
            }
            FileEffect::Rename(source, target) => {
                self.log.push(format!("rename {source} {target}"));
                let outcome = self.outcome("rename");
                if outcome.is_ok() {
                    if let Some(text) = self.files.remove(&source) {
                        self.files.insert(target, text);
                    }
                }
                FileReply::Renamed(outcome)
            }
        }
    }

    fn run(&mut self, store: &FileStore, op: StoreOp) -> Reply {
        let mut replies = Vec::new();
        loop {
            match store.perform(&op, &replies) {
                FileProgress::Ask(effect) => {
                    let reply = self.perform(effect);
                    replies.push(reply);
                }
                FileProgress::Done(reply) => return reply,
            }
        }
    }
}

fn store() -> FileStore {
    FileStore::new("/state/boxes.json".to_owned())
}

fn id(name: &str) -> Result<BoxId, Error> {
    BoxId::new(name)
}

fn info(name: &str) -> Result<BoxInfo, Error> {
    Ok(BoxInfo::new(
        BoxId::new(name)?,
        BoxState::Ready,
        BoxSpec::new(
            Placement::new(HostRef::new("local")?, SandboxRef::new("passthrough")?),
            WorkspaceSource::LocalDir("/srv/work".to_owned()),
        ),
    ))
}

#[test]
fn a_missing_file_is_an_empty_store() -> Result<(), Error> {
    let mut disk = Disk::new();

    assert_eq!(
        disk.run(&store(), StoreOp::List),
        Reply::Listed(Ok(Vec::new()))
    );
    assert_eq!(
        disk.run(&store(), StoreOp::Allocate),
        Reply::Allocated(BoxId::new("box-0"))
    );
    assert_eq!(
        disk.run(&store(), StoreOp::Get(id("box-0")?)),
        Reply::Fetched(Err(Error::UnknownBox {
            id: "box-0".to_owned()
        }))
    );
    // Looking writes nothing.
    assert_eq!(disk.log, vec!["read /state/boxes.json"; 3]);
    Ok(())
}

#[test]
fn a_record_outlives_the_process_that_wrote_it() -> Result<(), Error> {
    let mut disk = Disk::new();

    assert_eq!(
        disk.run(&store(), StoreOp::Insert(info("box-0")?)),
        Reply::Stored(Ok(()))
    );
    assert_eq!(
        disk.log,
        [
            "read /state/boxes.json",
            "create /state",
            "encode",
            "write /state/boxes.json.tmp",
            "rename /state/boxes.json.tmp /state/boxes.json",
        ]
    );
    assert_eq!(
        disk.run(&store(), StoreOp::Get(id("box-0")?)),
        Reply::Fetched(info("box-0"))
    );
    assert_eq!(
        disk.run(&store(), StoreOp::Allocate),
        Reply::Allocated(BoxId::new("box-1"))
    );
    assert_eq!(
        disk.run(
            &store(),
            StoreOp::SetState(id("box-0")?, BoxState::Stopped)
        ),
        Reply::Stored(Ok(()))
    );
    assert_eq!(
        disk.run(&store(), StoreOp::Remove(id("box-0")?)),
        Reply::Stored(Ok(()))
    );
    assert_eq!(
        disk.run(&store(), StoreOp::List),
        Reply::Listed(Ok(Vec::new()))
    );
    Ok(())
}

#[test]
fn a_refused_change_writes_nothing() -> Result<(), Error> {
    let mut disk = Disk::new();
    disk.run(&store(), StoreOp::Insert(info("box-0")?));
    disk.log.clear();

    assert_eq!(
        disk.run(&store(), StoreOp::Insert(info("box-0")?)),
        Reply::Stored(Err(Error::DuplicateBox {
            id: "box-0".to_owned()
        }))
    );
    assert_eq!(
        disk.run(&store(), StoreOp::Remove(id("box-9")?)),
        Reply::Stored(Err(Error::UnknownBox {
            id: "box-9".to_owned()
        }))
    );
    assert_eq!(disk.log, vec!["read /state/boxes.json"; 2]);
    Ok(())
}

#[test]
fn a_failed_write_leaves_the_document_alone() -> Result<(), Error> {
    for step in ["create", "encode", "write", "rename"] {
        let mut disk = Disk::new();
        disk.run(&store(), StoreOp::Insert(info("box-0")?));
        let document = disk.files["/state/boxes.json"].clone();

        disk.failing = step;
        assert_eq!(
            disk.run(&store(), StoreOp::Insert(info("box-1")?)),
            Reply::Stored(Err(Error::Store {
                operation: step,
                message: format!("{step} is broken"),
            }))
        );
        assert_eq!(disk.files["/state/boxes.json"], document);
        assert_eq!(
            disk.run(&store(), StoreOp::List),
            Reply::Listed(Ok(vec![info("box-0")?]))
        );
    }
    Ok(())
}

#[test]
fn an_unreadable_document_is_reported_by_every_operation() -> Result<(), Error> {
    let unreadable = || Error::Store {
        operation: "read",
        message: "permission denied".to_owned(),
    };
    let replies = vec![FileReply::Read(Document::Unreadable(
        "permission denied".to_owned(),
    ))];

    for (op, reply) in [
        (StoreOp::Allocate, Reply::Allocated(Err(unreadable()))),
        (StoreOp::List, Reply::Listed(Err(unreadable()))),
        (
            StoreOp::Get(id("box-0")?),
            Reply::Fetched(Err(unreadable())),
        ),
        (
            StoreOp::Insert(info("box-0")?),
            Reply::Stored(Err(unreadable())),
        ),
        (
            StoreOp::SetState(id("box-0")?, BoxState::Stopped),
            Reply::Stored(Err(unreadable())),
        ),
        (
            StoreOp::Remove(id("box-0")?),
            Reply::Stored(Err(unreadable())),
        ),
    ] {
        assert_eq!(store().perform(&op, &replies), FileProgress::Done(reply));
    }
    Ok(())
}

#[test]
fn a_malformed_document_names_its_file() {
    let mut disk = Disk::new();
    disk.files
        .insert("/state/boxes.json".to_owned(), "{ not json".to_owned());

    assert_eq!(
        disk.run(&store(), StoreOp::List),
        Reply::Listed(Err(Error::Store {
            operation: "parse",
            message: "/state/boxes.json is not a valid box store: expected value".to_owned(),
        }))
    );
}

#[test]
fn a_path_without_a_directory_cannot_be_written() -> Result<(), Error> {
    let mut disk = Disk::new();

    assert_eq!(
        disk.run(
            &FileStore::new("/".to_owned()),
            StoreOp::Insert(info("box-0")?)
        ),
        Reply::Stored(Err(Error::Store {
            operation: "write",
            message: "/ has no parent directory".to_owned(),
        }))
    );
    Ok(())
}

#[test]
fn a_temporary_file_stands_beside_the_document() -> Result<(), Error> {
    for (path, parent, temporary) in [
        ("boxes.json", "", "boxes.json.tmp"),
        ("/a/b.c/boxes", "/a/b.c", "/a/b.c/boxes.json.tmp"),
        ("/a/boxes.old", "/a", "/a/boxes.json.tmp"),
    ] {
        let mut disk = Disk::new();
        disk.run(
            &FileStore::new(path.to_owned()),
            StoreOp::Insert(info("box-0")?),
        );
        assert_eq!(disk.log[1], format!("create {parent}"));
        assert_eq!(disk.log[3], format!("write {temporary}"));
        assert_eq!(disk.log[4], format!("rename {temporary} {path}"));
    }
    Ok(())
}

#[test]
fn the_first_variable_that_is_set_says_where_records_are() {
    assert_eq!(
        FileStore::resolve_path(Some("/state"), Some("/xdg"), Some("/home/me")),
        Ok("/state/boxes.json".to_owned())
    );
    assert_eq!(
        FileStore::resolve_path(None, Some("/xdg/"), Some("/home/me")),
        Ok("/xdg/tinybox/boxes.json".to_owned())
    );
    assert_eq!(
        FileStore::resolve_path(None, None, Some("/home/me")),
        Ok("/home/me/.local/state/tinybox/boxes.json".to_owned())
    );
    assert_eq!(
        FileStore::resolve_path(Some(""), None, None),
        Ok("boxes.json".to_owned())
    );
    assert_eq!(
        FileStore::resolve_path(Some("/"), None, None),
        Ok("/boxes.json".to_owned())
    );
    assert_eq!(
        FileStore::resolve_path(None, None, None),
        Err(Error::Store {
            operation: "locate",
            message: "set TINYBOX_STATE_DIR, XDG_STATE_HOME, or HOME".to_owned(),
        })
    );
    assert_eq!(store().path(), "/state/boxes.json");
}

#[test]
fn every_change_replaces_the_whole_document() -> Result<(), Error> {
    let mut disk = Disk::new();
    disk.files
        .insert("/state/other".to_owned(), "untouched".to_owned());

    for op in [
        StoreOp::Insert(info("box-0")?),
        StoreOp::Insert(info("box-1")?),
        StoreOp::SetState(id("box-1")?, BoxState::Stopped),
        StoreOp::Remove(id("box-0")?),
    ] {
        assert_eq!(disk.run(&store(), op), Reply::Stored(Ok(())));
        let names: Vec<&str> = disk.files.keys().map(String::as_str).collect();
        assert_eq!(names, ["/state/boxes.json", "/state/other"]);
    }

    let mut stopped = info("box-1")?;
    stopped.state = BoxState::Stopped;
    assert_eq!(
        disk.run(&store(), StoreOp::List),
        Reply::Listed(Ok(vec![stopped]))
    );
    assert_eq!(disk.files["/state/other"], "untouched");
    Ok(())
}
