//! The box store and its in-memory implementation.

use tinybox::box_spec::{BoxSpec, Placement, WorkspaceSource};
use tinybox::conversation::{Reply, StoreOp};
use tinybox::error::Error;
use tinybox::identity::{BoxId, HostRef, SandboxRef};
use tinybox::runtime::{BoxInfo, BoxState};
use tinybox::store::{MemoryStore, Records};

fn spec() -> Result<BoxSpec, Error> {
    Ok(BoxSpec::new(
        Placement::new(HostRef::new("local")?, SandboxRef::new("passthrough")?),
        WorkspaceSource::LocalDir("/srv/work".into()),
    ))
}

fn info(id: &str) -> Result<BoxInfo, Error> {
    Ok(BoxInfo::new(BoxId::new(id)?, BoxState::Ready, spec()?))
}

#[test]
fn a_record_survives_a_round_trip() -> Result<(), Error> {
    let mut store = MemoryStore::new();
    let recorded = info("box-0")?;

    store.insert(&recorded)?;

    assert_eq!(store.get(&recorded.id)?, recorded);
    assert_eq!(store.list()?, vec![recorded]);
    Ok(())
}

#[test]
fn inserting_the_same_id_twice_is_refused() -> Result<(), Error> {
    let mut store = MemoryStore::new();
    store.insert(&info("box-0")?)?;

    assert_eq!(
        store.insert(&info("box-0")?).err(),
        Some(Error::DuplicateBox {
            id: "box-0".to_owned()
        })
    );
    // The original is untouched.
    assert_eq!(store.list()?.len(), 1);
    Ok(())
}

#[test]
fn an_absent_box_is_reported_rather_than_invented() -> Result<(), Error> {
    let mut store = MemoryStore::new();
    let missing = BoxId::new("absent")?;
    let expected = Some(Error::UnknownBox {
        id: "absent".to_owned(),
    });

    assert_eq!(store.get(&missing).err(), expected);
    assert_eq!(store.remove(&missing).err(), expected);
    assert_eq!(store.set_state(&missing, BoxState::Stopped).err(), expected);
    Ok(())
}

#[test]
fn state_changes_are_recorded() -> Result<(), Error> {
    let mut store = MemoryStore::new();
    let recorded = info("box-0")?;
    store.insert(&recorded)?;

    store.set_state(&recorded.id, BoxState::Stopped)?;

    assert_eq!(store.get(&recorded.id)?.state, BoxState::Stopped);
    Ok(())
}

#[test]
fn removing_a_box_forgets_it() -> Result<(), Error> {
    let mut store = MemoryStore::new();
    let recorded = info("box-0")?;
    store.insert(&recorded)?;

    store.remove(&recorded.id)?;

    assert!(store.list()?.is_empty());
    assert!(store.get(&recorded.id).is_err());
    Ok(())
}

#[test]
fn listing_is_ordered_by_identifier() -> Result<(), Error> {
    let mut store = MemoryStore::new();
    for id in ["box-2", "box-0", "box-1"] {
        store.insert(&info(id)?)?;
    }

    let ids = store
        .list()?
        .into_iter()
        .map(|info| info.id.into_string())
        .collect::<Vec<_>>();

    assert_eq!(ids, ["box-0", "box-1", "box-2"]);
    Ok(())
}

#[test]
fn allocation_takes_the_lowest_free_identifier() -> Result<(), Error> {
    let mut store = MemoryStore::new();

    assert_eq!(store.allocate_id()?.as_str(), "box-0");

    store.insert(&info("box-0")?)?;
    assert_eq!(store.allocate_id()?.as_str(), "box-1");

    store.insert(&info("box-1")?)?;
    assert_eq!(store.allocate_id()?.as_str(), "box-2");
    Ok(())
}

#[test]
fn allocation_reuses_a_gap_left_by_a_removal() -> Result<(), Error> {
    let mut store = MemoryStore::new();
    store.insert(&info("box-0")?)?;
    store.insert(&info("box-1")?)?;

    store.remove(&BoxId::new("box-0")?)?;

    // Reproducible rather than monotonic: the lowest free name is taken, which
    // is what keeps identifiers short and the tests deterministic.
    assert_eq!(store.allocate_id()?.as_str(), "box-0");
    Ok(())
}

#[test]
fn allocation_steps_past_identifiers_that_are_not_generated_names() -> Result<(), Error> {
    let mut store = MemoryStore::new();
    store.insert(&info("hand-named")?)?;

    assert_eq!(store.allocate_id()?.as_str(), "box-0");
    Ok(())
}

#[test]
fn a_default_store_is_empty() -> Result<(), Error> {
    assert!(MemoryStore::default().list()?.is_empty());
    Ok(())
}

#[test]
fn allocation_counts_past_one_digit() -> Result<(), Error> {
    let mut store = MemoryStore::new();
    for number in 0..12 {
        assert_eq!(store.allocate_id()?.as_str(), format!("box-{number}"));
        store.insert(&info(&format!("box-{number}"))?)?;
    }

    // Names are ordered as text, so the tenth box stands between the second
    // and the third.
    let ids = store
        .list()?
        .into_iter()
        .map(|info| info.id.into_string())
        .collect::<Vec<_>>();
    assert_eq!(ids[0..5], ["box-0", "box-1", "box-10", "box-11", "box-2"]);
    Ok(())
}

#[test]
fn removal_undoes_insertion() -> Result<(), Error> {
    let mut store = MemoryStore::new();
    store.insert(&info("box-1")?)?;
    let before = store.list()?;

    store.insert(&info("box-0")?)?;
    store.remove(&BoxId::new("box-0")?)?;

    assert_eq!(store.list()?, before);
    Ok(())
}

#[test]
fn a_change_of_state_changes_nothing_else() -> Result<(), Error> {
    let mut store = MemoryStore::new();
    store.insert(&info("box-0")?)?;
    store.insert(&info("box-1")?)?;

    store.set_state(&BoxId::new("box-1")?, BoxState::Stopped)?;

    let changed = store.get(&BoxId::new("box-1")?)?;
    assert_eq!(changed.spec, spec()?);
    assert_eq!(changed.id.as_str(), "box-1");
    assert_eq!(store.get(&BoxId::new("box-0")?)?, info("box-0")?);
    Ok(())
}

#[test]
fn operations_answer_as_the_methods_do() -> Result<(), Error> {
    let mut store = MemoryStore::new();
    assert_eq!(
        store.perform(&StoreOp::Allocate),
        Reply::Allocated(BoxId::new("box-0"))
    );
    assert_eq!(
        store.perform(&StoreOp::Insert(info("box-0")?)),
        Reply::Stored(Ok(()))
    );
    assert_eq!(
        store.perform(&StoreOp::Get(BoxId::new("box-0")?)),
        Reply::Fetched(info("box-0"))
    );
    assert_eq!(
        store.perform(&StoreOp::List),
        Reply::Listed(Ok(vec![info("box-0")?]))
    );
    assert_eq!(
        store.perform(&StoreOp::SetState(BoxId::new("box-0")?, BoxState::Stopped)),
        Reply::Stored(Ok(()))
    );
    assert_eq!(
        store.perform(&StoreOp::Remove(BoxId::new("box-0")?)),
        Reply::Stored(Ok(()))
    );
    assert_eq!(
        store.perform(&StoreOp::Remove(BoxId::new("box-0")?)),
        Reply::Stored(Err(Error::UnknownBox {
            id: "box-0".to_owned()
        }))
    );
    Ok(())
}

#[test]
fn records_are_read_in_the_order_of_their_names() -> Result<(), Error> {
    let mut records = Records::new();
    records.put("b".to_owned(), info("box-1")?);
    records.put("a".to_owned(), info("box-0")?);
    // The last entry of a name counts.
    records.put("b".to_owned(), info("box-2")?);

    assert_eq!(records.len(), 2);
    assert_eq!(
        records.entry(0),
        Some((&"a".to_owned(), &info("box-0")?))
    );
    assert_eq!(
        records.entry(1),
        Some((&"b".to_owned(), &info("box-2")?))
    );
    assert_eq!(records.entry(2), None);
    Ok(())
}
