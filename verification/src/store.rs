//! Which boxes exist.
//!
//! A sandbox does not own the fact that a box exists; a store does. A box is
//! created by one process and used by another, so its record has to outlive
//! both.

use vstd::prelude::*;
use vstd::string::*;

use crate::conversation::{Reply, ReplyView, StoreOp, StoreOpView};
use crate::error::{Error, ErrorView};
use crate::identity::BoxId;
use crate::number;
use crate::ordered::OrderedMap;
use crate::runtime::{BoxInfo, BoxInfoView, BoxState};

verus! {

/// The name that is generated for a number.
pub open spec fn box_name(number: nat) -> Seq<char> {
    seq!['b', 'o', 'x', '-'] + number::decimal_text(number)
}

/// `number` is the lowest whose generated name is free.
pub open spec fn is_lowest_free(records: Map<Seq<char>, BoxInfoView>, number: nat) -> bool {
    &&& !records.contains_key(box_name(number))
    &&& forall|lower: nat| lower < number ==> records.contains_key(#[trigger] box_name(lower))
}

/// The lowest generated name that is free.
pub open spec fn lowest_free_name(records: Map<Seq<char>, BoxInfoView>) -> Seq<char> {
    box_name(choose|number: nat| is_lowest_free(records, number))
}

/// Every record, in the order of the names.
pub open spec fn in_order(records: Map<Seq<char>, BoxInfoView>) -> Seq<BoxInfoView> {
    let pairs = crate::ordered::sorted_pairs(records);
    Seq::new(pairs.len(), |i: int| pairs[i].1)
}

/// A record in another state.
pub open spec fn in_state(info: BoxInfoView, state: BoxState) -> BoxInfoView {
    BoxInfoView { state, ..info }
}

/// What the records are after an operation. A refused one leaves them alone.
pub open spec fn records_after(records: Map<Seq<char>, BoxInfoView>, op: StoreOpView) -> Map<
    Seq<char>,
    BoxInfoView,
> {
    match op {
        StoreOpView::Insert(info) => if records.contains_key(info.id) {
            records
        } else {
            records.insert(info.id, info)
        },
        StoreOpView::SetState(id, state) => if records.contains_key(id) {
            records.insert(id, in_state(records[id], state))
        } else {
            records
        },
        StoreOpView::Remove(id) => records.remove(id),
        _ => records,
    }
}

/// What an operation answers.
pub open spec fn records_reply(records: Map<Seq<char>, BoxInfoView>, op: StoreOpView) -> ReplyView {
    match op {
        StoreOpView::Allocate => ReplyView::Allocated(Ok(lowest_free_name(records))),
        StoreOpView::Insert(info) => ReplyView::Stored(
            if records.contains_key(info.id) {
                Err(ErrorView::DuplicateBox { id: info.id })
            } else {
                Ok(())
            },
        ),
        StoreOpView::Get(id) => ReplyView::Fetched(
            if records.contains_key(id) {
                Ok(records[id])
            } else {
                Err(ErrorView::UnknownBox { id })
            },
        ),
        StoreOpView::List => ReplyView::Listed(Ok(in_order(records))),
        StoreOpView::SetState(id, _) => ReplyView::Stored(
            if records.contains_key(id) {
                Ok(())
            } else {
                Err(ErrorView::UnknownBox { id })
            },
        ),
        StoreOpView::Remove(id) => ReplyView::Stored(
            if records.contains_key(id) {
                Ok(())
            } else {
                Err(ErrorView::UnknownBox { id })
            },
        ),
    }
}

/// Whether an operation that succeeds changes the records.
pub open spec fn changes(op: StoreOpView) -> bool {
    op is Insert || op is SetState || op is Remove
}

/// There is one lowest free number.
pub proof fn lowest_free_is_unique(records: Map<Seq<char>, BoxInfoView>, left: nat, right: nat)
    requires
        is_lowest_free(records, left),
        is_lowest_free(records, right),
    ensures
        left == right,
        lowest_free_name(records) == box_name(left),
{
    if left < right {
        assert(records.contains_key(box_name(left)));
    }
    if right < left {
        assert(records.contains_key(box_name(right)));
    }
    let chosen = choose|number: nat| is_lowest_free(records, number);
    if left < chosen {
        assert(records.contains_key(box_name(left)));
    }
    if chosen < left {
        assert(records.contains_key(box_name(chosen)));
    }
}

/// Different numbers have different names.
pub proof fn box_names_differ(left: nat, right: nat)
    requires
        box_name(left) == box_name(right),
    ensures
        left == right,
{
    assert(box_name(left).skip(4) =~= number::decimal_text(left));
    assert(box_name(right).skip(4) =~= number::decimal_text(right));
    number::decimal_is_injective(left, right);
}

/// Where a name stands in a list.
spec fn place_of(pairs: Seq<(Seq<char>, BoxInfoView)>, name: Seq<char>) -> int {
    choose|i: int| crate::ordered::names(pairs, name, i)
}

/// A list of records has no more generated names than records.
proof fn taken_names_are_few(pairs: Seq<(Seq<char>, BoxInfoView)>, count: nat)
    requires
        forall|number: nat|
            number < count ==> crate::ordered::map_of(pairs).contains_key(#[trigger] box_name(number)),
    ensures
        count <= pairs.len(),
{
    let places = Seq::new(
        count,
        |number: int| place_of(pairs, box_name(number as nat)),
    );
    assert forall|number: int| 0 <= number < count implies crate::ordered::names(
        pairs,
        box_name(number as nat),
        #[trigger] places[number],
    ) by {
        assert(crate::ordered::map_of(pairs).contains_key(box_name(number as nat)));
    }
    assert(places.no_duplicates()) by {
        assert forall|i: int, j: int| 0 <= i < j < count implies places[i] != places[j] by {
            if places[i] == places[j] {
                box_names_differ(i as nat, j as nat);
            }
        }
    }
    places.unique_seq_to_set();
    let range = vstd::set_lib::set_int_range(0, pairs.len() as int);
    vstd::set_lib::lemma_int_range(0, pairs.len() as int);
    assert(places.to_set().subset_of(range)) by {
        assert forall|place: int| places.to_set().contains(place) implies range.contains(place) by {
            let number = choose|number: int| 0 <= number < count && places[number] == place;
            assert(crate::ordered::names(pairs, box_name(number as nat), places[number]));
        }
    }
    vstd::set_lib::lemma_len_subset(places.to_set(), range);
}

/// From the number on below which no name is free, the lowest free one is found.
proof fn a_free_name_follows(pairs: Seq<(Seq<char>, BoxInfoView)>, number: nat)
    requires
        forall|lower: nat|
            lower < number ==> crate::ordered::map_of(pairs).contains_key(#[trigger] box_name(lower)),
    ensures
        exists|lowest: nat|
            lowest <= pairs.len() && #[trigger] is_lowest_free(
                crate::ordered::map_of(pairs),
                lowest,
            ),
    decreases pairs.len() + 1 - number,
{
    taken_names_are_few(pairs, number);
    if crate::ordered::map_of(pairs).contains_key(box_name(number)) {
        taken_names_are_few(pairs, number + 1);
        a_free_name_follows(pairs, number + 1);
    } else {
        assert(is_lowest_free(crate::ordered::map_of(pairs), number));
    }
}

/// There is always a name to allocate, and its number is at most that of the
/// recorded boxes.
pub proof fn a_name_is_always_free(pairs: Seq<(Seq<char>, BoxInfoView)>)
    ensures
        exists|lowest: nat|
            lowest <= pairs.len() && #[trigger] is_lowest_free(
                crate::ordered::map_of(pairs),
                lowest,
            ),
        !crate::ordered::map_of(pairs).contains_key(
            lowest_free_name(crate::ordered::map_of(pairs)),
        ),
{
    a_free_name_follows(pairs, 0);
}

/// A generated name is a valid name.
pub proof fn generated_names_are_names(number: u64)
    ensures
        crate::identity::is_name(box_name(number as nat)),
{
    let name = box_name(number as nat);
    number::decimal_of_u64(number);
    number::decimal_is_digits(number as nat);
    assert forall|i: int| 0 <= i < name.len() implies crate::identity::is_name_character(
        #[trigger] name[i],
    ) by {
        if i >= 4 {
            assert(name[i] == number::decimal_text(number as nat)[i - 4]);
        }
    }
    assert(name[0] == 'b');
}

/// The recorded boxes, each under its name.
#[derive(Debug, PartialEq, Eq)]
pub struct Records {
    boxes: OrderedMap<BoxInfo>,
}

impl View for Records {
    type V = Map<Seq<char>, BoxInfoView>;

    closed spec fn view(&self) -> Map<Seq<char>, BoxInfoView> {
        self.boxes@
    }
}

impl Clone for Records {
    fn clone(&self) -> (copy: Self)
        ensures
            copy@ == self@,
    {
        Records { boxes: self.boxes.clone() }
    }
}

impl Records {
    /// No boxes.
    pub fn new() -> (records: Records)
        ensures
            records@ == Map::<Seq<char>, BoxInfoView>::empty(),
    {
        Records { boxes: OrderedMap::new() }
    }

    /// How many boxes are recorded.
    pub fn len(&self) -> (len: usize)
        ensures
            len == crate::ordered::sorted_pairs(self@).len(),
            crate::ordered::is_sorted(crate::ordered::sorted_pairs(self@)),
            crate::ordered::map_of(crate::ordered::sorted_pairs(self@)) == self@,
    {
        self.boxes.len()
    }

    /// The name and the record at position `i` in the order of the names.
    pub fn entry(&self, i: usize) -> (entry: Option<(&String, &BoxInfo)>)
        ensures
            match entry {
                Some((name, info)) => {
                    &&& i < crate::ordered::sorted_pairs(self@).len()
                    &&& name@ == crate::ordered::sorted_pairs(self@)[i as int].0
                    &&& info@ == crate::ordered::sorted_pairs(self@)[i as int].1
                },
                None => i >= crate::ordered::sorted_pairs(self@).len(),
            },
            crate::ordered::is_sorted(crate::ordered::sorted_pairs(self@)),
            crate::ordered::map_of(crate::ordered::sorted_pairs(self@)) == self@,
    {
        let len: usize = self.boxes.len();
        if i < len {
            let (name, info) = self.boxes.at(i);
            Some((name, info))
        } else {
            None
        }
    }

    /// Put a record under `name`, in place of what is there. This is how a
    /// document is read in, where the last entry of a name counts.
    pub fn put(&mut self, name: String, info: BoxInfo)
        ensures
            final(self)@ == old(self)@.insert(name@, info@),
    {
        self.boxes.insert(name, info);
    }

    /// Record a box under a name that is not taken.
    pub fn insert(&mut self, info: &BoxInfo) -> (inserted: Result<(), Error>)
        ensures
            final(self)@ == records_after(old(self)@, StoreOpView::Insert(info@)),
            ReplyView::Stored(crate::conversation::change(inserted)) == records_reply(
                old(self)@,
                StoreOpView::Insert(info@),
            ),
    {
        if self.boxes.contains_key(info.id.as_str()) {
            return Err(Error::DuplicateBox { id: info.id.as_str().to_owned() });
        }
        self.boxes.insert(info.id.as_str().to_owned(), info.clone());
        Ok(())
    }

    /// Read the record of a box.
    pub fn get(&self, id: &BoxId) -> (fetched: Result<BoxInfo, Error>)
        ensures
            ReplyView::Fetched(crate::runtime::outcome(fetched)) == records_reply(
                self@,
                StoreOpView::Get(id@),
            ),
    {
        match self.boxes.get(id.as_str()) {
            Some(info) => Ok(info.clone()),
            None => Err(Error::UnknownBox { id: id.as_str().to_owned() }),
        }
    }

    /// Read every record, in the order of the names.
    pub fn list(&self) -> (list: Vec<BoxInfo>)
        ensures
            crate::conversation::infos(list@) == in_order(self@),
            crate::ordered::is_sorted(crate::ordered::sorted_pairs(self@)),
            crate::ordered::map_of(crate::ordered::sorted_pairs(self@)) == self@,
    {
        let count: usize = self.boxes.len();
        let mut list: Vec<BoxInfo> = Vec::new();
        let mut i: usize = 0;
        while i < count
            invariant
                i <= count,
                list@.len() == i,
                count == self.boxes.pairs().len(),
                count == crate::ordered::sorted_pairs(self.boxes@).len(),
                forall|j: int|
                    0 <= j < i ==> (#[trigger] list@[j])@ == crate::ordered::sorted_pairs(
                        self.boxes@,
                    )[j].1,
            decreases count - i,
        {
            let (_name, info) = self.boxes.at(i);
            list.push(info.clone());
            i = i + 1;
        }
        assert(crate::conversation::infos(list@) =~= in_order(self@));
        list
    }

    /// Change what is recorded of a box's state.
    pub fn set_state(&mut self, id: &BoxId, state: BoxState) -> (changed: Result<(), Error>)
        ensures
            final(self)@ == records_after(old(self)@, StoreOpView::SetState(id@, state)),
            ReplyView::Stored(crate::conversation::change(changed)) == records_reply(
                old(self)@,
                StoreOpView::SetState(id@, state),
            ),
    {
        let updated: BoxInfo = match self.boxes.get(id.as_str()) {
            Some(info) => {
                let mut updated: BoxInfo = info.clone();
                updated.state = state;
                updated
            },
            None => {
                return Err(Error::UnknownBox { id: id.as_str().to_owned() });
            },
        };
        self.boxes.insert(id.as_str().to_owned(), updated);
        Ok(())
    }

    /// Forget a box.
    pub fn remove(&mut self, id: &BoxId) -> (removed: Result<(), Error>)
        ensures
            final(self)@ == records_after(old(self)@, StoreOpView::Remove(id@)),
            ReplyView::Stored(crate::conversation::change(removed)) == records_reply(
                old(self)@,
                StoreOpView::Remove(id@),
            ),
    {
        match self.boxes.remove(id.as_str()) {
            Some(_info) => Ok(()),
            None => Err(Error::UnknownBox { id: id.as_str().to_owned() }),
        }
    }

    /// Find a name for a new box: the lowest free `box-N`.
    pub fn allocate_id(&self) -> (allocated: Result<BoxId, Error>)
        ensures
            ReplyView::Allocated(crate::runtime::outcome(allocated)) == records_reply(
                self@,
                StoreOpView::Allocate,
            ),
            allocated matches Ok(id) && exists|number: nat|
                is_lowest_free(self@, number) && id@ == box_name(number),
    {
        let count: usize = self.boxes.len();
        let ghost pairs = self.boxes.pairs();
        let mut number: u64 = 0;
        loop
            invariant
                pairs == self.boxes.pairs(),
                count == pairs.len(),
                number <= count,
                forall|lower: nat| lower < number ==> self@.contains_key(#[trigger] box_name(lower)),
            decreases count - number,
        {
            let digits: String = number::decimal(number);
            let name: String = "box-".to_owned().concat(digits.as_str());
            proof {
                reveal_strlit("box-");
                assert(name@ =~= box_name(number as nat));
            }
            if !self.boxes.contains_key(name.as_str()) {
                proof {
                    generated_names_are_names(number);
                    assert(is_lowest_free(self@, number as nat));
                    lowest_free_is_unique(self@, number as nat, number as nat);
                }
                return BoxId::new(name.as_str());
            }
            proof {
                taken_names_are_few(pairs, number as nat + 1);
            }
            number = number + 1;
        }
    }

    /// Perform any of these operations.
    pub fn perform(&mut self, op: &StoreOp) -> (reply: Reply)
        ensures
            final(self)@ == records_after(old(self)@, op@),
            reply@ == records_reply(old(self)@, op@),
    {
        match op {
            StoreOp::Allocate => Reply::Allocated(self.allocate_id()),
            StoreOp::Insert(info) => Reply::Stored(self.insert(info)),
            StoreOp::Get(id) => Reply::Fetched(self.get(id)),
            StoreOp::List => Reply::Listed(Ok(self.list())),
            StoreOp::SetState(id, state) => Reply::Stored(self.set_state(id, *state)),
            StoreOp::Remove(id) => Reply::Stored(self.remove(id)),
        }
    }
}

/// A store for one process, and for tests.
#[derive(Debug, PartialEq, Eq)]
pub struct MemoryStore {
    records: Records,
}

impl View for MemoryStore {
    type V = Map<Seq<char>, BoxInfoView>;

    closed spec fn view(&self) -> Map<Seq<char>, BoxInfoView> {
        self.records@
    }
}

impl Default for MemoryStore {
    fn default() -> (store: Self)
        ensures
            store@ == Map::<Seq<char>, BoxInfoView>::empty(),
    {
        MemoryStore { records: Records::new() }
    }
}

impl MemoryStore {
    /// An empty store.
    pub fn new() -> (store: MemoryStore)
        ensures
            store@ == Map::<Seq<char>, BoxInfoView>::empty(),
    {
        MemoryStore { records: Records::new() }
    }

    /// Record a box under a name that is not taken.
    pub fn insert(&mut self, info: &BoxInfo) -> (inserted: Result<(), Error>)
        ensures
            final(self)@ == records_after(old(self)@, StoreOpView::Insert(info@)),
            ReplyView::Stored(crate::conversation::change(inserted)) == records_reply(
                old(self)@,
                StoreOpView::Insert(info@),
            ),
    {
        self.records.insert(info)
    }

    /// Read the record of a box.
    pub fn get(&self, id: &BoxId) -> (fetched: Result<BoxInfo, Error>)
        ensures
            ReplyView::Fetched(crate::runtime::outcome(fetched)) == records_reply(
                self@,
                StoreOpView::Get(id@),
            ),
    {
        self.records.get(id)
    }

    /// Read every record, in the order of the names.
    pub fn list(&self) -> (listed: Result<Vec<BoxInfo>, Error>)
        ensures
            ReplyView::Listed(crate::conversation::listing(listed)) == records_reply(
                self@,
                StoreOpView::List,
            ),
            crate::ordered::is_sorted(crate::ordered::sorted_pairs(self@)),
            crate::ordered::map_of(crate::ordered::sorted_pairs(self@)) == self@,
    {
        Ok(self.records.list())
    }

    /// Change what is recorded of a box's state.
    pub fn set_state(&mut self, id: &BoxId, state: BoxState) -> (changed: Result<(), Error>)
        ensures
            final(self)@ == records_after(old(self)@, StoreOpView::SetState(id@, state)),
            ReplyView::Stored(crate::conversation::change(changed)) == records_reply(
                old(self)@,
                StoreOpView::SetState(id@, state),
            ),
    {
        self.records.set_state(id, state)
    }

    /// Forget a box.
    pub fn remove(&mut self, id: &BoxId) -> (removed: Result<(), Error>)
        ensures
            final(self)@ == records_after(old(self)@, StoreOpView::Remove(id@)),
            ReplyView::Stored(crate::conversation::change(removed)) == records_reply(
                old(self)@,
                StoreOpView::Remove(id@),
            ),
    {
        self.records.remove(id)
    }

    /// Find a name for a new box: the lowest free `box-N`.
    pub fn allocate_id(&self) -> (allocated: Result<BoxId, Error>)
        ensures
            ReplyView::Allocated(crate::runtime::outcome(allocated)) == records_reply(
                self@,
                StoreOpView::Allocate,
            ),
            allocated matches Ok(id) && exists|number: nat|
                is_lowest_free(self@, number) && id@ == box_name(number),
    {
        self.records.allocate_id()
    }

    /// Perform any of these operations.
    pub fn perform(&mut self, op: &StoreOp) -> (reply: Reply)
        ensures
            final(self)@ == records_after(old(self)@, op@),
            reply@ == records_reply(old(self)@, op@),
    {
        self.records.perform(op)
    }
}

/// A record survives a round trip: what was inserted is what is read, and no
/// other record is touched.
pub proof fn an_inserted_record_is_read_back(
    records: Map<Seq<char>, BoxInfoView>,
    info: BoxInfoView,
    other: Seq<char>,
)
    requires
        !records.contains_key(info.id),
    ensures
        ({
            let after = records_after(records, StoreOpView::Insert(info));
            &&& records_reply(after, StoreOpView::Get(info.id)) == ReplyView::Fetched(Ok(info))
            &&& other != info.id ==> records_reply(after, StoreOpView::Get(other))
                == records_reply(records, StoreOpView::Get(other))
        }),
{
}

/// Inserting a name twice is refused, and the first record stays.
pub proof fn a_second_insert_is_refused(
    records: Map<Seq<char>, BoxInfoView>,
    first: BoxInfoView,
    second: BoxInfoView,
)
    requires
        first.id == second.id,
    ensures
        ({
            let once = records_after(records, StoreOpView::Insert(first));
            &&& records_reply(once, StoreOpView::Insert(second)) == ReplyView::Stored(
                Err(ErrorView::DuplicateBox { id: second.id }),
            )
            &&& records_after(once, StoreOpView::Insert(second)) == once
        }),
{
}

/// Removing a box that was inserted leaves the records as they were, and the
/// box unknown.
pub proof fn removal_undoes_insertion(records: Map<Seq<char>, BoxInfoView>, info: BoxInfoView)
    requires
        !records.contains_key(info.id),
    ensures
        ({
            let inserted = records_after(records, StoreOpView::Insert(info));
            let removed = records_after(inserted, StoreOpView::Remove(info.id));
            &&& removed == records
            &&& records_reply(inserted, StoreOpView::Remove(info.id)) == ReplyView::Stored(Ok(()))
            &&& records_reply(removed, StoreOpView::Get(info.id)) == ReplyView::Fetched(
                Err(ErrorView::UnknownBox { id: info.id }),
            )
        }),
{
    let inserted = records_after(records, StoreOpView::Insert(info));
    assert(records_after(inserted, StoreOpView::Remove(info.id)) =~= records);
}

/// A change of state is read back, and changes nothing else of the box.
pub proof fn a_state_change_is_read_back(
    records: Map<Seq<char>, BoxInfoView>,
    id: Seq<char>,
    state: BoxState,
)
    requires
        records.contains_key(id),
    ensures
        ({
            let after = records_after(records, StoreOpView::SetState(id, state));
            records_reply(after, StoreOpView::Get(id)) == ReplyView::Fetched(
                Ok(in_state(records[id], state)),
            )
        }),
{
}

/// An operation that is refused changes nothing.
pub proof fn a_refused_operation_changes_nothing(
    records: Map<Seq<char>, BoxInfoView>,
    op: StoreOpView,
)
    requires
        records_reply(records, op) matches ReplyView::Stored(Err(_)) || !changes(op),
    ensures
        records_after(records, op) == records,
{
    assert(op matches StoreOpView::Remove(id) ==> records.remove(id) =~= records);
}

/// What is listed is every record once, in strictly increasing order of the
/// names.
pub proof fn a_listing_is_complete_and_ordered(pairs: Seq<(Seq<char>, BoxInfoView)>, id: Seq<char>)
    requires
        crate::ordered::is_sorted(pairs),
    ensures
        ({
            let records = crate::ordered::map_of(pairs);
            &&& in_order(records).len() == pairs.len()
            &&& forall|i: int| 0 <= i < pairs.len() ==> #[trigger] in_order(records)[i] == pairs[i].1
            &&& records.contains_key(id) ==> exists|i: int|
                0 <= i < pairs.len() && #[trigger] pairs[i].0 == id && in_order(records)[i]
                    == records[id]
        }),
{
    let records = crate::ordered::map_of(pairs);
    crate::ordered::sorted_pairs_of(pairs);
    if records.contains_key(id) {
        let i = choose|i: int| crate::ordered::names(pairs, id, i);
        assert(crate::ordered::names(pairs, id, i));
        crate::ordered::sorted_lookup(pairs, i);
        assert(in_order(records)[i] == records[id]);
    }
}

/// An allocated name is free, every lower one is taken, and a name freed below
/// it is the next to be allocated.
pub proof fn allocation_takes_the_lowest_free_name(
    records: Map<Seq<char>, BoxInfoView>,
    number: nat,
    freed: nat,
)
    requires
        is_lowest_free(records, number),
        freed < number,
    ensures
        lowest_free_name(records) == box_name(number),
        !records.contains_key(lowest_free_name(records)),
        lowest_free_name(records_after(records, StoreOpView::Remove(box_name(freed)))) == box_name(
            freed,
        ),
{
    lowest_free_is_unique(records, number, number);
    let after = records_after(records, StoreOpView::Remove(box_name(freed)));
    assert forall|lower: nat| lower < freed implies after.contains_key(
        #[trigger] box_name(lower),
    ) by {
        if box_name(lower) == box_name(freed) {
            box_names_differ(lower, freed);
        }
        assert(records.contains_key(box_name(lower)));
    }
    assert(is_lowest_free(after, freed));
    lowest_free_is_unique(after, freed, freed);
}

/// A generated name is `box-` and the number.
pub proof fn a_generated_name_says_its_number(number: nat)
    ensures
        box_name(number) == "box-"@ + number::decimal_text(number),
{
    reveal_strlit("box-");
    assert("box-"@ =~= seq!['b', 'o', 'x', '-']);
}

/// The name that is allocated is `box-N` for the lowest N that is free.
pub proof fn the_lowest_free_name_is_allocated(pairs: Seq<(Seq<char>, BoxInfoView)>) -> (number: nat)
    ensures
        ({
            let records = crate::ordered::map_of(pairs);
            &&& records_reply(records, StoreOpView::Allocate) == ReplyView::Allocated(
                Ok("box-"@ + number::decimal_text(number)),
            )
            &&& !records.contains_key("box-"@ + number::decimal_text(number))
            &&& forall|lower: nat|
                lower < number ==> records.contains_key(
                    "box-"@ + #[trigger] number::decimal_text(lower),
                )
        }),
{
    let records = crate::ordered::map_of(pairs);
    a_name_is_always_free(pairs);
    let number = choose|number: nat| is_lowest_free(records, number);
    lowest_free_is_unique(records, number, number);
    a_generated_name_says_its_number(number);
    assert forall|lower: nat| lower < number implies records.contains_key(
        "box-"@ + #[trigger] number::decimal_text(lower),
    ) by {
        a_generated_name_says_its_number(lower);
        assert(records.contains_key(box_name(lower)));
    }
    number
}

/// An operation on one box leaves every other alone.
pub proof fn an_operation_touches_one_box(
    records: Map<Seq<char>, BoxInfoView>,
    info: BoxInfoView,
    state: BoxState,
    id: Seq<char>,
    other: Seq<char>,
)
    requires
        other != id,
        info.id == id,
    ensures
        ({
            let inserted = records_after(records, StoreOpView::Insert(info));
            let changed = records_after(records, StoreOpView::SetState(id, state));
            let removed = records_after(records, StoreOpView::Remove(id));
            &&& inserted.contains_key(other) == records.contains_key(other)
            &&& changed.contains_key(other) == records.contains_key(other)
            &&& removed.contains_key(other) == records.contains_key(other)
            &&& records.contains_key(other) ==> inserted[other] == records[other]
            &&& records.contains_key(other) ==> changed[other] == records[other]
            &&& records.contains_key(other) ==> removed[other] == records[other]
        }),
{
}

/// What each operation does to the box it names, and answers of it.
pub proof fn an_operation_does_what_it_says(
    records: Map<Seq<char>, BoxInfoView>,
    info: BoxInfoView,
    state: BoxState,
    id: Seq<char>,
)
    requires
        info.id == id,
    ensures
        ({
            let inserted = records_after(records, StoreOpView::Insert(info));
            let changed = records_after(records, StoreOpView::SetState(id, state));
            let removed = records_after(records, StoreOpView::Remove(id));
            if records.contains_key(id) {
                &&& inserted[id] == records[id]
                &&& changed.contains_key(id)
                &&& changed[id].state == state
                &&& changed[id].id == records[id].id
                &&& changed[id].spec == records[id].spec
                &&& !removed.contains_key(id)
                &&& records_reply(records, StoreOpView::Get(id)) == ReplyView::Fetched(
                    Ok(records[id]),
                )
                &&& records_reply(records, StoreOpView::Insert(info)) == ReplyView::Stored(
                    Err(ErrorView::DuplicateBox { id }),
                )
                &&& records_reply(records, StoreOpView::SetState(id, state)) == ReplyView::Stored(
                    Ok(()),
                )
                &&& records_reply(records, StoreOpView::Remove(id)) == ReplyView::Stored(Ok(()))
            } else {
                &&& inserted.contains_key(id)
                &&& inserted[id] == info
                &&& !changed.contains_key(id)
                &&& !removed.contains_key(id)
                &&& records_reply(records, StoreOpView::Get(id)) == ReplyView::Fetched(
                    Err(ErrorView::UnknownBox { id }),
                )
                &&& records_reply(records, StoreOpView::Insert(info)) == ReplyView::Stored(Ok(()))
                &&& records_reply(records, StoreOpView::SetState(id, state)) == ReplyView::Stored(
                    Err(ErrorView::UnknownBox { id }),
                )
                &&& records_reply(records, StoreOpView::Remove(id)) == ReplyView::Stored(
                    Err(ErrorView::UnknownBox { id }),
                )
            }
        }),
        records_after(records, StoreOpView::Get(id)) == records,
        records_after(records, StoreOpView::List) == records,
        records_after(records, StoreOpView::Allocate) == records,
{
}

/// Listing answers every record, in the order of the names.
pub proof fn a_listing_answers_every_record(pairs: Seq<(Seq<char>, BoxInfoView)>)
    requires
        crate::ordered::is_sorted(pairs),
    ensures
        records_reply(crate::ordered::map_of(pairs), StoreOpView::List) == ReplyView::Listed(
            Ok(Seq::new(pairs.len(), |i: int| pairs[i].1)),
        ),
{
    crate::ordered::sorted_pairs_of(pairs);
    assert(in_order(crate::ordered::map_of(pairs)) =~= Seq::new(pairs.len(), |i: int| pairs[i].1));
}

} // verus!
