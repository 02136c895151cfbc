//! The registry of a node's live transports.

use crate::alias::{is_alias, random_alias, Alias};
use crate::error::{ApiError, ErrorView, Kind, Origin};
use crate::text::{
    is_before, lemma_before_is_total, lemma_before_is_transitive, lemma_not_before_itself,
    same_text, text_before,
};
use vstd::prelude::*;

verus! {

#[derive(Clone, Copy, Debug, PartialEq, Eq, Structural)]
pub enum TransportType {
    Tcp,
    Ble,
    WebSocket,
}

#[derive(Clone, Copy, Debug, PartialEq, Eq, Structural)]
pub enum TransportMode {
    /// The node waits for peers at the address.
    Listen,
    /// The node is connected to a peer at the address.
    Connect,
}

/// One network binding of the node.
#[derive(Clone, Debug, PartialEq, Eq)]
pub struct Transport {
    pub tt: TransportType,
    pub tm: TransportMode,
    pub address: String,
}

pub struct TransportView {
    pub tt: TransportType,
    pub tm: TransportMode,
    pub address: Seq<char>,
}

impl View for Transport {
    type V = TransportView;

    open spec fn view(&self) -> TransportView {
        TransportView { tt: self.tt, tm: self.tm, address: self.address@ }
    }
}

impl Transport {
    pub fn new(tt: TransportType, tm: TransportMode, address: String) -> (t: Transport)
        ensures
            t@ == (TransportView { tt, tm, address: address@ }),
    {
        Transport { tt, tm, address }
    }

    pub fn duplicate(&self) -> (t: Transport)
        ensures
            t@ == self@,
    {
        Transport { tt: self.tt, tm: self.tm, address: self.address.clone() }
    }
}

/// A transport as a listing shows it.
#[derive(Clone, Debug, PartialEq, Eq)]
pub struct TransportStatus {
    pub tt: TransportType,
    pub tm: TransportMode,
    pub payload: String,
    pub tid: Alias,
}

pub struct StatusView {
    pub tt: TransportType,
    pub tm: TransportMode,
    pub payload: Seq<char>,
    pub tid: Seq<char>,
}

impl View for TransportStatus {
    type V = StatusView;

    open spec fn view(&self) -> StatusView {
        StatusView { tt: self.tt, tm: self.tm, payload: self.payload@, tid: self.tid@ }
    }
}

/// A registered transport under its alias.
pub struct Entry {
    pub alias: Seq<char>,
    pub transport: TransportView,
}

pub open spec fn statuses(v: Seq<TransportStatus>) -> Seq<StatusView> {
    v.map_values(|s: TransportStatus| s@)
}

pub open spec fn status_of(entry: Entry) -> StatusView {
    StatusView {
        tt: entry.transport.tt,
        tm: entry.transport.tm,
        payload: entry.transport.address,
        tid: entry.alias,
    }
}

/// Whether a transport stands under `alias`.
pub open spec fn holds(entries: Seq<Entry>, alias: Seq<char>) -> bool {
    exists|i: int| 0 <= i < entries.len() && (#[trigger] entries[i]).alias == alias
}

/// No alias names two transports.
pub open spec fn distinct_aliases(entries: Seq<Entry>) -> bool {
    forall|i: int, j: int|
        0 <= i < j < entries.len() ==> (#[trigger] entries[i]).alias
            != (#[trigger] entries[j]).alias
}

/// The transports stand in the order of their aliases, as the keys of a
/// sorted map do.
pub open spec fn sorted_aliases(entries: Seq<Entry>) -> bool {
    forall|i: int, j: int|
        0 <= i < j < entries.len() ==> text_before(
            (#[trigger] entries[i]).alias,
            (#[trigger] entries[j]).alias,
        )
}

/// The first place at or after `from` whose alias does not come before
/// `alias`: where a new transport under `alias` belongs.
pub open spec fn rank_from(entries: Seq<Entry>, alias: Seq<char>, from: int) -> int
    decreases entries.len() - from,
{
    if 0 <= from < entries.len() && text_before(entries[from].alias, alias) {
        rank_from(entries, alias, from + 1)
    } else {
        from
    }
}

/// Where `alias` stands, if it stands anywhere.
pub open spec fn place_of(entries: Seq<Entry>, alias: Seq<char>) -> int {
    choose|i: int| 0 <= i < entries.len() && (#[trigger] entries[i]).alias == alias
}

/// The registry after `transport` was put under `alias`: in the place of the
/// transport that stood there, or else where the order of the aliases has
/// it.
pub open spec fn inserted(entries: Seq<Entry>, alias: Seq<char>, transport: TransportView) -> Seq<
    Entry,
> {
    let entry = Entry { alias, transport };
    if holds(entries, alias) {
        entries.update(place_of(entries, alias), entry)
    } else {
        entries.insert(rank_from(entries, alias, 0), entry)
    }
}

/// The registry without the transport under `alias`.
pub open spec fn removed(entries: Seq<Entry>, alias: Seq<char>) -> Seq<Entry> {
    if holds(entries, alias) {
        entries.remove(place_of(entries, alias))
    } else {
        entries
    }
}

/// The transports of one mode, in the order of the registry, which is that
/// of their aliases.
pub open spec fn listing(entries: Seq<Entry>, mode: TransportMode) -> Seq<StatusView>
    decreases entries.len(),
{
    if entries.len() == 0 {
        Seq::empty()
    } else {
        let before = listing(entries.drop_last(), mode);
        if entries.last().transport.tm == mode {
            before.push(status_of(entries.last()))
        } else {
            before
        }
    }
}

pub open spec fn unknown_transport() -> ErrorView {
    ErrorView { origin: Origin::Api, kind: Kind::NotFound, message: "Transport not found"@ }
}

struct Slot {
    alias: Alias,
    transport: Transport,
}

spec fn entries_of(slots: Seq<Slot>) -> Seq<Entry> {
    slots.map_values(|s: Slot| Entry { alias: s.alias@, transport: s.transport@ })
}

/// The live transports of a node, each under its alias.
pub struct TransportRegistry {
    slots: Vec<Slot>,
}

impl View for TransportRegistry {
    type V = Seq<Entry>;

    closed spec fn view(&self) -> Seq<Entry> {
        entries_of(self.slots@)
    }
}

impl TransportRegistry {
    /// The transports stand in the order of their aliases, so that no alias
    /// names two of them.
    pub open spec fn wf(&self) -> bool {
        sorted_aliases(self@)
    }

    pub fn new() -> (registry: TransportRegistry)
        ensures
            registry.wf(),
            registry@ == Seq::<Entry>::empty(),
    {
        assert(entries_of(Seq::<Slot>::empty()) =~= Seq::<Entry>::empty());
        TransportRegistry { slots: Vec::new() }
    }

    pub fn len(&self) -> (n: usize)
        ensures
            n == self@.len(),
    {
        self.slots.len()
    }

    fn position(&self, alias: &str) -> (place: Option<usize>)
        requires
            self.wf(),
        ensures
            match place {
                Some(i) => i < self@.len() && self@[i as int].alias == alias@ && i == place_of(
                    self@,
                    alias@,
                ),
                None => !holds(self@, alias@),
            },
    {
        proof {
            lemma_sorted_is_distinct(self@);
        }
        let mut i: usize = 0;
        while i < self.slots.len()
            invariant
                distinct_aliases(entries_of(self.slots@)),
                i <= self.slots.len(),
                forall|j: int|
                    0 <= j < i ==> (#[trigger] entries_of(self.slots@)[j]).alias != alias@,
            decreases self.slots.len() - i,
        {
            if same_text(self.slots[i].alias.as_str(), alias) {
                proof {
                    let entries = entries_of(self.slots@);
                    assert(entries[i as int].alias == alias@);
                    let j = place_of(entries, alias@);
                    assert(entries[j].alias == alias@);
                    assert(i == j);
                }
                return Some(i);
            }
            i += 1;
        }
        None
    }

    /// Where a new transport under `alias` belongs.
    fn rank(&self, alias: &str) -> (at: usize)
        ensures
            at <= self@.len(),
            at == rank_from(self@, alias@, 0),
    {
        let mut i: usize = 0;
        while i < self.slots.len() && is_before(self.slots[i].alias.as_str(), alias)
            invariant
                i <= self.slots.len(),
                rank_from(entries_of(self.slots@), alias@, 0) == rank_from(
                    entries_of(self.slots@),
                    alias@,
                    i as int,
                ),
            decreases self.slots.len() - i,
        {
            i += 1;
        }
        i
    }

    pub fn contains(&self, alias: &str) -> (found: bool)
        requires
            self.wf(),
        ensures
            found == holds(self@, alias@),
    {
        self.position(alias).is_some()
    }

    /// The transport under `alias`.
    pub fn get(&self, alias: &str) -> (found: Option<&Transport>)
        requires
            self.wf(),
        ensures
            match found {
                Some(t) => holds(self@, alias@) && t@ == self@[place_of(self@, alias@)].transport,
                None => !holds(self@, alias@),
            },
    {
        match self.position(alias) {
            Some(i) => Some(&self.slots[i].transport),
            None => None,
        }
    }

    /// Puts `transport` under `alias`. A transport that stood under that
    /// alias gives way to it.
    pub fn insert(&mut self, alias: Alias, transport: Transport)
        requires
            old(self).wf(),
        ensures
            final(self).wf(),
            final(self)@ == inserted(old(self)@, alias@, transport@),
    {
        let ghost entry = Entry { alias: alias@, transport: transport@ };
        proof {
            lemma_inserted(self@, alias@, transport@);
        }
        match self.position(alias.as_str()) {
            Some(i) => {
                self.slots.set(i, Slot { alias, transport });
                assert(entries_of(self.slots@) =~= entries_of(old(self).slots@).update(
                    i as int,
                    entry,
                ));
            },
            None => {
                let at = self.rank(alias.as_str());
                self.slots.insert(at, Slot { alias, transport });
                assert(entries_of(self.slots@) =~= entries_of(old(self).slots@).insert(
                    at as int,
                    entry,
                ));
            },
        }
    }

    /// Registers `transport` under a new alias, and returns the alias.
    pub fn add_transport(&mut self, transport: Transport) -> (alias: Alias)
        requires
            old(self).wf(),
        ensures
            final(self).wf(),
            is_alias(alias@),
            final(self)@ == inserted(old(self)@, alias@, transport@),
    {
        let alias = random_alias();
        self.insert(alias.clone(), transport);
        alias
    }

    /// Takes the transport under `alias` out of the registry.
    pub fn remove(&mut self, alias: &str) -> (taken: Result<Transport, ApiError>)
        requires
            old(self).wf(),
        ensures
            final(self).wf(),
            final(self)@ == removed(old(self)@, alias@),
            match taken {
                Ok(t) => holds(old(self)@, alias@) && t@ == old(self)@[place_of(
                    old(self)@,
                    alias@,
                )].transport,
                Err(e) => !holds(old(self)@, alias@) && e@ == unknown_transport(),
            },
    {
        proof {
            lemma_removed(self@, alias@);
        }
        match self.position(alias) {
            Some(i) => {
                let slot = self.slots.remove(i);
                assert(entries_of(self.slots@) =~= entries_of(old(self).slots@).remove(i as int));
                Ok(slot.transport)
            },
            None => Err(ApiError::not_found("Transport not found")),
        }
    }

    /// The transports of one mode, in the order of their aliases.
    pub fn list(&self, mode: TransportMode) -> (found: Vec<TransportStatus>)
        ensures
            statuses(found@) == listing(self@, mode),
    {
        let mut found: Vec<TransportStatus> = Vec::new();
        let ghost entries = entries_of(self.slots@);
        let mut i: usize = 0;
        assert(entries.take(0) =~= Seq::<Entry>::empty());
        while i < self.slots.len()
            invariant
                entries == entries_of(self.slots@),
                i <= self.slots.len(),
                statuses(found@) == listing(entries.take(i as int), mode),
            decreases self.slots.len() - i,
        {
            proof {
                assert(entries.take(i + 1).drop_last() == entries.take(i as int));
                assert(entries.take(i + 1).last() == entries[i as int]);
            }
            let slot = &self.slots[i];
            if slot.transport.tm == mode {
                let status = TransportStatus {
                    tt: slot.transport.tt,
                    tm: slot.transport.tm,
                    payload: slot.transport.address.clone(),
                    tid: slot.alias.clone(),
                };
                assert(statuses(found@.push(status)) == statuses(found@).push(status@));
                found.push(status);
            }
            i += 1;
        }
        assert(entries.take(i as int) == entries);
        found
    }
}

/// Every line of a listing shows a transport of the registry.
pub proof fn lemma_listing_shows_entries(entries: Seq<Entry>, mode: TransportMode, k: int)
    requires
        0 <= k < listing(entries, mode).len(),
    ensures
        exists|i: int|
            0 <= i < entries.len() && listing(entries, mode)[k] == status_of(#[trigger] entries[i])
                && entries[i].transport.tm == mode,
    decreases entries.len(),
{
    let before = listing(entries.drop_last(), mode);
    if k < before.len() {
        lemma_listing_shows_entries(entries.drop_last(), mode, k);
        let i = choose|i: int|
            0 <= i < entries.drop_last().len() && before[k] == status_of(
                #[trigger] entries.drop_last()[i],
            ) && entries.drop_last()[i].transport.tm == mode;
        assert(entries[i] == entries.drop_last()[i]);
    } else {
        assert(entries[entries.len() - 1] == entries.last());
    }
}

/// Transports that stand in the order of their aliases have aliases that
/// differ.
pub proof fn lemma_sorted_is_distinct(entries: Seq<Entry>)
    requires
        sorted_aliases(entries),
    ensures
        distinct_aliases(entries),
{
    assert forall|i: int, j: int| 0 <= i < j < entries.len() implies (#[trigger] entries[i]).alias
        != (#[trigger] entries[j]).alias by {
        lemma_not_before_itself(entries[i].alias);
    }
}

proof fn lemma_rank(entries: Seq<Entry>, alias: Seq<char>, from: int)
    requires
        0 <= from <= entries.len(),
    ensures
        from <= rank_from(entries, alias, from) <= entries.len(),
        forall|j: int|
            from <= j < rank_from(entries, alias, from) ==> text_before(
                (#[trigger] entries[j]).alias,
                alias,
            ),
        rank_from(entries, alias, from) < entries.len() ==> !text_before(
            entries[rank_from(entries, alias, from)].alias,
            alias,
        ),
    decreases entries.len() - from,
{
    if from < entries.len() && text_before(entries[from].alias, alias) {
        lemma_rank(entries, alias, from + 1);
    }
}

/// Putting a transport into a registry keeps the order of the aliases, and
/// the transport then stands under its alias.
pub proof fn lemma_inserted(entries: Seq<Entry>, alias: Seq<char>, transport: TransportView)
    requires
        sorted_aliases(entries),
    ensures
        sorted_aliases(inserted(entries, alias, transport)),
        holds(inserted(entries, alias, transport), alias),
        inserted(entries, alias, transport)[place_of(
            inserted(entries, alias, transport),
            alias,
        )].transport == transport,
{
    lemma_sorted_is_distinct(entries);
    let entry = Entry { alias, transport };
    let after = inserted(entries, alias, transport);
    if holds(entries, alias) {
        let p = place_of(entries, alias);
        assert(after[p] == entry);
        assert forall|i: int, j: int| 0 <= i < j < after.len() implies text_before(
            (#[trigger] after[i]).alias,
            (#[trigger] after[j]).alias,
        ) by {
            assert(entries[i].alias == after[i].alias);
            assert(entries[j].alias == after[j].alias);
        }
        lemma_sorted_is_distinct(after);
        let q = place_of(after, alias);
        assert(after[q].alias == alias);
        if q < p {
            assert(after[q].alias != after[p].alias);
        } else if p < q {
            assert(after[p].alias != after[q].alias);
        }
    } else {
        let r = rank_from(entries, alias, 0);
        lemma_rank(entries, alias, 0);
        assert(after[r] == entry);
        if r < entries.len() {
            assert(entries[r].alias != alias);
            lemma_before_is_total(alias, entries[r].alias);
        }
        assert forall|i: int, j: int| 0 <= i < j < after.len() implies text_before(
            (#[trigger] after[i]).alias,
            (#[trigger] after[j]).alias,
        ) by {
            if j < r {
                assert(after[i] == entries[i]);
                assert(after[j] == entries[j]);
            } else if j == r {
                assert(after[i] == entries[i]);
            } else {
                assert(after[j] == entries[j - 1]);
                if i < r {
                    assert(after[i] == entries[i]);
                } else if i == r {
                    if j - 1 > r {
                        assert(text_before(entries[r].alias, entries[j - 1].alias));
                        lemma_before_is_transitive(alias, entries[r].alias, entries[j - 1].alias);
                    }
                } else {
                    assert(after[i] == entries[i - 1]);
                }
            }
        }
        lemma_sorted_is_distinct(after);
        let q = place_of(after, alias);
        assert(after[q].alias == alias);
        if q < r {
            assert(after[q].alias != after[r].alias);
        } else if r < q {
            assert(after[r].alias != after[q].alias);
        }
    }
}

/// Taking the transport under an alias out of a registry keeps the order of
/// the aliases, and leaves nothing under that alias.
pub proof fn lemma_removed(entries: Seq<Entry>, alias: Seq<char>)
    requires
        sorted_aliases(entries),
    ensures
        sorted_aliases(removed(entries, alias)),
        !holds(removed(entries, alias), alias),
{
    lemma_sorted_is_distinct(entries);
    let after = removed(entries, alias);
    if holds(entries, alias) {
        let p = place_of(entries, alias);
        assert forall|i: int, j: int| 0 <= i < j < after.len() implies text_before(
            (#[trigger] after[i]).alias,
            (#[trigger] after[j]).alias,
        ) by {
            let a = if i < p { i } else { i + 1 };
            let b = if j < p { j } else { j + 1 };
            assert(after[i] == entries[a]);
            assert(after[j] == entries[b]);
        }
        assert forall|i: int| 0 <= i < after.len() implies (#[trigger] after[i]).alias
            != alias by {
            let a = if i < p { i } else { i + 1 };
            assert(after[i] == entries[a]);
            if a < p {
                assert(entries[a].alias != entries[p].alias);
            } else {
                assert(entries[p].alias != entries[a].alias);
            }
        }
    }
}

/// A transport that was added and then deleted shows in no listing, and a
/// registry that had nothing under the alias is then as it was before.
pub proof fn lemma_added_then_deleted_is_not_listed(
    entries: Seq<Entry>,
    alias: Seq<char>,
    transport: TransportView,
    mode: TransportMode,
)
    requires
        sorted_aliases(entries),
    ensures
        !holds(removed(inserted(entries, alias, transport), alias), alias),
        forall|k: int|
            0 <= k < listing(removed(inserted(entries, alias, transport), alias), mode).len()
                ==> (#[trigger] listing(
                removed(inserted(entries, alias, transport), alias),
                mode,
            )[k]).tid != alias,
        !holds(entries, alias) ==> removed(inserted(entries, alias, transport), alias) == entries,
{
    let added = inserted(entries, alias, transport);
    lemma_inserted(entries, alias, transport);
    lemma_removed(added, alias);
    let after = removed(added, alias);
    assert forall|k: int| 0 <= k < listing(after, mode).len() implies (#[trigger] listing(
        after,
        mode,
    )[k]).tid != alias by {
        lemma_listing_shows_entries(after, mode, k);
    }
    if !holds(entries, alias) {
        let r = rank_from(entries, alias, 0);
        lemma_rank(entries, alias, 0);
        lemma_sorted_is_distinct(added);
        assert(added[r].alias == alias);
        let q = place_of(added, alias);
        assert(added[q].alias == alias);
        if q < r {
            assert(added[q].alias != added[r].alias);
        } else if r < q {
            assert(added[r].alias != added[q].alias);
        }
        assert(after =~= entries);
    }
}

} // verus!
