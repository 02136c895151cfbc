//! The inventory of the workers that a node has started.

use crate::envelope::texts;
use crate::error::{ApiError, ErrorView, Kind, Origin};
use crate::text::same_text;
use vstd::prelude::*;

verus! {

#[derive(Clone, Copy, Debug, PartialEq, Eq, Structural)]
pub enum WorkerKind {
    SecureChannel,
    SecureChannelListener,
    Forwarder,
    Inlet,
    Outlet,
    Service,
}

/// A started worker: what it is, and the address at which it is reached.
pub struct Worker {
    pub kind: WorkerKind,
    pub address: Seq<char>,
}

/// Whether a worker is reached at `address`.
pub open spec fn occupied(workers: Seq<Worker>, address: Seq<char>) -> bool {
    exists|i: int| 0 <= i < workers.len() && (#[trigger] workers[i]).address == address
}

/// Whether a worker of `kind` is reached at `address`.
pub open spec fn runs(workers: Seq<Worker>, kind: WorkerKind, address: Seq<char>) -> bool {
    exists|i: int|
        0 <= i < workers.len() && (#[trigger] workers[i]).address == address && workers[i].kind
            == kind
}

/// No address leads to two workers.
pub open spec fn distinct_addresses(workers: Seq<Worker>) -> bool {
    forall|i: int, j: int|
        0 <= i < j < workers.len() ==> (#[trigger] workers[i]).address
            != (#[trigger] workers[j]).address
}

/// Where the worker at `address` stands, if there is one.
pub open spec fn worker_at(workers: Seq<Worker>, address: Seq<char>) -> int {
    choose|i: int| 0 <= i < workers.len() && (#[trigger] workers[i]).address == address
}

/// The inventory after a new worker was started.
pub open spec fn registered(workers: Seq<Worker>, kind: WorkerKind, address: Seq<char>) -> Seq<
    Worker,
> {
    if occupied(workers, address) {
        workers
    } else {
        workers.push(Worker { kind, address })
    }
}

/// The inventory after the worker of `kind` at `address` was stopped.
pub open spec fn released(workers: Seq<Worker>, kind: WorkerKind, address: Seq<char>) -> Seq<
    Worker,
> {
    if runs(workers, kind, address) {
        workers.remove(worker_at(workers, address))
    } else {
        workers
    }
}

/// The addresses of the workers of one kind, in the order in which they
/// were started.
pub open spec fn addresses(workers: Seq<Worker>, kind: WorkerKind) -> Seq<Seq<char>>
    decreases workers.len(),
{
    if workers.len() == 0 {
        Seq::empty()
    } else {
        let before = addresses(workers.drop_last(), kind);
        if workers.last().kind == kind {
            before.push(workers.last().address)
        } else {
            before
        }
    }
}

pub open spec fn address_in_use() -> ErrorView {
    ErrorView { origin: Origin::Api, kind: Kind::Conflict, message: "Address already in use"@ }
}

pub open spec fn unknown_worker() -> ErrorView {
    ErrorView { origin: Origin::Api, kind: Kind::NotFound, message: "Worker not found"@ }
}

struct Slot {
    kind: WorkerKind,
    address: String,
}

spec fn workers_of(slots: Seq<Slot>) -> Seq<Worker> {
    slots.map_values(|s: Slot| Worker { kind: s.kind, address: s.address@ })
}

/// The workers that a node has started and not stopped.
pub struct Registry {
    slots: Vec<Slot>,
}

impl View for Registry {
    type V = Seq<Worker>;

    closed spec fn view(&self) -> Seq<Worker> {
        workers_of(self.slots@)
    }
}

impl Registry {
    pub open spec fn wf(&self) -> bool {
        distinct_addresses(self@)
    }

    pub fn new() -> (registry: Registry)
        ensures
            registry.wf(),
            registry@ == Seq::<Worker>::empty(),
    {
        assert(workers_of(Seq::<Slot>::empty()) =~= Seq::<Worker>::empty());
        Registry { slots: Vec::new() }
    }

    pub fn len(&self) -> (n: usize)
        ensures
            n == self@.len(),
    {
        self.slots.len()
    }

    fn position(&self, address: &str) -> (place: Option<usize>)
        requires
            self.wf(),
        ensures
            match place {
                Some(i) => i < self@.len() && self@[i as int].address == address@ && i
                    == worker_at(self@, address@),
                None => !occupied(self@, address@),
            },
    {
        let mut i: usize = 0;
        while i < self.slots.len()
            invariant
                self.wf(),
                i <= self.slots.len(),
                forall|j: int|
                    0 <= j < i ==> (#[trigger] workers_of(self.slots@)[j]).address != address@,
            decreases self.slots.len() - i,
        {
            if same_text(self.slots[i].address.as_str(), address) {
                proof {
                    let workers = workers_of(self.slots@);
                    assert(workers[i as int].address == address@);
                    let j = worker_at(workers, address@);
                    assert(workers[j].address == address@);
                    assert(i == j);
                }
                return Some(i);
            }
            i += 1;
        }
        None
    }

    /// Records a worker that was started. An address that leads to a worker
    /// already is refused.
    pub fn register(&mut self, kind: WorkerKind, address: String) -> (r: Result<(), ApiError>)
        requires
            old(self).wf(),
        ensures
            final(self).wf(),
            final(self)@ == registered(old(self)@, kind, address@),
            match r {
                Ok(_) => !occupied(old(self)@, address@),
                Err(e) => occupied(old(self)@, address@) && e@ == address_in_use(),
            },
    {
        match self.position(address.as_str()) {
            Some(_) => Err(ApiError::conflict("Address already in use")),
            None => {
                let ghost worker = Worker { kind, address: address@ };
                self.slots.push(Slot { kind, address });
                proof {
                    let before = workers_of(old(self).slots@);
                    let after = workers_of(self.slots@);
                    assert(after =~= before.push(worker));
                    assert forall|i: int, j: int| 0 <= i < j < after.len() implies (
                    #[trigger] after[i]).address != (#[trigger] after[j]).address by {
                        assert(after[i] == before[i]);
                        if j < before.len() {
                            assert(after[j] == before[j]);
                        }
                    }
                }
                Ok(())
            },
        }
    }

    /// Takes the worker of `kind` at `address` out of the inventory.
    pub fn release(&mut self, kind: WorkerKind, address: &str) -> (r: Result<(), ApiError>)
        requires
            old(self).wf(),
        ensures
            final(self).wf(),
            final(self)@ == released(old(self)@, kind, address@),
            match r {
                Ok(_) => runs(old(self)@, kind, address@),
                Err(e) => !runs(old(self)@, kind, address@) && e@ == unknown_worker(),
            },
    {
        match self.position(address) {
            Some(i) => {
                if self.slots[i].kind == kind {
                    proof {
                        assert(workers_of(self.slots@)[i as int].kind == kind);
                        lemma_released(self@, kind, address@);
                    }
                    self.slots.remove(i);
                    assert(workers_of(self.slots@) =~= workers_of(old(self).slots@).remove(
                        i as int,
                    ));
                    Ok(())
                } else {
                    proof {
                        let workers = workers_of(self.slots@);
                        assert forall|j: int|
                            0 <= j < workers.len() && (#[trigger] workers[j]).address
                                == address@ implies workers[j].kind != kind by {
                            if j != i {
                                if j < i {
                                    assert(workers[j].address != workers[i as int].address);
                                } else {
                                    assert(workers[i as int].address != workers[j].address);
                                }
                            }
                        }
                    }
                    Err(ApiError::not_found("Worker not found"))
                }
            },
            None => Err(ApiError::not_found("Worker not found")),
        }
    }

    /// The addresses of the workers of one kind.
    pub fn list(&self, kind: WorkerKind) -> (found: Vec<String>)
        ensures
            texts(found@) == addresses(self@, kind),
    {
        let mut found: Vec<String> = Vec::new();
        let ghost workers = workers_of(self.slots@);
        let mut i: usize = 0;
        assert(workers.take(0) =~= Seq::<Worker>::empty());
        while i < self.slots.len()
            invariant
                workers == workers_of(self.slots@),
                i <= self.slots.len(),
                texts(found@) == addresses(workers.take(i as int), kind),
            decreases self.slots.len() - i,
        {
            proof {
                assert(workers.take(i + 1).drop_last() == workers.take(i as int));
                assert(workers.take(i + 1).last() == workers[i as int]);
            }
            if self.slots[i].kind == kind {
                let address = self.slots[i].address.clone();
                assert(texts(found@.push(address)) == texts(found@).push(address@));
                found.push(address);
            }
            i += 1;
        }
        assert(workers.take(i as int) == workers);
        found
    }
}

/// Every address of a listing is that of a worker of the kind.
pub proof fn lemma_listed_workers_run(workers: Seq<Worker>, kind: WorkerKind, k: int)
    requires
        0 <= k < addresses(workers, kind).len(),
    ensures
        runs(workers, kind, addresses(workers, kind)[k]),
    decreases workers.len(),
{
    let before = addresses(workers.drop_last(), kind);
    if k < before.len() {
        lemma_listed_workers_run(workers.drop_last(), kind, k);
        let i = choose|i: int|
            0 <= i < workers.drop_last().len() && (#[trigger] workers.drop_last()[i]).address
                == before[k] && workers.drop_last()[i].kind == kind;
        assert(workers[i] == workers.drop_last()[i]);
    } else {
        assert(workers[workers.len() - 1] == workers.last());
    }
}

/// Every worker of the kind is in the listing.
pub proof fn lemma_running_workers_are_listed(workers: Seq<Worker>, kind: WorkerKind, i: int)
    requires
        0 <= i < workers.len(),
        workers[i].kind == kind,
    ensures
        addresses(workers, kind).contains(workers[i].address),
    decreases workers.len(),
{
    let before = addresses(workers.drop_last(), kind);
    if i < workers.len() - 1 {
        lemma_running_workers_are_listed(workers.drop_last(), kind, i);
        assert(workers.drop_last()[i] == workers[i]);
        let k = choose|k: int| 0 <= k < before.len() && before[k] == workers[i].address;
        assert(addresses(workers, kind)[k] == workers[i].address);
    } else {
        assert(workers.last() == workers[i]);
        assert(addresses(workers, kind)[before.len() as int] == workers[i].address);
    }
}

/// Stopping a worker keeps the addresses distinct, and leaves no worker at
/// its address.
pub proof fn lemma_released(workers: Seq<Worker>, kind: WorkerKind, address: Seq<char>)
    requires
        distinct_addresses(workers),
    ensures
        distinct_addresses(released(workers, kind, address)),
        runs(workers, kind, address) ==> !occupied(released(workers, kind, address), address),
{
    let after = released(workers, kind, address);
    if runs(workers, kind, address) {
        let w = choose|i: int|
            0 <= i < workers.len() && (#[trigger] workers[i]).address == address
                && workers[i].kind == kind;
        let p = worker_at(workers, address);
        assert(workers[p].address == address);
        assert forall|i: int, j: int| 0 <= i < j < after.len() implies (#[trigger] after[i]).address
            != (#[trigger] after[j]).address by {
            let a = if i < p { i } else { i + 1 };
            let b = if j < p { j } else { j + 1 };
            assert(after[i] == workers[a]);
            assert(after[j] == workers[b]);
        }
        assert forall|i: int| 0 <= i < after.len() implies (#[trigger] after[i]).address
            != address by {
            let a = if i < p { i } else { i + 1 };
            assert(after[i] == workers[a]);
            if a < p {
                assert(workers[a].address != workers[p].address);
            } else {
                assert(workers[p].address != workers[a].address);
            }
        }
    }
}

/// A worker that was started shows in the listing of its kind, and once it
/// is stopped it shows in no listing.
pub proof fn lemma_started_then_stopped(
    workers: Seq<Worker>,
    kind: WorkerKind,
    address: Seq<char>,
    listed: WorkerKind,
)
    requires
        distinct_addresses(workers),
        !occupied(workers, address),
    ensures
        addresses(registered(workers, kind, address), kind).contains(address),
        !addresses(released(registered(workers, kind, address), kind, address), listed).contains(
            address,
        ),
        released(registered(workers, kind, address), kind, address) == workers,
{
    let started = registered(workers, kind, address);
    assert(started[workers.len() as int].address == address);
    lemma_running_workers_are_listed(started, kind, workers.len() as int);
    assert forall|i: int, j: int| 0 <= i < j < started.len() implies (#[trigger] started[i]).address
        != (#[trigger] started[j]).address by {
        assert(started[i] == workers[i]);
        if j < workers.len() {
            assert(started[j] == workers[j]);
        }
    }
    lemma_released(started, kind, address);
    let stopped = released(started, kind, address);
    let p = worker_at(started, address);
    assert(started[p].address == address);
    if p < workers.len() {
        assert(workers[p].address == address);
    }
    assert(stopped =~= workers);
    if addresses(stopped, listed).contains(address) {
        let k = choose|k: int|
            0 <= k < addresses(stopped, listed).len() && addresses(stopped, listed)[k] == address;
        lemma_listed_workers_run(stopped, listed, k);
    }
}

} // verus!
