//! The shared mutable handle: reference-counted ownership of one record,
//! with a runtime-checked lease discipline for access.
//!
//! One `SharedHandle` value stands for the shared allocation that all
//! logical owners point at. Owners are counted: registering a new owner
//! (`clone_owner`) raises the count, releasing one (`drop_owner`) lowers
//! it, and when the count reaches zero the record is destroyed, exactly
//! once. Access goes through leases: any number of read leases may be
//! outstanding at the same time, but a write lease excludes every other
//! lease. A conflicting acquisition fails with `BorrowConflict` and leaves
//! the state untouched.

use vstd::prelude::*;

use crate::record::display_line;
use crate::record::increment_line;
use crate::record::update_line;
use crate::record::RecordModel;
use crate::record::SharedData;

verus! {

/// The lease state of a handle: nothing outstanding, some number of read
/// leases, or one exclusive write lease.
pub enum LeaseState {
    Idle,
    ReadLeased { readers: usize },
    WriteLeased,
}

/// The mathematical counterpart of `LeaseState`.
pub enum Lease {
    Idle,
    ReadLeased { readers: nat },
    WriteLeased,
}

/// The mathematical content of a handle: the owner count, the lease state,
/// and the record, which is gone once the count has reached zero.
pub struct HandleModel {
    pub owners: nat,
    pub lease: Lease,
    pub record: Option<RecordModel>,
}

/// The error of a conflicting lease acquisition: a write lease was asked
/// for while some lease was outstanding, or a read lease while a write
/// lease was outstanding.
#[derive(Clone, Copy, Debug, PartialEq, Eq, Structural)]
pub struct BorrowConflict;

/// The reference-counting, interior-mutability wrapper around one record.
pub struct SharedHandle {
    owners: usize,
    lease: LeaseState,
    record: Option<SharedData>,
}

impl View for LeaseState {
    type V = Lease;

    closed spec fn view(&self) -> Lease {
        match self {
            LeaseState::Idle => Lease::Idle,
            LeaseState::ReadLeased { readers } => Lease::ReadLeased { readers: *readers as nat },
            LeaseState::WriteLeased => Lease::WriteLeased,
        }
    }
}

impl View for SharedHandle {
    type V = HandleModel;

    closed spec fn view(&self) -> HandleModel {
        HandleModel {
            owners: self.owners as nat,
            lease: self.lease@,
            record: match self.record {
                Some(r) => Some(r@),
                None => None,
            },
        }
    }
}

impl HandleModel {
    /// Well-formedness: the record exists exactly while some owner does, a
    /// destroyed handle has no outstanding lease, and a read lease counts
    /// at least one reader.
    pub open spec fn inv(self) -> bool {
        &&& self.owners == 0 <==> self.record is None
        &&& self.owners == 0 ==> self.lease is Idle
        &&& self.lease matches Lease::ReadLeased { readers } ==> readers >= 1
    }

    /// Registering one more owner: the count rises by one, nothing else
    /// moves.
    pub open spec fn cloned(self) -> HandleModel {
        HandleModel { owners: self.owners + 1, ..self }
    }

    /// A read lease may be granted unless a write lease is outstanding.
    pub open spec fn can_read(self) -> bool {
        !(self.lease is WriteLeased)
    }

    /// Granting one read lease: the reader count rises, or starts at one.
    pub open spec fn read_acquired(self) -> HandleModel
        recommends
            self.can_read(),
    {
        match self.lease {
            Lease::Idle => HandleModel { lease: Lease::ReadLeased { readers: 1 }, ..self },
            Lease::ReadLeased { readers } => HandleModel {
                lease: Lease::ReadLeased { readers: readers + 1 },
                ..self
            },
            Lease::WriteLeased => self,
        }
    }

    /// Releasing one read lease: the reader count falls, and the state goes
    /// back to idle when the last reader leaves.
    pub open spec fn read_released(self) -> HandleModel
        recommends
            self.lease is ReadLeased,
    {
        match self.lease {
            Lease::ReadLeased { readers } => if readers <= 1 {
                HandleModel { lease: Lease::Idle, ..self }
            } else {
                HandleModel { lease: Lease::ReadLeased { readers: (readers - 1) as nat }, ..self }
            },
            _ => self,
        }
    }

    /// A write lease may be granted only while no lease at all is
    /// outstanding.
    pub open spec fn can_write(self) -> bool {
        self.lease is Idle
    }

    /// Granting the exclusive write lease.
    pub open spec fn write_acquired(self) -> HandleModel
        recommends
            self.can_write(),
    {
        HandleModel { lease: Lease::WriteLeased, ..self }
    }

    /// Releasing the write lease: the lease goes back to idle.
    pub open spec fn write_released(self) -> HandleModel
        recommends
            self.lease is WriteLeased,
    {
        HandleModel { lease: Lease::Idle, ..self }
    }

    /// The identifier of the record, while it is alive.
    pub open spec fn record_id(self) -> Seq<char>
        recommends
            self.record is Some,
    {
        match self.record {
            Some(r) => r.id,
            None => Seq::empty(),
        }
    }

    /// The current value of the record, while it is alive.
    pub open spec fn record_value(self) -> int
        recommends
            self.record is Some,
    {
        match self.record {
            Some(r) => r.value,
            None => 0,
        }
    }

    /// Replacing the record's value: the identifier and everything else
    /// stay as they were.
    pub open spec fn value_set(self, v: int) -> HandleModel
        recommends
            self.record is Some,
    {
        match self.record {
            Some(r) => HandleModel { record: Some(RecordModel { id: r.id, value: v }), ..self },
            None => self,
        }
    }

    /// Adding one to the record's value.
    pub open spec fn incremented(self) -> HandleModel
        recommends
            self.record is Some,
    {
        match self.record {
            Some(r) => HandleModel {
                record: Some(RecordModel { id: r.id, value: r.value + 1 }),
                ..self
            },
            None => self,
        }
    }

    /// The log line a read of the record shows, while it is alive.
    pub open spec fn displayed(self) -> Seq<char>
        recommends
            self.record is Some,
    {
        display_line(RecordModel { id: self.record_id(), value: self.record_value() })
    }

    /// The state after registering `k` further owners, one after the
    /// other.
    pub open spec fn cloned_n(self, k: nat) -> HandleModel
        decreases k,
    {
        if k == 0 {
            self
        } else {
            self.cloned_n((k - 1) as nat).cloned()
        }
    }

    /// Releasing one owner: the count falls by one, and the record is
    /// destroyed when the last owner goes.
    pub open spec fn dropped(self) -> HandleModel
        recommends
            self.owners >= 1,
    {
        HandleModel {
            owners: (self.owners - 1) as nat,
            lease: self.lease,
            record: if self.owners == 1 {
                None
            } else {
                self.record
            },
        }
    }
}

impl SharedHandle {
    /// Wraps a record; the single creating owner is the first reference,
    /// and no lease is outstanding yet.
    pub fn create(record: SharedData) -> (h: SharedHandle)
        ensures
            h@.owners == 1,
            h@.lease is Idle,
            h@.record == Some(record@),
            h@.inv(),
    {
        SharedHandle { owners: 1, lease: LeaseState::Idle, record: Some(record) }
    }

    /// The current number of live owner references; purely observational.
    pub fn owner_count(&self) -> (n: usize)
        ensures
            n as nat == self@.owners,
    {
        self.owners
    }

    /// Whether the record is still alive, that is, whether any owner is
    /// left.
    pub fn is_live(&self) -> (alive: bool)
        ensures
            alive == (self@.record is Some),
    {
        self.record.is_some()
    }

    /// Registers one more owner of the same record. The record itself is
    /// not copied; only the count rises.
    pub fn clone_owner(&mut self)
        requires
            old(self)@.inv(),
            old(self)@.owners >= 1,
            old(self)@.owners < usize::MAX as nat,
        ensures
            final(self)@ == old(self)@.cloned(),
            final(self)@.inv(),
    {
        self.owners = self.owners + 1;
    }

    /// Releases one owner reference. When the last one goes, the record is
    /// destroyed; an outstanding lease keeps the last owner from going.
    pub fn drop_owner(&mut self)
        requires
            old(self)@.inv(),
            old(self)@.owners >= 1,
            old(self)@.owners == 1 ==> old(self)@.lease is Idle,
        ensures
            final(self)@ == old(self)@.dropped(),
            final(self)@.inv(),
    {
        self.owners = self.owners - 1;
        if self.owners == 0 {
            self.record = None;
        }
    }

    /// Asks for a read-only lease on the record. Succeeds, joining any
    /// read leases already outstanding, unless a write lease is
    /// outstanding; a conflict leaves the state untouched.
    pub fn acquire_read(&mut self) -> (r: Result<(), BorrowConflict>)
        requires
            old(self)@.inv(),
            old(self)@.owners >= 1,
            old(self)@.lease matches Lease::ReadLeased { readers } ==> readers < usize::MAX as nat,
        ensures
            r is Ok <==> old(self)@.can_read(),
            r is Ok ==> final(self)@ == old(self)@.read_acquired(),
            r is Err ==> final(self)@ == old(self)@,
            final(self)@.inv(),
    {
        match self.lease {
            LeaseState::Idle => {
                self.lease = LeaseState::ReadLeased { readers: 1 };
                Ok(())
            },
            LeaseState::ReadLeased { readers } => {
                self.lease = LeaseState::ReadLeased { readers: readers + 1 };
                Ok(())
            },
            LeaseState::WriteLeased => Err(BorrowConflict),
        }
    }

    /// Asks for the exclusive write lease on the record. Succeeds only
    /// while no lease at all is outstanding; a conflict leaves the state
    /// untouched.
    pub fn acquire_write(&mut self) -> (r: Result<(), BorrowConflict>)
        requires
            old(self)@.inv(),
            old(self)@.owners >= 1,
        ensures
            r is Ok <==> old(self)@.can_write(),
            r is Ok ==> final(self)@ == old(self)@.write_acquired(),
            r is Err ==> final(self)@ == old(self)@,
            final(self)@.inv(),
    {
        match self.lease {
            LeaseState::Idle => {
                self.lease = LeaseState::WriteLeased;
                Ok(())
            },
            _ => Err(BorrowConflict),
        }
    }

    /// Gives one read lease back; the lease state is idle again when the last
    /// reader leaves.
    pub fn release_read(&mut self)
        requires
            old(self)@.inv(),
            old(self)@.lease is ReadLeased,
        ensures
            final(self)@ == old(self)@.read_released(),
            final(self)@.inv(),
    {
        match self.lease {
            LeaseState::ReadLeased { readers } => {
                if readers <= 1 {
                    self.lease = LeaseState::Idle;
                } else {
                    self.lease = LeaseState::ReadLeased { readers: readers - 1 };
                }
            },
            _ => {},
        }
    }

    /// Gives the write lease back; the lease state is idle again.
    pub fn release_write(&mut self)
        requires
            old(self)@.inv(),
            old(self)@.lease is WriteLeased,
        ensures
            final(self)@ == old(self)@.write_released(),
            final(self)@.inv(),
    {
        self.lease = LeaseState::Idle;
    }

    /// Replaces the record's value; demands that the exclusive write lease
    /// is already held. Returns the log line describing old and new value.
    pub fn set_value(&mut self, new_value: i32) -> (log: String)
        requires
            old(self)@.inv(),
            old(self)@.lease is WriteLeased,
        ensures
            final(self)@ == old(self)@.value_set(new_value as int),
            final(self)@.inv(),
            log@ == update_line(old(self)@.record_id(), old(self)@.record_value(), new_value as int),
    {
        let taken = self.record.take();
        match taken {
            Some(mut rec) => {
                let log = rec.update_value(new_value);
                self.record = Some(rec);
                log
            },
            None => {
                proof {
                    assert(false);
                }
                vstd::pervasive::unreached()
            },
        }
    }

    /// Adds one to the record's value; demands that the exclusive write
    /// lease is already held. Returns the log line describing old and new
    /// value.
    pub fn increment(&mut self) -> (log: String)
        requires
            old(self)@.inv(),
            old(self)@.lease is WriteLeased,
            old(self)@.record_value() < i32::MAX as int,
        ensures
            final(self)@ == old(self)@.incremented(),
            final(self)@.inv(),
            log@ == increment_line(old(self)@.record_id(), old(self)@.record_value()),
    {
        let taken = self.record.take();
        match taken {
            Some(mut rec) => {
                let log = rec.increment_value();
                self.record = Some(rec);
                log
            },
            None => {
                proof {
                    assert(false);
                }
                vstd::pervasive::unreached()
            },
        }
    }

    /// The record's current value; demands that some lease, read or write,
    /// is held.
    pub fn value(&self) -> (v: i32)
        requires
            self@.inv(),
            !(self@.lease is Idle),
        ensures
            v as int == self@.record_value(),
    {
        match &self.record {
            Some(rec) => rec.value(),
            None => {
                proof {
                    assert(false);
                }
                vstd::pervasive::unreached()
            },
        }
    }

    /// The log line showing the record's identifier and current value;
    /// demands that some lease, read or write, is held. Every owner reads
    /// the one shared record, so the line always shows the latest value.
    pub fn display(&self) -> (log: String)
        requires
            self@.inv(),
            !(self@.lease is Idle),
        ensures
            log@ == self@.displayed(),
    {
        match &self.record {
            Some(rec) => rec.display(),
            None => {
                proof {
                    assert(false);
                }
                vstd::pervasive::unreached()
            },
        }
    }
}

/// Law: however many times a handle is cloned, each registration raises
/// the owner count by exactly one, so after `k` clones the count is the
/// old count plus `k`; the lease state and the record itself never move.
/// In particular, an initially single-owner handle counts `k + 1` owners
/// after `k` clones.
pub proof fn lemma_owner_count_after_clones(m: HandleModel, k: nat)
    ensures
        m.cloned_n(k).owners == m.owners + k,
        m.cloned_n(k).lease == m.lease,
        m.cloned_n(k).record == m.record,
        m.inv() && m.owners >= 1 ==> m.cloned_n(k).inv(),
    decreases k,
{
    if k > 0 {
        lemma_owner_count_after_clones(m, (k - 1) as nat);
    }
}

/// Law: writes do not merge; the later of two writes wins. Setting the
/// value to `v1` and then to `v2` leaves the record exactly as setting it
/// to `v2` alone would, with the value `v2`.
pub proof fn lemma_last_write_wins(m: HandleModel, v1: int, v2: int)
    requires
        m.record is Some,
    ensures
        m.value_set(v1).value_set(v2) == m.value_set(v2),
        m.value_set(v1).value_set(v2).record_value() == v2,
{
}

/// Law: incrementing the record is the same transition as setting its
/// value to the current value plus one.
pub proof fn lemma_increment_is_set_successor(m: HandleModel)
    requires
        m.record is Some,
    ensures
        m.incremented() == m.value_set(m.record_value() + 1),
{
}

/// Law: all owners share the one record, so a read after any owner's
/// mutation shows the mutated value under the unchanged identifier — no
/// owner ever sees a stale copy.
pub proof fn lemma_mutation_visible_to_all(m: HandleModel, v: int)
    requires
        m.record is Some,
    ensures
        m.value_set(v).record_value() == v,
        m.value_set(v).record_id() == m.record_id(),
        m.value_set(v).displayed() == display_line((RecordModel { id: m.record_id(), value: v })),
{
}

/// Law: the lease discipline. While a read lease is outstanding the
/// exclusive lease is refused; while the exclusive lease is outstanding
/// every further lease, read or write, is refused; and a read lease never
/// blocks another read lease, so any number may be outstanding at once.
pub proof fn lemma_lease_exclusion(m: HandleModel)
    ensures
        m.lease is ReadLeased ==> !m.can_write(),
        m.lease is WriteLeased ==> !m.can_write() && !m.can_read(),
        m.can_read() ==> m.read_acquired().can_read(),
{
}

/// Law: releasing the last owner reference destroys the record, exactly
/// once — it was alive up to that release and is gone right after, with
/// the owner count at zero.
pub proof fn lemma_last_release_destroys(m: HandleModel)
    requires
        m.inv(),
        m.owners == 1,
        m.lease is Idle,
    ensures
        m.record is Some,
        m.dropped().owners == 0,
        m.dropped().record is None,
        m.dropped().inv(),
{
}

/// Law: an owner count of zero is terminal. A well-formed handle without
/// owners has no record and no outstanding lease, and every operation
/// that could move the state demands at least one owner.
pub proof fn lemma_destroyed_is_terminal(m: HandleModel)
    requires
        m.inv(),
        m.owners == 0,
    ensures
        m.record is None,
        m.lease is Idle,
{
}

} // verus!
