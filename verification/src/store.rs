//! The store of shared datachunks: typed values, each found by its
//! name and guarded independently of every other.
//!
//! Each slot carries its own lock, modelled here as the value being
//! checked out of the slot for the duration of one critical section:
//! `acquire` hands the value out and leaves the slot locked, `release`
//! puts it back.  A critical section that ends abnormally puts the
//! value back through `release_poisoned`, which marks the slot; the
//! lock is poison-tolerant, so a poisoned slot grants access exactly
//! like a clean one.  The declared type of a slot is fixed at
//! registration as a type tag, and every access must present the same
//! tag; a mismatch is a configuration error.
use vstd::prelude::*;
use crate::identity::FullDatachunkName;

verus! {

/// Why a store operation was refused.
#[derive(Clone, Copy, Debug, PartialEq, Eq, Structural)]
pub enum StoreError {
    /// `register` found the name already taken.
    AlreadyRegistered,
    /// No slot carries the requested name.
    NoSuchName,
    /// The slot's declared type tag differs from the requested one.
    TypeMismatch,
    /// The slot's lock is held by a running critical section.
    WouldBlock,
}

/// One guarded slot: a named, typed value behind its own lock.
pub struct DatachunkSlot<V> {
    /// The name under which the slot was registered.
    pub name: FullDatachunkName,
    /// Identifier of the declared type, fixed at registration.
    pub type_tag: u64,
    /// The guarded value; `None` while the lock is held and the value
    /// is checked out to a critical section.
    pub value: Option<V>,
    /// Whether some earlier critical section over this slot ended
    /// abnormally.  Deliberately ignored by `acquire`: the lock stays
    /// usable, so that one fault cannot wedge everything that shares
    /// the slot.
    pub poisoned: bool,
}

/// The name-indexed registry of guarded slots.  Distinct slots never
/// contend: each has its own lock.
pub struct DatachunkStore<V> {
    pub slots: Vec<DatachunkSlot<V>>,
}

impl<V> DatachunkStore<V> {
    /// Well-formed: no two slots share a name.
    pub open spec fn wf(self) -> bool {
        forall|i: int, j: int|
            0 <= i < self.slots@.len() && 0 <= j < self.slots@.len() && i != j
                ==> self.slots@[i].name@ != self.slots@[j].name@
    }

    /// Whether some slot is registered under `n`.
    pub open spec fn contains(self, n: (Seq<char>, Seq<char>)) -> bool {
        exists|i: int| 0 <= i < self.slots@.len() && self.slots@[i].name@ == n
    }

    /// Index of the slot registered under `n` (unique when `wf` and
    /// `contains(n)` hold).
    pub open spec fn index_of(self, n: (Seq<char>, Seq<char>)) -> int {
        choose|i: int| 0 <= i < self.slots@.len() && self.slots@[i].name@ == n
    }

    /// The slot registered under `n`.
    pub open spec fn slot_at(self, n: (Seq<char>, Seq<char>)) -> DatachunkSlot<V> {
        self.slots@[self.index_of(n)]
    }

    /// The condition under which `acquire(n, tag)` hands the value
    /// out.  Whether the slot is poisoned plays no part in it.
    pub open spec fn can_acquire(self, n: (Seq<char>, Seq<char>), tag: u64) -> bool {
        self.contains(n) && self.slot_at(n).type_tag == tag && self.slot_at(n).value is Some
    }

    pub fn new() -> (r: Self)
        ensures
            r.slots@.len() == 0,
            r.wf(),
    {
        DatachunkStore { slots: Vec::new() }
    }

    /// Index of the slot named `name`, if any.
    fn find(&self, name: &FullDatachunkName) -> (r: Option<usize>)
        requires
            self.wf(),
        ensures
            match r {
                Some(i) => i < self.slots@.len() && self.slots@[i as int].name@ == name@
                    && self.contains(name@) && self.index_of(name@) == i,
                None => !self.contains(name@),
            },
    {
        let n = self.slots.len();
        let mut i: usize = 0;
        while i < n
            invariant
                self.wf(),
                n == self.slots@.len(),
                i <= n,
                forall|k: int| 0 <= k < i ==> self.slots@[k].name@ != name@,
            decreases n - i,
        {
            if self.slots[i].name.same(name) {
                proof {
                    assert(self.contains(name@));
                    let j = self.index_of(name@);
                    assert(self.slots@[j].name@ == name@);
                    assert(j == i);
                }
                return Some(i);
            }
            i = i + 1;
        }
        None
    }

    /// Inserts a new guarded slot under `name` with declared type
    /// `type_tag` and initial value `initial`; refused if the name is
    /// already taken, in which case the store is unchanged.
    pub fn register(&mut self, name: FullDatachunkName, type_tag: u64, initial: V) -> (r: Result<
        (),
        StoreError,
    >)
        requires
            old(self).wf(),
        ensures
            final(self).wf(),
            old(self).contains(name@) ==> r == Result::<(), StoreError>::Err(
                StoreError::AlreadyRegistered,
            ) && final(self).slots@ == old(self).slots@,
            !old(self).contains(name@) ==> r == Result::<(), StoreError>::Ok(()) && final(self).slots@ == old(self).slots@.push(
                (DatachunkSlot { name, type_tag, value: Some(initial), poisoned: false }),
            ),
    {
        if self.find(&name).is_some() {
            return Err(StoreError::AlreadyRegistered);
        }
        self.slots.push(DatachunkSlot { name, type_tag, value: Some(initial), poisoned: false });
        proof {
            assert(forall|k: int|
                0 <= k < old(self).slots@.len() ==> final(self).slots@[k] == old(self).slots@[k]);
        }
        Ok(())
    }

    /// Locates the slot named `name`, checks the declared type against
    /// `type_tag`, and acquires the lock, handing the guarded value
    /// out.  Whether the slot is poisoned plays no part: a poisoned
    /// slot grants access exactly like a clean one.
    pub fn acquire(&mut self, name: &FullDatachunkName, type_tag: u64) -> (r: Result<
        V,
        StoreError,
    >)
        requires
            old(self).wf(),
        ensures
            final(self).wf(),
            !old(self).contains(name@) ==> r == Result::<V, StoreError>::Err(StoreError::NoSuchName)
                && final(self).slots@ == old(self).slots@,
            old(self).contains(name@) && old(self).slot_at(name@).type_tag != type_tag ==> r
                == Result::<V, StoreError>::Err(StoreError::TypeMismatch) && final(self).slots@ == old(self).slots@,
            old(self).contains(name@) && old(self).slot_at(name@).type_tag == type_tag && old(self).slot_at(name@).value is None ==> r == Result::<V, StoreError>::Err(
                StoreError::WouldBlock,
            ) && final(self).slots@ == old(self).slots@,
            old(self).contains(name@) && old(self).slot_at(name@).type_tag == type_tag && old(self).slot_at(name@).value is Some ==> r == Result::<V, StoreError>::Ok(
                old(self).slot_at(name@).value->0,
            ) && final(self).slots@ == old(self).slots@.update(
                old(self).index_of(name@),
                (DatachunkSlot {
                    name: old(self).slot_at(name@).name,
                    type_tag: old(self).slot_at(name@).type_tag,
                    value: None,
                    poisoned: old(self).slot_at(name@).poisoned,
                }),
            ),
    {
        let i = match self.find(name) {
            Some(i) => i,
            None => {
                return Err(StoreError::NoSuchName);
            },
        };
        if self.slots[i].type_tag != type_tag {
            return Err(StoreError::TypeMismatch);
        }
        let slot = &mut self.slots[i];
        match slot.value.take() {
            Some(v) => {
                proof {
                    assert(final(self).wf());
                }
                Ok(v)
            },
            None => {
                proof {
                    assert(final(self).slots@ =~= old(self).slots@);
                }
                Err(StoreError::WouldBlock)
            },
        }
    }

    /// Releases the lock of the slot named `name` after a critical
    /// section that completed normally, putting the guarded value
    /// back.
    pub fn release(&mut self, name: &FullDatachunkName, value: V)
        requires
            old(self).wf(),
            old(self).contains(name@),
            old(self).slot_at(name@).value is None,
        ensures
            final(self).wf(),
            final(self).slots@ == old(self).slots@.update(
                old(self).index_of(name@),
                (DatachunkSlot {
                    name: old(self).slot_at(name@).name,
                    type_tag: old(self).slot_at(name@).type_tag,
                    value: Some(value),
                    poisoned: old(self).slot_at(name@).poisoned,
                }),
            ),
    {
        let i = self.find(name).unwrap();
        let slot = &mut self.slots[i];
        slot.value = Some(value);
    }

    /// Releases the lock of the slot named `name` after a critical
    /// section that terminated abnormally: the value, in whatever
    /// state the fault left it, is put back and the slot is marked
    /// poisoned.  Later acquisitions still succeed.
    pub fn release_poisoned(&mut self, name: &FullDatachunkName, value: V)
        requires
            old(self).wf(),
            old(self).contains(name@),
            old(self).slot_at(name@).value is None,
        ensures
            final(self).wf(),
            final(self).slots@ == old(self).slots@.update(
                old(self).index_of(name@),
                (DatachunkSlot {
                    name: old(self).slot_at(name@).name,
                    type_tag: old(self).slot_at(name@).type_tag,
                    value: Some(value),
                    poisoned: true,
                }),
            ),
    {
        let i = self.find(name).unwrap();
        let slot = &mut self.slots[i];
        slot.value = Some(value);
        slot.poisoned = true;
    }

    /// Shared read of the slot named `name` under declared type
    /// `type_tag`; refused while the lock is held.
    pub fn read(&self, name: &FullDatachunkName, type_tag: u64) -> (r: Result<&V, StoreError>)
        requires
            self.wf(),
        ensures
            !self.contains(name@) ==> r is Err && r->Err_0 == StoreError::NoSuchName,
            self.contains(name@) && self.slot_at(name@).type_tag != type_tag ==> r is Err
                && r->Err_0 == StoreError::TypeMismatch,
            self.contains(name@) && self.slot_at(name@).type_tag == type_tag && self.slot_at(
                name@,
            ).value is None ==> r is Err && r->Err_0 == StoreError::WouldBlock,
            self.contains(name@) && self.slot_at(name@).type_tag == type_tag && self.slot_at(
                name@,
            ).value is Some ==> r is Ok && *r->Ok_0 == self.slot_at(name@).value->0,
    {
        let i = match self.find(name) {
            Some(i) => i,
            None => {
                return Err(StoreError::NoSuchName);
            },
        };
        if self.slots[i].type_tag != type_tag {
            return Err(StoreError::TypeMismatch);
        }
        match &self.slots[i].value {
            Some(v) => Ok(v),
            None => Err(StoreError::WouldBlock),
        }
    }
}

} // verus!
