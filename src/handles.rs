use vstd::prelude::*;

use crate::error::NfscrsJniError;

verus! {

/// Handles carry the slot index plus one in their low 32 bits and the slot's
/// generation in their high 32 bits, so `0` never names an object.
pub const SLOT_SPAN: u64 = 0x1_0000_0000;

/// The largest number of slots a registry holds.
pub const MAX_SLOTS: usize = 0xFFFF_FFFE;

/// What a slot holds.
pub enum SlotState<T> {
    /// Nothing: a handle to this slot is stale.
    Free,
    /// A live object.
    Live(T),
    /// A live object that a call has taken out and not yet returned.
    Busy,
}

/// One entry of the registry.
pub struct Slot<T> {
    pub generation: u32,
    pub owner: u64,
    pub state: SlotState<T>,
}

/// The handle for slot `index` at generation `generation`.
pub open spec fn encode(index: int, generation: int) -> int {
    generation * SLOT_SPAN + index + 1
}

pub open spec fn index_of(h: u64) -> int {
    (h % SLOT_SPAN) as int - 1
}

pub open spec fn generation_of(h: u64) -> int {
    (h / SLOT_SPAN) as int
}

proof fn lemma_encode_decode(index: int, generation: int)
    requires
        0 <= index < MAX_SLOTS,
        0 <= generation <= u32::MAX,
    ensures
        0 < encode(index, generation) <= u64::MAX,
        index_of(encode(index, generation) as u64) == index,
        generation_of(encode(index, generation) as u64) == generation,
{
    assert(0 < encode(index, generation) <= u64::MAX) by (nonlinear_arith)
        requires
            0 <= index < 0xFFFF_FFFEint,
            0 <= generation <= 0xFFFF_FFFFint,
    ;
    let h = encode(index, generation);
    assert(h % 0x1_0000_0000int == index + 1 && h / 0x1_0000_0000int == generation) by (
    nonlinear_arith)
        requires
            h == generation * 0x1_0000_0000int + index + 1,
            0 <= index < 0xFFFF_FFFEint,
            0 <= generation,
    ;
}

/// An arena that turns owned objects into integer handles and back. A
/// handle is checked on every use: a handle of a destroyed object, or of a
/// slot reused since, is refused.
pub struct HandleRegistry<T> {
    slots: Vec<Slot<T>>,
}

impl<T> HandleRegistry<T> {
    pub closed spec fn slots(&self) -> Seq<Slot<T>> {
        self.slots@
    }

    /// The slot that handle `h` names, where its generation is current.
    pub open spec fn slot_of(&self, h: u64) -> Option<Slot<T>> {
        let i = index_of(h);
        if 0 <= i < self.slots().len() && self.slots()[i].generation == generation_of(h) {
            Some(self.slots()[i])
        } else {
            None
        }
    }

    /// `h` names a live object that no call holds.
    pub open spec fn is_live(&self, h: u64) -> bool {
        self.slot_of(h) matches Some(s) && s.state is Live
    }

    /// `h` names a live object that a call holds.
    pub open spec fn is_busy(&self, h: u64) -> bool {
        self.slot_of(h) matches Some(s) && s.state is Busy
    }

    /// The handle that owns the object of `h`.
    pub open spec fn owner_of(&self, h: u64) -> u64 {
        self.slot_of(h)->0.owner
    }

    /// The objects that live handles name.
    pub open spec fn view(&self) -> Map<u64, T> {
        Map::new(
            |h: u64| self.is_live(h),
            |h: u64| self.slot_of(h)->0.state->Live_0,
        )
    }

    /// An empty registry.
    pub fn new() -> (r: HandleRegistry<T>)
        ensures
            r@ == Map::<u64, T>::empty(),
            forall|h: u64| !r.is_busy(h),
    {
        let r = HandleRegistry { slots: Vec::new() };
        assert(r@ =~= Map::<u64, T>::empty());
        r
    }

    fn replace_slot(&mut self, i: usize, s: Slot<T>) -> (r: Slot<T>)
        requires
            i < old(self).slots().len(),
        ensures
            final(self).slots() == old(self).slots().update(i as int, s),
            r == old(self).slots()[i as int],
    {
        let r = self.slots.remove(i);
        self.slots.insert(i, s);
        assert(self.slots@ =~= old(self).slots@.update(i as int, s));
        r
    }

    fn lookup(&self, h: u64) -> (r: Option<usize>)
        ensures
            r is Some <==> self.slot_of(h) is Some,
            r matches Some(i) ==> i == index_of(h) && i < self.slots().len(),
    {
        let low = h % SLOT_SPAN;
        if low == 0 {
            return None;
        }
        let i = (low - 1) as usize;
        if low - 1 >= self.slots.len() as u64 {
            return None;
        }
        if self.slots[i].generation as u64 == h / SLOT_SPAN {
            Some(i)
        } else {
            None
        }
    }

    /// Takes ownership of `obj` and returns a nonzero handle for it that
    /// named no slot before the call, so it differs from the handle of any
    /// object destroyed since its slot was last filled. Records `owner` as the handle it belongs to. Fails with
    /// `HandlesExhausted` only when no slot can be had.
    pub fn create(&mut self, obj: T, owner: u64) -> (r: Result<u64, NfscrsJniError>)
        ensures
            old(self).slots().len() < MAX_SLOTS ==> r is Ok,
            r matches Ok(h) ==> {
                &&& h != 0
                &&& old(self).slot_of(h) is None
                &&& final(self)@ == old(self)@.insert(h, obj)
                &&& final(self).owner_of(h) == owner
                &&& forall|k: u64| #[trigger] final(self).is_busy(k) == old(self).is_busy(k)
                &&& forall|k: u64|
                    k != h && (old(self).is_live(k) || old(self).is_busy(k))
                        ==> #[trigger] final(self).owner_of(k) == old(self).owner_of(k)
            },
            r matches Err(e) ==> e == NfscrsJniError::HandlesExhausted && final(self)@ == old(
                self,
            )@,
            r is Err ==> forall|k: u64| #[trigger] final(self).is_busy(k) == old(self).is_busy(k),
    {
        let mut j: usize = 0;
        while j < self.slots.len()
            invariant
                j <= self.slots@.len(),
                self.slots@ == old(self).slots@,
                forall|q: int|
                    0 <= q < j && q < MAX_SLOTS ==> !(self.slots@[q].state is Free && self.slots@[q].generation
                        < u32::MAX),
            decreases self.slots.len() - j,
        {
            let free = match self.slots[j].state {
                SlotState::Free => true,
                _ => false,
            };
            if free && self.slots[j].generation < u32::MAX && j < MAX_SLOTS {
                let generation = self.slots[j].generation + 1;
                let ghost g = self.slots@[j as int].generation;
                let _ = self.replace_slot(j, Slot { generation, owner, state: SlotState::Live(obj) });
                proof {
                    lemma_encode_decode(j as int, generation as int);
                    lemma_mul_span(generation as int);
                }
                let handle: u64 = generation as u64 * SLOT_SPAN + j as u64 + 1;
                assert forall|k: u64| k != handle implies (#[trigger] self.slot_of(k) == old(
                    self,
                ).slot_of(k) || (self.slot_of(k) is None && index_of(k) == j && (old(self).slot_of(
                    k,
                ) is None || old(self).slot_of(k)->0.state is Free))) by {
                    if index_of(k) == j as int && generation_of(k) == generation as int {
                        lemma_same_index(k, handle);
                    }
                }
                assert forall|k: u64| #[trigger] self.is_busy(k) == old(self).is_busy(k) by {
                    if k != handle {
                        assert(self.slot_of(k) == old(self).slot_of(k) || self.slot_of(k) is None);
                    }
                }
                assert forall|k: u64|
                    k != handle && (old(self).is_live(k) || old(self).is_busy(k)) implies #[trigger] self.owner_of(k)
                    == old(self).owner_of(k) by {
                    assert(self.slot_of(k) == old(self).slot_of(k) || self.slot_of(k) is None);
                }
                assert forall|k: u64| #[trigger] self.is_live(k) == (old(self).is_live(k) || k == handle) by {
                    if k != handle {
                        assert(self.slot_of(k) == old(self).slot_of(k) || self.slot_of(k) is None);
                    }
                }
                assert(self@ =~= old(self)@.insert(handle, obj));
                return Ok(handle);
            }
            j = j + 1;
        }
        if self.slots.len() >= MAX_SLOTS {
            assert(self@ =~= old(self)@);
            return Err(NfscrsJniError::HandlesExhausted);
        }
        let i = self.slots.len();
        self.slots.push(Slot { generation: 0, owner, state: SlotState::Live(obj) });
        let ghost h = encode(i as int, 0);
        proof {
            lemma_encode_decode(i as int, 0);
        }
        let handle: u64 = (i as u64) + 1;
        assert(handle == h);
        assert forall|k: u64| k != handle implies #[trigger] self.slot_of(k) == old(self).slot_of(
            k,
        ) by {
            if index_of(k) == i as int && generation_of(k) == 0 {
                lemma_same_index(k, handle);
            }
        }
        assert forall|k: u64| #[trigger] self.is_busy(k) == old(self).is_busy(k) by {
            if k != handle {
                assert(self.slot_of(k) == old(self).slot_of(k));
            }
        }
        assert(self@ =~= old(self)@.insert(handle, obj));
        Ok(handle)
    }

    /// Where only slot `index_of(h)` changed, every other handle names what it named.
    proof fn lemma_only_slot_changed(&self, before: &Self, h: u64)
        requires
            before.slot_of(h) is Some,
            self.slots().len() == before.slots().len(),
            self.slots()[index_of(h)].generation == before.slots()[index_of(h)].generation,
            forall|j: int|
                0 <= j < self.slots().len() && j != index_of(h) ==> self.slots()[j]
                    == before.slots()[j],
        ensures
            forall|k: u64| k != h ==> #[trigger] self.slot_of(k) == before.slot_of(k),
    {
        assert forall|k: u64| k != h implies #[trigger] self.slot_of(k) == before.slot_of(k) by {
            if index_of(k) == index_of(h) && generation_of(k) == generation_of(h) {
                lemma_same_index(k, h);
            }
        }
    }

    /// Takes the object of `h` out of the registry and frees its slot, so
    /// that every later use of `h` is refused.
    pub fn destroy(&mut self, h: u64) -> (r: Result<T, NfscrsJniError>)
        ensures
            r is Ok <==> old(self).is_live(h),
            r matches Ok(v) ==> {
                &&& v == old(self)@[h]
                &&& final(self)@ == old(self)@.remove(h)
                &&& final(self).slot_of(h) is Some
                &&& !final(self).is_live(h)
                &&& !final(self).is_busy(h)
                &&& forall|k: u64| k != h ==> #[trigger] final(self).is_busy(k) == old(self).is_busy(k)
            },
            r matches Err(e) ==> {
                &&& final(self)@ == old(self)@
                &&& forall|k: u64| #[trigger] final(self).is_busy(k) == old(self).is_busy(k)
                &&& e == (if old(self).is_busy(h) {
                    NfscrsJniError::HandleBusy
                } else {
                    NfscrsJniError::InvalidHandle
                })
            },
    {
        let i = match self.lookup(h) {
            Some(i) => i,
            None => return Err(NfscrsJniError::InvalidHandle),
        };
        match self.slots[i].state {
            SlotState::Live(_) => {},
            SlotState::Busy => return Err(NfscrsJniError::HandleBusy),
            SlotState::Free => return Err(NfscrsJniError::InvalidHandle),
        }
        let generation = self.slots[i].generation;
        let owner = self.slots[i].owner;
        let prev = self.replace_slot(i, Slot { generation, owner, state: SlotState::Free });
        proof {
            self.lemma_only_slot_changed(old(self), h);
        }
        assert(self@ =~= old(self)@.remove(h));
        match prev.state {
            SlotState::Live(v) => Ok(v),
            _ => Err(NfscrsJniError::InvalidHandle),
        }
    }

    /// Takes the object of `h` out for the duration of one call. Until it is
    /// returned by `checkin`, other uses of `h` fail with `HandleBusy`.
    pub fn checkout(&mut self, h: u64) -> (r: Result<T, NfscrsJniError>)
        ensures
            r is Ok <==> old(self).is_live(h),
            r matches Ok(v) ==> {
                &&& v == old(self)@[h]
                &&& final(self)@ == old(self)@.remove(h)
                &&& final(self).is_busy(h)
                &&& final(self).owner_of(h) == old(self).owner_of(h)
                &&& forall|k: u64| k != h ==> #[trigger] final(self).is_busy(k) == old(self).is_busy(k)
            },
            r matches Err(e) ==> {
                &&& final(self)@ == old(self)@
                &&& forall|k: u64| #[trigger] final(self).is_busy(k) == old(self).is_busy(k)
                &&& e == (if old(self).is_busy(h) {
                    NfscrsJniError::HandleBusy
                } else {
                    NfscrsJniError::InvalidHandle
                })
            },
    {
        let i = match self.lookup(h) {
            Some(i) => i,
            None => return Err(NfscrsJniError::InvalidHandle),
        };
        match self.slots[i].state {
            SlotState::Live(_) => {},
            SlotState::Busy => return Err(NfscrsJniError::HandleBusy),
            SlotState::Free => return Err(NfscrsJniError::InvalidHandle),
        }
        let generation = self.slots[i].generation;
        let owner = self.slots[i].owner;
        let prev = self.replace_slot(i, Slot { generation, owner, state: SlotState::Busy });
        proof {
            self.lemma_only_slot_changed(old(self), h);
        }
        assert(self@ =~= old(self)@.remove(h));
        match prev.state {
            SlotState::Live(v) => Ok(v),
            _ => Err(NfscrsJniError::InvalidHandle),
        }
    }

    /// Returns the object of `h` after a call. Fails with `InvalidHandle`,
    /// dropping `obj`, when `h` was not checked out.
    pub fn checkin(&mut self, h: u64, obj: T) -> (r: Result<(), NfscrsJniError>)
        ensures
            r is Ok <==> old(self).is_busy(h),
            r is Ok ==> {
                &&& final(self)@ == old(self)@.insert(h, obj)
                &&& !final(self).is_busy(h)
                &&& final(self).owner_of(h) == old(self).owner_of(h)
                &&& forall|k: u64| k != h ==> #[trigger] final(self).is_busy(k) == old(self).is_busy(k)
            },
            r matches Err(e) ==> e == NfscrsJniError::InvalidHandle && final(self)@ == old(self)@
                && forall|k: u64| #[trigger] final(self).is_busy(k) == old(self).is_busy(k),
    {
        let i = match self.lookup(h) {
            Some(i) => i,
            None => return Err(NfscrsJniError::InvalidHandle),
        };
        match self.slots[i].state {
            SlotState::Busy => {},
            _ => return Err(NfscrsJniError::InvalidHandle),
        }
        let generation = self.slots[i].generation;
        let owner = self.slots[i].owner;
        let _ = self.replace_slot(i, Slot { generation, owner, state: SlotState::Live(obj) });
        proof {
            self.lemma_only_slot_changed(old(self), h);
        }
        assert(self@ =~= old(self)@.insert(h, obj));
        Ok(())
    }

    /// Whether `h` names an object, live or checked out.
    pub fn contains(&self, h: u64) -> (r: bool)
        ensures
            r == (self.is_live(h) || self.is_busy(h)),
    {
        match self.lookup(h) {
            Some(i) => match self.slots[i].state {
                SlotState::Free => false,
                _ => true,
            },
            None => false,
        }
    }

    /// Checks that `h` names an object, live or checked out, that belongs
    /// to `owner`.
    pub fn check_owner(&self, h: u64, owner: u64) -> (r: Result<(), NfscrsJniError>)
        ensures
            r is Ok <==> (self.is_live(h) || self.is_busy(h)) && self.owner_of(h) == owner,
            r matches Err(e) ==> e == (if self.is_live(h) || self.is_busy(h) {
                NfscrsJniError::CrossSessionHandle
            } else {
                NfscrsJniError::InvalidHandle
            }),
    {
        let i = match self.lookup(h) {
            Some(i) => i,
            None => return Err(NfscrsJniError::InvalidHandle),
        };
        match self.slots[i].state {
            SlotState::Free => return Err(NfscrsJniError::InvalidHandle),
            _ => {},
        }
        if self.slots[i].owner == owner {
            Ok(())
        } else {
            Err(NfscrsJniError::CrossSessionHandle)
        }
    }
}

/// A destroyed handle stays refused: after `destroy(h)`, a `create` that
/// follows neither hands out `h` again nor makes it live, so resolving `h`
/// still fails with `InvalidHandle`.
pub proof fn lemma_destroyed_handle_stays_invalid<T>(
    destroyed: HandleRegistry<T>,
    later: HandleRegistry<T>,
    h: u64,
    fresh: u64,
    obj: T,
)
    requires
        destroyed.slot_of(h) is Some,
        !destroyed.is_live(h),
        !destroyed.is_busy(h),
        destroyed.slot_of(fresh) is None,
        later@ == destroyed@.insert(fresh, obj),
        forall|k: u64| #[trigger] later.is_busy(k) == destroyed.is_busy(k),
    ensures
        fresh != h,
        !later.is_live(h),
        !later.is_busy(h),
{
    assert(!destroyed@.dom().contains(h));
    assert(later@.dom().contains(h) == later.is_live(h));
}

proof fn lemma_mul_span(generation: int)
    requires
        0 <= generation <= u32::MAX,
    ensures
        generation * SLOT_SPAN <= u32::MAX * SLOT_SPAN,
{
    assert(generation * SLOT_SPAN <= u32::MAX * SLOT_SPAN) by (nonlinear_arith)
        requires
            0 <= generation <= u32::MAX,
    ;
}

proof fn lemma_same_index(k: u64, h: u64)
    requires
        index_of(k) == index_of(h),
        generation_of(k) == generation_of(h),
    ensures
        k == h,
{
    assert(k == (k / SLOT_SPAN) * SLOT_SPAN + k % SLOT_SPAN) by (nonlinear_arith);
    assert(h == (h / SLOT_SPAN) * SLOT_SPAN + h % SLOT_SPAN) by (nonlinear_arith);
}

} // verus!
