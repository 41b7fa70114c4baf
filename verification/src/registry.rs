//! The identity registry: issues generation-counted identifiers and maps live
//! identifiers back to their resources in constant time.
//!
//! A registry owns a vector of slots. Each slot carries the generation of the
//! identifier it last issued; freeing a resource vacates its slot, and the
//! slot may later be reused under a strictly higher generation. An identifier
//! therefore resolves exactly until its resource is freed, and never again
//! afterwards — even once the slot holds a new resource.

use vstd::prelude::*;

use crate::error::StaleIdError;
use crate::id::Backend;
use crate::id::ResourceId;

verus! {

/// What one registry slot holds.
pub enum SlotState<T> {
    /// The slot holds a live resource.
    Occupied(T),
    /// The slot is empty and may be reused.
    Vacant,
}

/// One registry slot: the generation of the identifier it last issued, and
/// the resource it currently holds, if any.
pub struct Slot<T> {
    /// Generation of the most recently issued identifier for this slot.
    pub generation: u64,
    /// The slot's current occupant.
    pub state: SlotState<T>,
}

/// An append-mostly table of resources, addressed by [`ResourceId`].
///
/// Freed slots are recycled only after the freeing operation commits, and a
/// recycled slot always issues a higher generation than any identifier it
/// issued before, so no identifier is ever issued twice.
pub struct Registry<T> {
    backend: Backend,
    slots: Vec<Slot<T>>,
    free: Vec<usize>,
    issued: Ghost<Set<ResourceId>>,
}

impl<T> Registry<T> {
    /// The backend every identifier of this registry is tagged with.
    pub closed spec fn backend(self) -> Backend {
        self.backend
    }

    /// All identifiers this registry has ever issued.
    pub closed spec fn issued(self) -> Set<ResourceId> {
        self.issued@
    }

    /// Whether `id` currently names a live resource of this registry.
    pub closed spec fn live(self, id: ResourceId) -> bool {
        &&& id.backend == self.backend
        &&& id.index < self.slots@.len()
        &&& self.slots@[id.index as int].generation == id.generation
        &&& self.slots@[id.index as int].state is Occupied
    }

    /// The resource a live identifier names.
    pub closed spec fn value_of(self, id: ResourceId) -> T
        recommends
            self.live(id),
    {
        self.slots@[id.index as int].state->Occupied_0
    }

    /// The registry's internal invariant.
    pub closed spec fn wf(self) -> bool {
        &&& forall|j: int|
            0 <= j < self.free@.len() ==> {
                &&& #[trigger] self.free@[j] < self.slots@.len()
                &&& self.slots@[self.free@[j] as int].state is Vacant
                &&& self.slots@[self.free@[j] as int].generation < u64::MAX
            }
        &&& forall|j: int, k: int|
            0 <= j < k < self.free@.len() ==> #[trigger] self.free@[j] != #[trigger] self.free@[k]
        &&& forall|i: ResourceId|
            #[trigger] self.issued@.contains(i) ==> {
                &&& i.backend == self.backend
                &&& i.index < self.slots@.len()
                &&& i.generation <= self.slots@[i.index as int].generation
            }
        &&& forall|i: ResourceId| self.live(i) ==> #[trigger] self.issued@.contains(i)
    }

    /// Creates an empty registry for one backend.
    pub fn new(backend: Backend) -> (r: Registry<T>)
        ensures
            r.wf(),
            r.backend() == backend,
            r.issued() == Set::<ResourceId>::empty(),
            forall|i: ResourceId| !r.live(i),
    {
        Registry { backend, slots: Vec::new(), free: Vec::new(), issued: Ghost(Set::empty()) }
    }

    /// Issues a fresh identifier and stores `value` under it.
    ///
    /// The identifier has never been issued before, the stored resource is
    /// live under it, and every other identifier keeps its status and value.
    pub fn allocate(&mut self, value: T) -> (id: ResourceId)
        requires
            old(self).wf(),
        ensures
            final(self).wf(),
            final(self).backend() == old(self).backend(),
            id.backend == old(self).backend(),
            !old(self).issued().contains(id),
            final(self).issued() == old(self).issued().insert(id),
            final(self).live(id),
            final(self).value_of(id) == value,
            !old(self).live(id),
            forall|o: ResourceId| o != id ==> (final(self).live(o) <==> old(self).live(o)),
            forall|o: ResourceId|
                o != id && old(self).live(o) ==> final(self).value_of(o) == old(self).value_of(o),
    {
        let id: ResourceId;
        match self.free.pop() {
            Some(index) => {
                let generation = self.slots[index].generation + 1;
                self.slots[index] = Slot { generation, state: SlotState::Occupied(value) };
                id = ResourceId { index, generation, backend: self.backend };
            },
            None => {
                let index = self.slots.len();
                self.slots.push(Slot { generation: 0, state: SlotState::Occupied(value) });
                id = ResourceId { index, generation: 0, backend: self.backend };
            },
        }
        proof {
            self.issued@ = self.issued@.insert(id);
        }
        id
    }

    /// Whether `id` currently resolves.
    pub fn is_live(&self, id: ResourceId) -> (r: bool)
        ensures
            r == self.live(id),
    {
        if id.index < self.slots.len() {
            let slot = &self.slots[id.index];
            match slot.state {
                SlotState::Occupied(_) => {
                    slot.generation == id.generation && id.backend == self.backend
                },
                SlotState::Vacant => false,
            }
        } else {
            false
        }
    }

    /// Maps a live identifier back to its resource.
    ///
    /// Succeeds exactly while the resource is live; once it has been freed the
    /// identifier is stale forever, whether or not the slot was reused.
    pub fn resolve(&self, id: ResourceId) -> (r: Result<&T, StaleIdError>)
        ensures
            r is Ok <==> self.live(id),
            r matches Ok(v) ==> *v == self.value_of(id),
            r is Err ==> r == Result::<&T, StaleIdError>::Err(StaleIdError),
    {
        if id.index < self.slots.len() {
            let slot = &self.slots[id.index];
            if slot.generation == id.generation && id.backend == self.backend {
                match &slot.state {
                    SlotState::Occupied(value) => Ok(value),
                    SlotState::Vacant => Err(StaleIdError),
                }
            } else {
                Err(StaleIdError)
            }
        } else {
            Err(StaleIdError)
        }
    }

    /// Borrows a live resource for mutation.
    ///
    /// Only the resource named by `id` changes; liveness, the issued set and
    /// every other resource are untouched.
    pub fn borrow_mut(&mut self, id: ResourceId) -> (r: &mut T)
        requires
            old(self).wf(),
            old(self).live(id),
        ensures
            final(self).wf(),
            final(self).backend() == old(self).backend(),
            final(self).issued() == old(self).issued(),
            *r == old(self).value_of(id),
            final(self).value_of(id) == *final(r),
            forall|o: ResourceId| final(self).live(o) <==> old(self).live(o),
            forall|o: ResourceId|
                o != id && old(self).live(o) ==> final(self).value_of(o) == old(self).value_of(o),
    {
        let slot = &mut self.slots[id.index];
        match &mut slot.state {
            SlotState::Occupied(value) => value,
            SlotState::Vacant => vstd::pervasive::unreached(),
        }
    }

    /// Frees the resource named by `id` and vacates its slot.
    ///
    /// Succeeds exactly when `id` is live and returns the freed resource; a
    /// stale identifier leaves the registry unchanged. After a successful
    /// free the identifier never resolves again.
    pub fn free(&mut self, id: ResourceId) -> (r: Result<T, StaleIdError>)
        requires
            old(self).wf(),
        ensures
            final(self).wf(),
            final(self).backend() == old(self).backend(),
            final(self).issued() == old(self).issued(),
            r is Ok <==> old(self).live(id),
            r matches Ok(v) ==> v == old(self).value_of(id),
            !final(self).live(id),
            forall|o: ResourceId| o != id ==> (final(self).live(o) <==> old(self).live(o)),
            forall|o: ResourceId|
                o != id && old(self).live(o) ==> final(self).value_of(o) == old(self).value_of(o),
            r is Err ==> *final(self) == *old(self),
    {
        if !self.is_live(id) {
            return Err(StaleIdError);
        }
        let slot = &mut self.slots[id.index];
        let mut taken = SlotState::Vacant;
        core::mem::swap(&mut slot.state, &mut taken);
        if slot.generation < u64::MAX {
            self.free.push(id.index);
        }
        match taken {
            SlotState::Occupied(value) => Ok(value),
            SlotState::Vacant => vstd::pervasive::unreached(),
        }
    }
}

/// Once a resource has been destroyed, allocating new resources never makes
/// its identifier live again: a fresh allocation reuses the slot only under a
/// generation that was never issued.
pub proof fn lemma_allocate_never_revives<T>(
    pre: Registry<T>,
    post: Registry<T>,
    fresh: ResourceId,
    stale: ResourceId,
)
    requires
        pre.issued().contains(stale),
        !pre.live(stale),
        !pre.issued().contains(fresh),
        post.issued() == pre.issued().insert(fresh),
        forall|o: ResourceId| o != fresh ==> (post.live(o) <==> pre.live(o)),
    ensures
        !post.live(stale),
        post.issued().contains(stale),
{
}

/// Freeing any resource never makes a previously destroyed identifier live
/// again.
pub proof fn lemma_free_never_revives<T>(
    pre: Registry<T>,
    post: Registry<T>,
    freed: ResourceId,
    stale: ResourceId,
)
    requires
        !pre.live(stale),
        !post.live(freed),
        post.issued() == pre.issued(),
        forall|o: ResourceId| o != freed ==> (post.live(o) <==> pre.live(o)),
    ensures
        !post.live(stale),
{
}

} // verus!
