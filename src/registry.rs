//! The native object registry: opaque integer identities for native objects
//! held on the loop thread, resolved back to raw addresses.

use std::collections::HashMap;
use vstd::prelude::*;

verus! {

broadcast use vstd::std_specs::hash::group_hash_axioms;

/// Identity of a registered native object. Identities are handed out in
/// increasing order and never reused.
#[derive(Debug, Clone, Copy, PartialEq, Eq, Structural)]
pub struct ObjectId(pub usize);

/// What kind of native object an identity stands for.
#[derive(Debug, Clone, Copy, PartialEq, Eq, Structural)]
pub enum ObjectKind {
    /// A reference-counted object.
    GObject,
    /// A heap-boxed struct.
    Boxed,
    /// A reference-counted variant.
    GVariant,
}

impl ObjectId {
    /// Registers `object`, whose native address is `address`, and returns its identity.
    pub fn new<T>(objs: &mut ObjectMap<T>, object: T, kind: ObjectKind, address: usize) -> (id: ObjectId)
        requires
            old(objs).wf(),
            old(objs).next_id() < usize::MAX,
        ensures
            ObjectMap::registered(*old(objs), *final(objs), id, address),
    {
        objs.register(object, kind, address)
    }

    /// The native address of the object, or `None` once it has been removed.
    pub fn try_as_ptr<T>(&self, objs: &ObjectMap<T>) -> (r: Option<usize>)
        ensures
            r == objs.spec_resolve(*self),
    {
        objs.resolve(*self)
    }
}

/// One registered object: the owning handle and the native address it holds.
pub struct Entry<T> {
    pub object: T,
    pub kind: ObjectKind,
    pub address: usize,
}

/// The registry, generic over the owning handle type; dropping an entry's
/// handle releases the native object.
pub struct ObjectMap<T> {
    map: HashMap<usize, Entry<T>>,
    next_object_id: usize,
}

impl<T> ObjectMap<T> {
    /// The address each live identity resolves to.
    pub closed spec fn addresses(&self) -> Map<usize, usize> {
        self.map@.map_values(|e: Entry<T>| e.address)
    }

    /// The kind of each live identity.
    pub closed spec fn kinds(&self) -> Map<usize, ObjectKind> {
        self.map@.map_values(|e: Entry<T>| e.kind)
    }

    /// The identity the next registration receives.
    pub closed spec fn next_id(&self) -> nat {
        self.next_object_id as nat
    }

    /// Every live identity was handed out before, and none is zero.
    pub closed spec fn wf(&self) -> bool {
        &&& self.next_object_id >= 1
        &&& forall|k: usize| #[trigger] self.map@.contains_key(k) ==> 1 <= k < self.next_object_id
    }

    pub open spec fn spec_resolve(&self, id: ObjectId) -> Option<usize> {
        if self.addresses().contains_key(id.0) {
            Some(self.addresses()[id.0])
        } else {
            None
        }
    }

    /// `new` is `old` with `object` registered at `address` under `id`.
    pub open spec fn registered(old: Self, new: Self, id: ObjectId, address: usize) -> bool {
        &&& id.0 == old.next_id()
        &&& id.0 >= 1
        &&& !old.addresses().contains_key(id.0)
        &&& new.addresses() == old.addresses().insert(id.0, address)
        &&& new.kinds().dom() == new.addresses().dom()
        &&& new.next_id() == old.next_id() + 1
        &&& new.wf()
    }

    /// `new` is `old` with `id` removed.
    pub open spec fn removed(old: Self, new: Self, id: ObjectId) -> bool {
        &&& new.addresses() == old.addresses().remove(id.0)
        &&& new.next_id() == old.next_id()
        &&& new.wf()
    }

    /// An empty registry whose first identity is 1.
    pub fn new() -> (r: Self)
        ensures
            r.wf(),
            r.addresses() == Map::<usize, usize>::empty(),
            r.next_id() == 1,
    {
        let r = ObjectMap { map: HashMap::new(), next_object_id: 1 };
        assert(r.addresses() =~= Map::<usize, usize>::empty());
        r
    }

    /// Whether another identity can still be handed out.
    pub fn can_register(&self) -> (r: bool)
        ensures
            r == (self.next_id() < usize::MAX),
    {
        self.next_object_id < usize::MAX
    }

    /// Registers `object`, whose native address is `address`, under a fresh identity.
    pub fn register(&mut self, object: T, kind: ObjectKind, address: usize) -> (id: ObjectId)
        requires
            old(self).wf(),
            old(self).next_id() < usize::MAX,
        ensures
            Self::registered(*old(self), *final(self), id, address),
            final(self).kinds() == old(self).kinds().insert(id.0, kind),
    {
        let id = self.next_object_id;
        proof {
            assert(!self.map@.contains_key(id));
        }
        self.next_object_id = id + 1;
        self.map.insert(id, Entry { object, kind, address });
        proof {
            assert(self.addresses() =~= old(self).addresses().insert(id, address));
            assert(self.kinds() =~= old(self).kinds().insert(id, kind));
            assert(self.kinds().dom() =~= self.addresses().dom());
        }
        ObjectId(id)
    }

    /// The native address of `id`, or `None` once it has been removed.
    pub fn resolve(&self, id: ObjectId) -> (r: Option<usize>)
        ensures
            r == self.spec_resolve(id),
    {
        match self.map.get(&id.0) {
            Some(e) => Some(e.address),
            None => None,
        }
    }

    /// The kind of object `id` stands for, or `None` once it has been removed.
    pub fn kind_of(&self, id: ObjectId) -> (r: Option<ObjectKind>)
        ensures
            r == (if self.kinds().contains_key(id.0) {
                Some(self.kinds()[id.0])
            } else {
                None
            }),
            r.is_some() == self.addresses().contains_key(id.0),
    {
        match self.map.get(&id.0) {
            Some(e) => Some(e.kind),
            None => None,
        }
    }

    /// Removes `id`, releasing its object; nothing happens if it is gone already.
    pub fn remove(&mut self, id: ObjectId) -> (r: Option<T>)
        requires
            old(self).wf(),
        ensures
            Self::removed(*old(self), *final(self), id),
            final(self).kinds() == old(self).kinds().remove(id.0),
            r.is_some() == old(self).addresses().contains_key(id.0),
    {
        let r = self.map.remove(&id.0);
        proof {
            assert(self.addresses() =~= old(self).addresses().remove(id.0));
            assert(self.kinds() =~= old(self).kinds().remove(id.0));
        }
        match r {
            Some(e) => Some(e.object),
            None => None,
        }
    }
}

/// Registering an object and resolving its identity gives back its address;
/// once the identity is removed it resolves to nothing, while every other
/// identity resolves as it did before.
pub proof fn law_register_resolve_remove<T>(
    r0: ObjectMap<T>,
    r1: ObjectMap<T>,
    r2: ObjectMap<T>,
    id: ObjectId,
    address: usize,
    other: ObjectId,
)
    requires
        r0.wf(),
        ObjectMap::registered(r0, r1, id, address),
        ObjectMap::removed(r1, r2, id),
    ensures
        r1.spec_resolve(id) == Some(address),
        r2.spec_resolve(id) == None::<usize>,
        other != id ==> r2.spec_resolve(other) == r1.spec_resolve(other),
{
}

} // verus!
