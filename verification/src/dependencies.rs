use std::any::Any;
use std::any::TypeId;
use std::sync::Arc;
use vstd::prelude::*;

verus! {

#[verifier::external_type_specification]
#[verifier::external_body]
pub struct ExTypeId(std::any::TypeId);

/// A value whose static type has been erased, as a [`TypeMap`] holds it.
///
/// Nothing is known of what a slot holds: it is carried from `bind` to `get`
/// and narrowed again there.
#[verifier::external_body]
pub struct Slot {
    held: Box<dyn Any>,
}

/// `TypeId::of`: the identity of the type `T`. Nothing is claimed of the
/// identity that comes back.
#[verifier::external_body]
fn type_key<T: 'static>() -> (key: TypeId) {
    TypeId::of::<T>()
}

/// `==` on `TypeId`: whether the two identities are the same one.
#[verifier::external_body]
fn same_key(a: &TypeId, b: &TypeId) -> (same: bool)
    ensures
        same == (*a == *b),
{
    a == b
}

/// `Box::new`, unsized to `Box<dyn Any>`: the value with its type erased.
#[verifier::external_body]
fn erase<T: 'static>(val: T) -> (slot: Slot) {
    Slot { held: Box::new(val) }
}

/// `<dyn Any>::downcast_ref`: the held value as a `T`, where it is one.
#[verifier::external_body]
fn narrow<T: 'static>(slot: &Slot) -> (val: Option<&T>) {
    slot.held.downcast_ref::<T>()
}

/// `Box<dyn Any>::downcast`: the held value as an owned `T`, where it is one.
#[verifier::external_body]
fn unerase<T: 'static>(slot: Slot) -> (val: Option<Box<T>>) {
    slot.held.downcast::<T>().ok()
}

/// `Arc::clone`: a second handle to the same value.
#[verifier::external_body]
fn share<T>(handle: &Arc<T>) -> (second: Arc<T>)
    ensures
        *second == **handle,
{
    Arc::clone(handle)
}

/// The bindings after `slot` was offered for the identity `key`: it is bound
/// where nothing was, and rejected where something is.
pub open spec fn bind_fresh(store: Map<TypeId, Slot>, key: TypeId, slot: Slot) -> Map<
    TypeId,
    Slot,
> {
    if store.contains_key(key) {
        store
    } else {
        store.insert(key, slot)
    }
}

/// Of two values offered for the same type identity the second is rejected:
/// it does not replace the first, and the other bindings stay.
pub proof fn lemma_second_binding_rejected(
    store: Map<TypeId, Slot>,
    key: TypeId,
    first: Slot,
    second: Slot,
)
    ensures
        bind_fresh(store, key, first).contains_key(key),
        bind_fresh(bind_fresh(store, key, first), key, second) == bind_fresh(store, key, first),
        !store.contains_key(key) ==> bind_fresh(bind_fresh(store, key, first), key, second)[key]
            == first,
{
}

/// A `TypeMap` stores at most one value per type identity.
pub struct TypeMap {
    keys: Vec<TypeId>,
    slots: Vec<Slot>,
}

impl View for TypeMap {
    type V = Map<TypeId, Slot>;

    /// The slot that each bound type identity holds.
    closed spec fn view(&self) -> Map<TypeId, Slot> {
        Map::new(
            |k: TypeId| self.keys@.contains(k),
            |k: TypeId| self.slots@[self.keys@.index_of(k)],
        )
    }
}

impl TypeMap {
    /// No identity is stored twice, and each has its slot.
    pub closed spec fn wf(&self) -> bool {
        &&& self.keys@.len() == self.slots@.len()
        &&& self.keys@.no_duplicates()
    }

    /// Creates a new, empty type map.
    pub fn new() -> (tm: TypeMap)
        ensures
            tm.wf(),
            tm@ == Map::<TypeId, Slot>::empty(),
    {
        let tm = TypeMap { keys: Vec::new(), slots: Vec::new() };
        assert(tm@ =~= Map::<TypeId, Slot>::empty());
        tm
    }

    /// Where `key` stands among the stored identities.
    fn position(&self, key: &TypeId) -> (at: Option<usize>)
        requires
            self.wf(),
        ensures
            match at {
                Some(i) => i < self.keys@.len() && self.keys@[i as int] == *key
                    && self.keys@.index_of(*key) == i,
                None => !self.keys@.contains(*key),
            },
    {
        let mut i: usize = 0;
        while i < self.keys.len()
            invariant
                self.wf(),
                i <= self.keys@.len(),
                forall|j: int| 0 <= j < i ==> self.keys@[j] != *key,
            decreases self.keys@.len() - i,
        {
            if same_key(&self.keys[i], key) {
                proof {
                    let at = self.keys@.index_of(*key);
                    assert(self.keys@[i as int] == *key);
                    assert(0 <= at < self.keys@.len() && self.keys@[at] == *key);
                }
                return Some(i);
            }
            i += 1;
        }
        None
    }

    /// Whether a value is bound to the identity `key`.
    pub fn holds(&self, key: &TypeId) -> (bound: bool)
        requires
            self.wf(),
        ensures
            bound == self@.contains_key(*key),
    {
        self.position(key).is_some()
    }

    /// The slot bound to the identity `key`, if there is one.
    pub fn slot(&self, key: &TypeId) -> (found: Option<&Slot>)
        requires
            self.wf(),
        ensures
            match found {
                Some(slot) => self@.contains_key(*key) && *slot == self@[*key],
                None => !self@.contains_key(*key),
            },
    {
        match self.position(key) {
            Some(i) => Some(&self.slots[i]),
            None => None,
        }
    }

    /// Binds `slot` to the identity `key`, and returns the slot that was
    /// bound to it before, if there was one. Every other binding stays.
    pub fn bind_slot(&mut self, key: TypeId, slot: Slot) -> (prev: Option<Slot>)
        requires
            old(self).wf(),
        ensures
            final(self).wf(),
            final(self)@ == old(self)@.insert(key, slot),
            match prev {
                Some(p) => old(self)@.contains_key(key) && p == old(self)@[key],
                None => !old(self)@.contains_key(key),
            },
    {
        match self.position(&key) {
            Some(i) => {
                let prev = self.slots.remove(i);
                self.slots.insert(i, slot);
                proof {
                    assert(self.slots@ =~= old(self).slots@.update(i as int, slot));
                    assert forall|k: TypeId| self.keys@.contains(k) implies #[trigger] self@[k]
                        == old(self)@.insert(key, slot)[k] by {
                        let j = self.keys@.index_of(k);
                        if k != key {
                            assert(j != i);
                        }
                    }
                    assert(self@ =~= old(self)@.insert(key, slot));
                }
                Some(prev)
            },
            None => {
                self.keys.push(key);
                self.slots.push(slot);
                proof {
                    let n = old(self).keys@.len() as int;
                    assert(self.keys@[n] == key);
                    assert forall|k: TypeId| #[trigger]
                        self.keys@.contains(k) == old(self)@.insert(key, slot).contains_key(
                            k,
                        ) by {
                        if old(self).keys@.contains(k) {
                            let j = old(self).keys@.index_of(k);
                            assert(self.keys@[j] == k);
                        }
                    }
                    assert forall|k: TypeId| self.keys@.contains(k) implies #[trigger] self@[k]
                        == old(self)@.insert(key, slot)[k] by {
                        let j = self.keys@.index_of(k);
                        if k == key {
                            assert(j == n);
                        } else {
                            assert(j < n);
                            assert(old(self).keys@[j] == k);
                            assert(old(self).keys@.index_of(k) == j);
                        }
                    }
                    assert(self@ =~= old(self)@.insert(key, slot));
                }
                None
            },
        }
    }

    /// Binds `slot` to the identity `key` unless something is bound to it:
    /// then the map stays as it is. Returns whether the slot was bound.
    pub fn bind_fresh_slot(&mut self, key: TypeId, slot: Slot) -> (fresh: bool)
        requires
            old(self).wf(),
        ensures
            final(self).wf(),
            fresh == !old(self)@.contains_key(key),
            final(self)@ == bind_fresh(old(self)@, key, slot),
    {
        if self.holds(&key) {
            false
        } else {
            let _ = self.bind_slot(key, slot);
            true
        }
    }

    /// Binds the given value to its type unless a value of this type is
    /// bound: then the map stays as it is, the value is dropped and the
    /// identity of its type comes back.
    ///
    /// The identity of `T` comes from the runtime, so the contract speaks of
    /// it as of some identity.
    pub fn bind_new<T: 'static>(&mut self, val: T) -> (bound: Result<(), TypeId>)
        requires
            old(self).wf(),
        ensures
            final(self).wf(),
            match bound {
                Ok(_) => exists|key: TypeId, slot: Slot|
                    #![auto]
                    !old(self)@.contains_key(key) && final(self)@ == old(self)@.insert(key, slot),
                Err(key) => old(self)@.contains_key(key) && final(self)@ == old(self)@,
            },
    {
        let key = type_key::<T>();
        if self.holds(&key) {
            Err(key)
        } else {
            let slot = erase(val);
            let ghost pair = (key, slot);
            let _ = self.bind_slot(key, slot);
            assert(!old(self)@.contains_key(pair.0) && self@ == old(self)@.insert(pair.0, pair.1));
            Ok(())
        }
    }

    /// Binds the given value to its type in the type map. If a value of this
    /// type was bound before, it is replaced and returned.
    ///
    /// The identity of `T` comes from the runtime, so the contract speaks of
    /// it as of some identity: at most the binding of one identity changes,
    /// and a value comes back only where that identity was bound before.
    pub fn bind<T: 'static>(&mut self, val: T) -> (prev: Option<Box<T>>)
        requires
            old(self).wf(),
        ensures
            final(self).wf(),
            exists|key: TypeId, slot: Slot|
                #![auto]
                final(self)@ == old(self)@.insert(key, slot) && (prev.is_some() ==> old(
                    self,
                )@.contains_key(key)),
    {
        let key = type_key::<T>();
        let slot = erase(val);
        let ghost pair = (key, slot);
        match self.bind_slot(key, slot) {
            Some(p) => {
                assert(self@ == old(self)@.insert(pair.0, pair.1));
                unerase::<T>(p)
            },
            None => {
                assert(self@ == old(self)@.insert(pair.0, pair.1));
                None
            },
        }
    }

    /// Returns the value in this type map for this unique type.
    ///
    /// A value comes back only where something is bound: an empty map holds
    /// no value of any type.
    pub fn get<T: 'static>(&self) -> (val: Option<&T>)
        requires
            self.wf(),
        ensures
            val.is_some() ==> exists|key: TypeId| self@.contains_key(key),
    {
        let key = type_key::<T>();
        match self.slot(&key) {
            Some(slot) => narrow::<T>(slot),
            None => None,
        }
    }
}

/// A type which can be retrieved from a type map. Its type signature
/// uniquely stores the type in the map.
pub trait FromTypeMap: Sized + 'static {
    /// Whether `found` is a result that resolving against `tm` can have.
    /// Unless an implementation says more, any result can be had.
    open spec fn resolves(tm: &TypeMap, found: Option<Self>) -> bool {
        true
    }

    /// Looks a value of this type up in `tm`.
    fn retrieve_from_map(tm: &TypeMap) -> (found: Option<Self>)
        requires
            tm.wf(),
        ensures
            Self::resolves(tm, found),
    ;
}

/// Resolves a cloneable value of type `T` that was bound as it is: a copy of
/// the bound value, or nothing where none is bound.
pub fn retrieve_cloned<T: Clone + 'static>(tm: &TypeMap) -> (found: Option<T>)
    requires
        tm.wf(),
    ensures
        found.is_some() ==> exists|key: TypeId| tm@.contains_key(key),
{
    match tm.get::<T>() {
        Some(val) => Some(val.clone()),
        None => None,
    }
}

/// A dependency which can be automatically resolved at runtime
/// by its unique type.
pub struct Dep<T>(Arc<T>);

impl<T> View for Dep<T> {
    type V = T;

    /// The value that the handle shares.
    closed spec fn view(&self) -> T {
        *self.0
    }
}

impl<T> Dep<T> {
    /// Create a new dependency for injection.
    pub fn new(val: T) -> (dep: Dep<T>)
        ensures
            dep@ == val,
    {
        Dep(Arc::new(val))
    }

    /// Yields the inner dependency, destroying the outer wrapper.
    #[must_use]
    pub fn inner(self) -> (shared: Arc<T>)
        ensures
            *shared == self@,
    {
        self.0
    }
}

impl<T> Clone for Dep<T> {
    /// A second handle to the same value.
    fn clone(&self) -> (second: Self)
        ensures
            second@ == self@,
    {
        Dep(share(&self.0))
    }
}

impl<T> std::ops::Deref for Dep<T> {
    type Target = Arc<T>;

    fn deref(&self) -> (shared: &Arc<T>)
        ensures
            **shared == self@,
    {
        &self.0
    }
}

/// A handle resolves to a second handle to the bound one, and only where
/// something is bound.
impl<T: 'static> FromTypeMap for Dep<T> {
    open spec fn resolves(tm: &TypeMap, found: Option<Self>) -> bool {
        found.is_some() ==> exists|key: TypeId| tm@.contains_key(key)
    }

    fn retrieve_from_map(tm: &TypeMap) -> (found: Option<Self>) {
        match tm.get::<Dep<T>>() {
            Some(dep) => Some(dep.clone()),
            None => None,
        }
    }
}

/// Where nothing is bound, no handle resolves.
pub proof fn lemma_nothing_resolves_from_empty<T: 'static>(tm: &TypeMap, dep: Dep<T>)
    requires
        tm@ == Map::<TypeId, Slot>::empty(),
    ensures
        !Dep::<T>::resolves(tm, Some(dep)),
        Dep::<T>::resolves(tm, None),
{
}

} // verus!
