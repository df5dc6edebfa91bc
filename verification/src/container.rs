//! The container under test, as the harness sees it.
//!
//! The harness never looks inside a container. It asks for three things only:
//! insert the sample key, look it up, remove it. `Container` is that interface,
//! and `MapCase` and `SetCase` give it to the standard hash map and hash set
//! with any hash builder plugged in.
//!
//! A container keeps a record of the calls made on it. Its three methods
//! extend the record, each by the one call it is, and nothing else can: so a
//! contract that speaks of the record speaks of what was really done to the
//! container.

use crate::scenario::Operation;
use std::collections::HashMap;
use std::collections::HashSet;
use std::hash::BuildHasher;
use std::hash::Hash;
use vstd::prelude::*;
use vstd::std_specs::hash::builds_valid_hashers;
use vstd::std_specs::hash::obeys_key_model;

verus! {

/// Cloning a `T` gives a value equal to the one cloned.
pub open spec fn clones_exactly<T: Clone>() -> bool {
    forall|a: T, b: T| #[trigger] cloned(a, b) ==> a == b
}

/// What a container keeps of the calls made on it: the operations, oldest
/// first, each with whether the sample key was in the container when the call
/// was made.
pub type Record = Seq<(Operation, bool)>;

/// Where `MapCase` and `SetCase` keep their record. Only this module can
/// make a ledger or write into one: it makes one where a container is built,
/// and writes into it in the three methods of a container.
pub struct Ledger {
    calls: Ghost<Record>,
}

impl View for Ledger {
    type V = Record;

    closed spec fn view(&self) -> Record {
        self.calls@
    }
}

impl Ledger {
    /// A ledger without an entry, for a container that is being built.
    fn new() -> (ledger: Self)
        ensures
            ledger@ == Seq::<(Operation, bool)>::empty(),
    {
        Ledger { calls: Ghost(Seq::empty()) }
    }
}

/// A container together with the sample key, and for a map the sample value,
/// of one benchmark case.
pub trait Container: Sized {
    /// What a successful lookup hands back.
    type Value;

    /// Whether containers of this type keep to the model below: what was
    /// inserted is found until it is removed. A hash container does so only if
    /// its keys hash and compare consistently and its hash builder builds
    /// hashers that agree with one another; where that is not known, the
    /// contracts of this trait promise nothing of the key's state.
    spec fn sound() -> bool;

    /// Whether the sample key is in the container.
    spec fn present(&self) -> bool;

    /// The calls made on the container since it was built. The record is
    /// ghost state: nothing reads it at run time.
    spec fn performed(&self) -> Record;

    /// Inserts the sample key, overwriting what was stored under it.
    fn insert(&mut self)
        ensures
            final(self).performed() == old(self).performed().push(
                (Operation::Insert, old(self).present()),
            ),
            Self::sound() ==> final(self).present(),
    ;

    /// Looks the sample key up. A key that is not there is an ordinary
    /// outcome: `None`. The container is borrowed mutably for the sake of
    /// its record alone; what it holds stays as it is.
    fn lookup(&mut self) -> (found: Option<&Self::Value>)
        ensures
            final(self).performed() == old(self).performed().push(
                (Operation::Lookup, old(self).present()),
            ),
            Self::sound() ==> (found is Some <==> old(self).present()),
            Self::sound() ==> final(self).present() == old(self).present(),
    ;

    /// Removes the sample key and says whether it was there.
    fn remove(&mut self) -> (found: bool)
        ensures
            final(self).performed() == old(self).performed().push(
                (Operation::Remove, old(self).present()),
            ),
            Self::sound() ==> (found <==> old(self).present()),
            Self::sound() ==> !final(self).present(),
    ;
}

/// A hash map under test with the key and the value that its case inserts.
#[verifier::reject_recursive_types(S)]
pub struct MapCase<K, V, S> {
    pub map: HashMap<K, V, S>,
    pub key: K,
    pub value: V,
    pub ledger: Ledger,
}

impl<K, V, S> MapCase<K, V, S> {
    /// What the map holds under the sample key.
    pub open spec fn held(&self) -> Option<V> {
        if self.map@.contains_key(self.key) {
            Some(self.map@[self.key])
        } else {
            None
        }
    }
}

impl<K: Eq + Hash + Clone, V: Clone, S: BuildHasher + Default> MapCase<K, V, S> {
    /// An empty map with a hash builder of its own, and the sample data.
    pub fn new(key: K, value: V) -> (case: Self)
        ensures
            case.map@ == Map::<K, V>::empty(),
            case.key == key,
            case.value == value,
            case.performed() == Seq::<(Operation, bool)>::empty(),
            !case.present(),
    {
        MapCase { map: HashMap::default(), key, value, ledger: Ledger::new() }
    }
}

impl<K: Eq + Hash + Clone, V: Clone, S: BuildHasher> Container for MapCase<K, V, S> {
    type Value = V;

    open spec fn sound() -> bool {
        &&& obeys_key_model::<K>()
        &&& builds_valid_hashers::<S>()
        &&& clones_exactly::<K>()
        &&& clones_exactly::<V>()
    }

    open spec fn present(&self) -> bool {
        self.map@.contains_key(self.key)
    }

    open spec fn performed(&self) -> Record {
        self.ledger@
    }

    fn insert(&mut self)
        ensures
            final(self).key == old(self).key,
            final(self).value == old(self).value,
            Self::sound() ==> final(self).map@ == old(self).map@.insert(
                old(self).key,
                old(self).value,
            ),
            Self::sound() ==> final(self).held() == Some(old(self).value),
    {
        proof {
            self.ledger.calls@ = self.ledger.calls@.push((Operation::Insert, self.present()));
        }
        let key = self.key.clone();
        let value = self.value.clone();
        assert(cloned(self.key, key) && cloned(self.value, value));
        self.map.insert(key, value);
    }

    fn lookup(&mut self) -> (found: Option<&V>)
        ensures
            final(self).key == old(self).key,
            final(self).value == old(self).value,
            final(self).map@ == old(self).map@,
            Self::sound() ==> match found {
                Some(value) => old(self).held() == Some(*value),
                None => old(self).held() is None,
            },
    {
        proof {
            self.ledger.calls@ = self.ledger.calls@.push((Operation::Lookup, self.present()));
        }
        self.map.get(&self.key)
    }

    fn remove(&mut self) -> (found: bool)
        ensures
            final(self).key == old(self).key,
            final(self).value == old(self).value,
            Self::sound() ==> final(self).map@ == old(self).map@.remove(old(self).key),
    {
        proof {
            self.ledger.calls@ = self.ledger.calls@.push((Operation::Remove, self.present()));
        }
        self.map.remove(&self.key).is_some()
    }
}

/// A hash set under test with the key that its case inserts.
#[verifier::reject_recursive_types(S)]
pub struct SetCase<K, S> {
    pub set: HashSet<K, S>,
    pub key: K,
    pub ledger: Ledger,
}

impl<K: Eq + Hash + Clone, S: BuildHasher + Default> SetCase<K, S> {
    /// An empty set with a hash builder of its own, and the sample key.
    pub fn new(key: K) -> (case: Self)
        ensures
            case.set@ == Set::<K>::empty(),
            case.key == key,
            case.performed() == Seq::<(Operation, bool)>::empty(),
            !case.present(),
    {
        SetCase { set: HashSet::default(), key, ledger: Ledger::new() }
    }
}

impl<K: Eq + Hash + Clone, S: BuildHasher> Container for SetCase<K, S> {
    type Value = K;

    open spec fn sound() -> bool {
        &&& obeys_key_model::<K>()
        &&& builds_valid_hashers::<S>()
        &&& clones_exactly::<K>()
    }

    open spec fn present(&self) -> bool {
        self.set@.contains(self.key)
    }

    open spec fn performed(&self) -> Record {
        self.ledger@
    }

    fn insert(&mut self)
        ensures
            final(self).key == old(self).key,
            Self::sound() ==> final(self).set@ == old(self).set@.insert(old(self).key),
    {
        proof {
            self.ledger.calls@ = self.ledger.calls@.push((Operation::Insert, self.present()));
        }
        let key = self.key.clone();
        assert(cloned(self.key, key));
        self.set.insert(key);
    }

    fn lookup(&mut self) -> (found: Option<&K>)
        ensures
            final(self).key == old(self).key,
            final(self).set@ == old(self).set@,
            Self::sound() ==> match found {
                Some(key) => old(self).present() && *key == old(self).key,
                None => !old(self).present(),
            },
    {
        proof {
            self.ledger.calls@ = self.ledger.calls@.push((Operation::Lookup, self.present()));
        }
        self.set.get(&self.key)
    }

    fn remove(&mut self) -> (found: bool)
        ensures
            final(self).key == old(self).key,
            Self::sound() ==> final(self).set@ == old(self).set@.remove(old(self).key),
    {
        proof {
            self.ledger.calls@ = self.ledger.calls@.push((Operation::Remove, self.present()));
        }
        self.set.remove(&self.key)
    }
}

} // verus!
