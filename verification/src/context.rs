use vstd::prelude::*;
use std::collections::HashMap;
use std::hash::BuildHasherDefault;
use fnv::FnvHasher;

verus! {

/// Runtime type identity for the values a store can hold.
///
/// A heterogeneous store indexes its entries by the concrete type of each
/// value. Verified code cannot ask the language for a type's identity at
/// runtime, so each storable type carries a small integer tag standing for
/// that type instead: `tag` must return the same tag for every value of one
/// concrete type, and callers keep tags of distinct types distinct. Storable
/// values must be safely shareable across concurrent readers, so the trait
/// asks for `Send` and `Sync`.
pub trait Tagged: Sized + Send + Sync {
    /// The type tag, at the specification level.
    spec fn tag_spec(&self) -> u64;

    /// The tag of this value's concrete type.
    fn tag(&self) -> (t: u64)
        ensures
            t == self.tag_spec(),
    ;
}

#[verifier::external_type_specification]
#[verifier::external_body]
pub struct ExFnvHasher(FnvHasher);

#[verifier::external_type_specification]
#[verifier::external_body]
#[verifier::reject_recursive_types(H)]
pub struct ExBuildHasherDefault<H>(BuildHasherDefault<H>);

/// A hash table from type tag to stored value, hashed with fnv.
type FnvTable<V> = HashMap<u64, V, BuildHasherDefault<FnvHasher>>;

/// Relies on `HashMap::default`: a freshly built map is empty. fnv's
/// `FnvBuildHasher` is `BuildHasherDefault<FnvHasher>`, whose `default` is a
/// zero-sized builder with no state of its own.
#[verifier::external_body]
fn fnv_table_new<V>() -> (m: FnvTable<V>)
    ensures
        m@.dom() == Set::<u64>::empty(),
{
    HashMap::default()
}

/// Relies on `HashMap::insert`. The hashers that fnv's `FnvBuildHasher`
/// builds all start from the same state and `FnvHasher::write` is a pure
/// function of the bytes written, so equal keys always hash alike and the
/// map behaves as the standard model says: the entry under `key` is
/// replaced by `value` and every other entry is untouched.
#[verifier::external_body]
fn fnv_table_insert<V>(m: &mut FnvTable<V>, key: u64, value: V)
    ensures
        final(m)@ == old(m)@.insert(key, value),
{
    m.insert(key, value);
}

/// Relies on `HashMap::get`, with fnv's deterministic hasher as above: the
/// result is the entry stored under `key`, or nothing when there is none.
#[verifier::external_body]
fn fnv_table_get<'a, V>(m: &'a FnvTable<V>, key: u64) -> (r: Option<&'a V>)
    ensures
        match r {
            Some(v) => m@.contains_key(key) && *v == m@[key],
            None => !m@.contains_key(key),
        },
{
    m.get(&key)
}

/// A heterogeneous store: at most one value per type tag, looked up by tag.
///
/// It backs both the ambient shared context memory that jobs read and the
/// private rollback store inside a journey.
pub struct HiveMemory<V: Tagged> {
    table: FnvTable<V>,
}

impl<V: Tagged> HiveMemory<V> {
    /// What the store holds: a map from type tag to the stored value.
    pub closed spec fn contents(self) -> Map<u64, V> {
        self.table@
    }

    /// Every stored value sits under the tag of its own type.
    pub open spec fn wf(self) -> bool {
        forall|k: u64| #[trigger] self.contents().contains_key(k)
            ==> self.contents()[k].tag_spec() == k
    }

    /// Stores `data` under the tag of its type, replacing any prior value of
    /// that same type. Total: there is no error condition.
    pub fn insert(&mut self, data: V)
        ensures
            final(self).contents() == old(self).contents().insert(data.tag_spec(), data),
            old(self).wf() ==> final(self).wf(),
    {
        let ghost d = data;
        let t = data.tag();
        fnv_table_insert(&mut self.table, t, data);
        proof {
            if old(self).wf() {
                assert forall|k: u64| #[trigger] self.contents().contains_key(k)
                    implies self.contents()[k].tag_spec() == k by {
                    if k != d.tag_spec() {
                        assert(old(self).contents().contains_key(k));
                    }
                }
            }
        }
    }

    /// Looks up the value stored under `tag`; absence is not an error. When
    /// the store is well formed, a value handed out is of the type the tag
    /// stands for.
    pub fn get(&self, tag: u64) -> (r: Option<&V>)
        ensures
            match r {
                Some(v) => self.contents().contains_key(tag) && *v == self.contents()[tag],
                None => !self.contents().contains_key(tag),
            },
            self.wf() && r is Some ==> r->0.tag_spec() == tag,
    {
        let r = fnv_table_get(&self.table, tag);
        proof {
            if self.wf() && r is Some {
                assert(self.contents().contains_key(tag));
            }
        }
        r
    }
}

impl<V: Tagged> Default for HiveMemory<V> {
    /// A store with nothing in it.
    fn default() -> (r: Self)
        ensures
            r.contents() == Map::<u64, V>::empty(),
            r.wf(),
    {
        let table = fnv_table_new();
        proof {
            assert(table@ =~= Map::<u64, V>::empty());
        }
        HiveMemory { table }
    }
}

/// Store overwrite: inserting two values of the same type in sequence leaves
/// only the second retrievable, and a tag never inserted stays absent.
pub proof fn lemma_store_overwrite<V: Tagged>(mem: HiveMemory<V>, first: V, second: V, other: u64)
    requires
        first.tag_spec() == second.tag_spec(),
        !mem.contents().contains_key(other),
        other != second.tag_spec(),
    ensures
        mem.contents().insert(first.tag_spec(), first).insert(second.tag_spec(), second)[second.tag_spec()]
            == second,
        !mem.contents().insert(first.tag_spec(), first).insert(second.tag_spec(), second).contains_key(other),
{
}

} // verus!
