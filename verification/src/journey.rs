use vstd::prelude::*;
use crate::context::{HiveMemory, Tagged};

verus! {

/// The per-workflow record of completed steps and their compensations: a
/// private store of rollback payloads, the ordered markers of the job types
/// that completed, and a caller-set transactional-intent flag.
pub struct HiveJourney<V: Tagged> {
    pub mem: HiveMemory<V>,
    pub completed: Vec<u64>,
    pub transactional: bool,
}

impl<V: Tagged> HiveJourney<V> {
    /// Well-formed: the private store is, and every completed marker has a
    /// rollback payload stored under it.
    pub open spec fn wf(self) -> bool {
        &&& self.mem.wf()
        &&& forall|i: int| 0 <= i < self.completed@.len()
                ==> self.mem.contents().contains_key(#[trigger] self.completed@[i])
    }

    /// The same journey with the transactional flag raised.
    pub open spec fn marked(self) -> Self {
        HiveJourney { transactional: true, ..self }
    }

    /// The undo order: completion order reversed, most recent step first.
    pub open spec fn rollback_order(self) -> Seq<u64> {
        self.completed@.reverse()
    }

    /// A journey that has completed nothing, around the given rollback store.
    pub fn new(mem: HiveMemory<V>) -> (r: Self)
        ensures
            r.mem == mem,
            r.completed@ == Seq::<u64>::empty(),
            !r.transactional,
            mem.wf() ==> r.wf(),
    {
        HiveJourney { mem, completed: Vec::new(), transactional: false }
    }

    /// Records that the step undone by `job` has completed: appends the tag
    /// of `job`'s type to the completed sequence and stores `job` as that
    /// type's rollback payload, replacing any prior payload of the same type.
    ///
    /// Only one pending payload per type: a workflow that reuses one rollback
    /// type for two distinct steps keeps both markers in the completed
    /// sequence but only the latest payload, so each step should use a
    /// rollback type of its own.
    pub fn add_rollback(&mut self, job: V)
        ensures
            final(self).completed@ == old(self).completed@.push(job.tag_spec()),
            final(self).mem.contents()
                == old(self).mem.contents().insert(job.tag_spec(), job),
            final(self).transactional == old(self).transactional,
            old(self).wf() ==> final(self).wf(),
    {
        let t = job.tag();
        self.completed.push(t);
        self.mem.insert(job);
        proof {
            if old(self).wf() {
                assert forall|i: int| 0 <= i < self.completed@.len()
                    implies self.mem.contents().contains_key(#[trigger] self.completed@[i]) by {
                    if i < old(self).completed@.len() {
                        assert(old(self).mem.contents().contains_key(old(self).completed@[i]));
                    }
                }
            }
        }
    }

    /// The rollback payload registered for the type `tag` stands for, or
    /// absent if none was registered. In a well-formed journey every
    /// completed marker is owed a payload, so lookup of such a marker
    /// cannot come back absent.
    pub fn get_rollback_job(&self, tag: u64) -> (r: Option<&V>)
        ensures
            match r {
                Some(v) => self.mem.contents().contains_key(tag)
                    && *v == self.mem.contents()[tag],
                None => !self.mem.contents().contains_key(tag),
            },
            self.wf() && self.completed@.contains(tag) ==> r is Some,
    {
        proof {
            if self.wf() && self.completed@.contains(tag) {
                let i = choose|i: int| 0 <= i < self.completed@.len() && self.completed@[i] == tag;
                assert(self.mem.contents().contains_key(self.completed@[i]));
            }
        }
        self.mem.get(tag)
    }

    /// Raises the transactional flag; everything else stays as it was, so a
    /// second call changes nothing.
    pub fn transactional(&mut self)
        ensures
            *final(self) == (*old(self)).marked(),
    {
        self.transactional = true;
    }

    /// The completed-type sequence in reverse (LIFO) order: the last step
    /// completed must be undone first. A pure read: the journey itself is
    /// untouched, and each call builds a fresh copy.
    pub fn rollback_sequence(&self) -> (r: Vec<u64>)
        ensures
            r@ == self.rollback_order(),
    {
        let mut out: Vec<u64> = Vec::new();
        let mut i: usize = self.completed.len();
        while i > 0
            invariant
                i <= self.completed.len(),
                out@.len() == self.completed@.len() - i,
                forall|k: int| 0 <= k < out@.len()
                    ==> out@[k] == self.completed@[self.completed@.len() - 1 - k],
            decreases i,
        {
            i = i - 1;
            out.push(self.completed[i]);
        }
        proof {
            assert(out@ =~= self.completed@.reverse());
        }
        out
    }
}

impl<V: Tagged> Default for HiveJourney<V> {
    /// A journey that has completed nothing, around an empty rollback store.
    fn default() -> (r: Self)
        ensures
            r.mem.contents() == Map::<u64, V>::empty(),
            r.completed@ == Seq::<u64>::empty(),
            !r.transactional,
            r.wf(),
    {
        HiveJourney::new(HiveMemory::default())
    }
}

/// LIFO rollback order: a journey whose steps completed in the order
/// `a`, `b`, `c` instructs its caller to undo `c`, then `b`, then `a`.
pub proof fn lemma_lifo_rollback_order<V: Tagged>(j: HiveJourney<V>, a: u64, b: u64, c: u64)
    requires
        j.completed@ == Seq::<u64>::empty().push(a).push(b).push(c),
    ensures
        j.rollback_order() == seq![c, b, a],
{
    assert(j.rollback_order() =~= seq![c, b, a]);
}

/// Rollback payload retrieval: registering a rollback payload stores it
/// under the tag of its own type, where lookup finds exactly that payload.
pub proof fn lemma_rollback_payload_retrieval<V: Tagged>(j: HiveJourney<V>, job: V)
    ensures
        j.mem.contents().insert(job.tag_spec(), job)[job.tag_spec()] == job,
        j.mem.contents().insert(job.tag_spec(), job).contains_key(job.tag_spec()),
{
}

/// Idempotent transactional flag: marking a journey transactional a second
/// time changes nothing, and marking never alters the completed sequence or
/// the rollback store.
pub proof fn lemma_transactional_idempotent<V: Tagged>(j: HiveJourney<V>)
    ensures
        j.marked().marked() == j.marked(),
        j.marked().completed == j.completed,
        j.marked().mem == j.mem,
{
}

} // verus!
