//! The record of received activities, which lets each remote activity be
//! processed at most once.

use vstd::prelude::*;

verus! {

/// What recording an activity identifier found.
#[derive(Clone, Copy, Debug, PartialEq, Eq, Structural)]
pub enum RecordOutcome {
    /// The identifier was new and is now recorded: process the activity.
    Inserted,
    /// The identifier was recorded before: discard the activity quietly.
    AlreadySeen,
}

/// The outcome of recording `id` where the identifiers in `seen` are recorded.
pub open spec fn record_outcome(seen: Set<Seq<char>>, id: Seq<char>) -> RecordOutcome {
    if seen.contains(id) {
        RecordOutcome::AlreadySeen
    } else {
        RecordOutcome::Inserted
    }
}

/// The outcomes of recording the identifiers of `ids` one after another.
pub open spec fn record_outcomes(seen: Set<Seq<char>>, ids: Seq<Seq<char>>) -> Seq<RecordOutcome>
    decreases ids.len(),
{
    if ids.len() == 0 {
        Seq::empty()
    } else {
        seq![record_outcome(seen, ids[0])] + record_outcomes(seen.insert(ids[0]), ids.drop_first())
    }
}

/// The identifiers of received activities, each held once. Records are only
/// ever added.
#[derive(Debug)]
pub struct ReceivedActivities {
    ids: Vec<String>,
}

impl View for ReceivedActivities {
    type V = Set<Seq<char>>;

    closed spec fn view(&self) -> Set<Seq<char>> {
        Set::new(|d: Seq<char>| exists|i: int| 0 <= i < self.ids@.len() && self.ids@[i]@ == d)
    }
}

impl ReceivedActivities {
    /// No identifier is held twice.
    pub closed spec fn wf(&self) -> bool {
        forall|i: int, j: int| 0 <= i < j < self.ids@.len() ==> self.ids@[i]@ != self.ids@[j]@
    }

    /// The number of identifiers held.
    pub closed spec fn count(&self) -> nat {
        self.ids@.len()
    }

    /// An empty record.
    pub fn new() -> (r: Self)
        ensures
            r.wf(),
            r@ == Set::<Seq<char>>::empty(),
            r.count() == 0,
    {
        let r = ReceivedActivities { ids: Vec::new() };
        assert(r@ =~= Set::<Seq<char>>::empty());
        r
    }

    /// Whether `activity_id` is recorded.
    pub fn contains(&self, activity_id: &str) -> (r: bool)
        ensures
            r == self@.contains(activity_id@),
    {
        let id = String::from_str(activity_id);
        let mut i: usize = 0;
        while i < self.ids.len()
            invariant
                i <= self.ids@.len(),
                id@ == activity_id@,
                forall|j: int| 0 <= j < i ==> self.ids@[j]@ != id@,
            decreases self.ids@.len() - i,
        {
            if self.ids[i] == id {
                return true;
            }
            i = i + 1;
        }
        false
    }

    /// The number of identifiers held.
    pub fn len(&self) -> (r: usize)
        requires
            self.wf(),
        ensures
            r == self.count(),
            r as int == self@.len(),
    {
        proof {
            self.lemma_len();
        }
        self.ids.len()
    }

    proof fn lemma_len(&self)
        requires
            self.wf(),
        ensures
            self@.finite(),
            self@.len() == self.count(),
    {
        let ids = self.ids@;
        let ghost f = |s: String| s@;
        let m = ids.map_values(f);
        assert forall|d: Seq<char>| self@.contains(d) implies m.to_set().contains(d) by {
            let i = choose|i: int| 0 <= i < ids.len() && ids[i]@ == d;
            assert(m[i] == d);
        }
        assert forall|d: Seq<char>| m.to_set().contains(d) implies self@.contains(d) by {
            let i = choose|i: int| 0 <= i < m.len() && m[i] == d;
            assert(ids[i]@ == d);
        }
        assert(self@ =~= m.to_set());
        assert(m.no_duplicates());
        ids.map_values(f).unique_seq_to_set();
    }

    /// Records `activity_id` unless it is recorded already, in one step, and
    /// says which of the two happened.
    pub fn record_if_new(&mut self, activity_id: &str) -> (r: RecordOutcome)
        requires
            old(self).wf(),
        ensures
            final(self).wf(),
            r == record_outcome(old(self)@, activity_id@),
            final(self)@ == old(self)@.insert(activity_id@),
            r == RecordOutcome::Inserted ==> final(self).count() == old(self).count() + 1,
            r == RecordOutcome::AlreadySeen ==> final(self).count() == old(self).count(),
    {
        if self.contains(activity_id) {
            assert(old(self)@.insert(activity_id@) =~= old(self)@);
            RecordOutcome::AlreadySeen
        } else {
            let ghost before = self.ids@;
            self.ids.push(String::from_str(activity_id));
            assert(self.ids@[before.len() as int]@ == activity_id@);
            assert(self@ =~= old(self)@.insert(activity_id@)) by {
                assert forall|d: Seq<char>| self@.contains(d) implies old(self)@.insert(activity_id@).contains(d) by {
                    let i = choose|i: int| 0 <= i < self.ids@.len() && self.ids@[i]@ == d;
                    if i < before.len() {
                        assert(before[i]@ == d);
                    }
                }
                assert forall|d: Seq<char>| old(self)@.insert(activity_id@).contains(d) implies self@.contains(d) by {
                    if d != activity_id@ {
                        let i = choose|i: int| 0 <= i < before.len() && before[i]@ == d;
                        assert(self.ids@[i]@ == d);
                    }
                }
            }
            RecordOutcome::Inserted
        }
    }
}

/// Recording one identifier several times in a row, starting where it is not
/// recorded, inserts it the first time and finds it already seen every later
/// time: never two insertions.
pub proof fn lemma_record_at_most_once(seen: Set<Seq<char>>, id: Seq<char>, ids: Seq<Seq<char>>)
    requires
        ids.len() > 0,
        forall|i: int| 0 <= i < ids.len() ==> #[trigger] ids[i] == id,
        !seen.contains(id),
    ensures
        record_outcomes(seen, ids)[0] == RecordOutcome::Inserted,
        forall|i: int| 1 <= i < ids.len() ==> #[trigger] record_outcomes(seen, ids)[i] == RecordOutcome::AlreadySeen,
{
    lemma_record_seen(seen.insert(id), id, ids.drop_first());
}

/// Recording an identifier that is held again and again finds it every time.
proof fn lemma_record_seen(seen: Set<Seq<char>>, id: Seq<char>, ids: Seq<Seq<char>>)
    requires
        forall|i: int| 0 <= i < ids.len() ==> #[trigger] ids[i] == id,
        seen.contains(id),
    ensures
        record_outcomes(seen, ids).len() == ids.len(),
        forall|i: int| 0 <= i < ids.len() ==> #[trigger] record_outcomes(seen, ids)[i] == RecordOutcome::AlreadySeen,
    decreases ids.len(),
{
    if ids.len() > 0 {
        let rest = ids.drop_first();
        assert(forall|i: int| 0 <= i < rest.len() ==> #[trigger] rest[i] == ids[i + 1]);
        lemma_record_seen(seen.insert(ids[0]), id, rest);
    }
}

/// Recording the same identifier twice gives `Inserted` at most once, and
/// the second call always finds it.
pub proof fn lemma_record_twice(seen: Set<Seq<char>>, id: Seq<char>)
    ensures
        record_outcome(seen.insert(id), id) == RecordOutcome::AlreadySeen,
        !seen.contains(id) ==> record_outcome(seen, id) == RecordOutcome::Inserted,
{
}

} // verus!
