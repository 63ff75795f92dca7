//! Outcomes keyed by rule description, and their summary statistics.
use vstd::prelude::*;
use crate::outcome::RuleOutcome;

verus! {

/// Whether no two entries share a description.
pub open spec fn keys_distinct(entries: Seq<(Seq<char>, RuleOutcome)>) -> bool {
    forall|i: int, j: int|
        0 <= i < entries.len() && 0 <= j < entries.len() && i != j ==> #[trigger] entries[i].0
            != #[trigger] entries[j].0
}

/// Whether some entry has the description `key`.
pub open spec fn has_key(entries: Seq<(Seq<char>, RuleOutcome)>, key: Seq<char>) -> bool {
    exists|i: int| 0 <= i < entries.len() && #[trigger] entries[i].0 == key
}

/// The position of an entry with the description `key`, where there is one.
pub open spec fn key_index(entries: Seq<(Seq<char>, RuleOutcome)>, key: Seq<char>) -> int {
    choose|i: int| 0 <= i < entries.len() && #[trigger] entries[i].0 == key
}

/// The entries after recording `outcome` under `key`: an entry with that key
/// has its outcome replaced in place; otherwise a new entry is appended.
pub open spec fn entries_insert(
    entries: Seq<(Seq<char>, RuleOutcome)>,
    key: Seq<char>,
    outcome: RuleOutcome,
) -> Seq<(Seq<char>, RuleOutcome)> {
    if has_key(entries, key) {
        entries.update(key_index(entries, key), (key, outcome))
    } else {
        entries.push((key, outcome))
    }
}

/// The outcome recorded under `key`, if any.
pub open spec fn entries_lookup(entries: Seq<(Seq<char>, RuleOutcome)>, key: Seq<char>) -> Option<
    RuleOutcome,
> {
    if has_key(entries, key) {
        Some(entries[key_index(entries, key)].1)
    } else {
        None
    }
}

/// Inserting keeps the descriptions distinct.
pub proof fn lemma_insert_keeps_keys_distinct(
    entries: Seq<(Seq<char>, RuleOutcome)>,
    key: Seq<char>,
    outcome: RuleOutcome,
)
    requires
        keys_distinct(entries),
    ensures
        keys_distinct(entries_insert(entries, key, outcome)),
        has_key(entries_insert(entries, key, outcome), key),
{
    let r = entries_insert(entries, key, outcome);
    if has_key(entries, key) {
        let c = key_index(entries, key);
        assert(r[c].0 == key);
    } else {
        assert(r[entries.len() as int].0 == key);
    }
}

/// The outcome of each evaluated rule, keyed by the rule's description.
/// No two entries share a description.
pub struct OutcomesByDescription {
    entries: Vec<(String, RuleOutcome)>,
}

impl View for OutcomesByDescription {
    type V = Seq<(Seq<char>, RuleOutcome)>;

    closed spec fn view(&self) -> Seq<(Seq<char>, RuleOutcome)> {
        self.entries@.map_values(|e: (String, RuleOutcome)| (e.0@, e.1))
    }
}

impl OutcomesByDescription {
    #[verifier::type_invariant]
    spec fn descriptions_unique(&self) -> bool {
        keys_distinct(self@)
    }

    /// An empty collection.
    pub fn new() -> (r: OutcomesByDescription)
        ensures
            r@ == Seq::<(Seq<char>, RuleOutcome)>::empty(),
    {
        let r = OutcomesByDescription { entries: Vec::new() };
        assert(r@ =~= Seq::<(Seq<char>, RuleOutcome)>::empty());
        r
    }

    /// The number of descriptions recorded.
    pub fn len(&self) -> (r: usize)
        ensures
            r == self@.len(),
    {
        self.entries.len()
    }

    /// Whether nothing is recorded.
    pub fn is_empty(&self) -> (r: bool)
        ensures
            r == (self@.len() == 0),
    {
        self.entries.len() == 0
    }

    /// Records `outcome` under `description`, replacing an outcome recorded
    /// earlier under the same description.
    pub fn insert(&mut self, description: String, outcome: RuleOutcome)
        ensures
            final(self)@ == entries_insert(old(self)@, description@, outcome),
    {
        proof {
            use_type_invariant(&*self);
            lemma_insert_keeps_keys_distinct(self@, description@, outcome);
        }
        let ghost before = self@;
        let ghost d = description@;
        let mut entries: Vec<(String, RuleOutcome)> = Vec::new();
        std::mem::swap(&mut self.entries, &mut entries);
        let mut i: usize = 0;
        let mut found = false;
        while i < entries.len() && !found
            invariant
                entries@.map_values(|e: (String, RuleOutcome)| (e.0@, e.1)) == before,
                keys_distinct(before),
                d == description@,
                0 <= i <= before.len(),
                forall|j: int| 0 <= j < i ==> #[trigger] before[j].0 != d,
                found ==> i < before.len() && before[i as int].0 == d,
            decreases before.len() - i + (if found { 0int } else { 1int }),
        {
            if entries[i].0 == description {
                found = true;
            } else {
                i += 1;
            }
        }
        let ghost after = entries_insert(before, d, outcome);
        if found {
            assert(has_key(before, d));
            assert(key_index(before, d) == i);
            entries.set(i, (description, outcome));
            assert(entries@.map_values(|e: (String, RuleOutcome)| (e.0@, e.1)) =~= after);
        } else {
            entries.push((description, outcome));
            assert(entries@.map_values(|e: (String, RuleOutcome)| (e.0@, e.1)) =~= after);
        }
        std::mem::swap(&mut self.entries, &mut entries);
    }

    /// The outcome recorded under `description`, if any.
    pub fn get(&self, description: &str) -> (r: Option<RuleOutcome>)
        ensures
            r == entries_lookup(self@, description@),
    {
        proof {
            use_type_invariant(self);
        }
        let mut i: usize = 0;
        while i < self.entries.len()
            invariant
                keys_distinct(self@),
                0 <= i <= self@.len(),
                forall|j: int| 0 <= j < i ==> #[trigger] self@[j].0 != description@,
            decreases self@.len() - i,
        {
            if self.entries[i].0.as_str().to_owned() == description.to_owned() {
                assert(self@[i as int].0 == description@);
                let ghost c = key_index(self@, description@);
                assert(c == i);
                return Some(self.entries[i].1);
            }
            i += 1;
        }
        None
    }

    /// The recorded entries, as (description, outcome) pairs. No two share a
    /// description.
    pub fn entries(&self) -> (r: &Vec<(String, RuleOutcome)>)
        ensures
            r@.map_values(|e: (String, RuleOutcome)| (e.0@, e.1)) == self@,
            keys_distinct(self@),
    {
        proof {
            use_type_invariant(self);
        }
        &self.entries
    }
}

} // verus!
