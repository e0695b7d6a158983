//! The variable environment of one render: a mutable mapping from
//! identifier to signed 64-bit value.  Viewed as a `Map<Seq<char>, i64>`;
//! the entry list keeps its keys unique.

use vstd::prelude::*;

use crate::errors::{Fault, RenderError};

verus! {

broadcast use vstd::string::group_string_axioms;

/// The mapping an entry list denotes; a later entry would shadow an earlier
/// one, though the table never keeps two entries for one key.
pub open spec fn map_of(entries: Seq<(String, i64)>) -> Map<Seq<char>, i64>
    decreases entries.len(),
{
    if entries.len() == 0 {
        Map::empty()
    } else {
        map_of(entries.drop_last()).insert(entries.last().0@, entries.last().1)
    }
}

/// No two entries carry the same identifier.
pub open spec fn keys_unique(entries: Seq<(String, i64)>) -> bool {
    forall|i: int, j: int|
        0 <= i < j < entries.len() ==> entries[i].0@ != entries[j].0@
}

proof fn lemma_map_of_entry(entries: Seq<(String, i64)>, i: int)
    requires
        keys_unique(entries),
        0 <= i < entries.len(),
    ensures
        map_of(entries).contains_pair(entries[i].0@, entries[i].1),
    decreases entries.len(),
{
    if i + 1 == entries.len() {
    } else {
        lemma_map_of_entry(entries.drop_last(), i);
    }
}

proof fn lemma_map_of_absent(entries: Seq<(String, i64)>, key: Seq<char>)
    requires
        forall|i: int| 0 <= i < entries.len() ==> entries[i].0@ != key,
    ensures
        !map_of(entries).dom().contains(key),
    decreases entries.len(),
{
    if entries.len() > 0 {
        lemma_map_of_absent(entries.drop_last(), key);
    }
}

proof fn lemma_map_of_update(entries: Seq<(String, i64)>, i: int, key: String, value: i64)
    requires
        keys_unique(entries),
        0 <= i < entries.len(),
        key@ == entries[i].0@,
    ensures
        map_of(entries.update(i, (key, value))) == map_of(entries).insert(key@, value),
    decreases entries.len(),
{
    let updated = entries.update(i, (key, value));
    if i + 1 == entries.len() {
        assert(updated.drop_last() =~= entries.drop_last());
    } else {
        lemma_map_of_update(entries.drop_last(), i, key, value);
        assert(updated.drop_last() =~= entries.drop_last().update(i, (key, value)));
        assert(entries.last().0@ != entries[i].0@);
        assert(map_of(updated)
            == map_of(entries.drop_last()).insert(key@, value).insert(
            entries.last().0@,
            entries.last().1,
        ));
        assert(map_of(entries.drop_last()).insert(key@, value).insert(
            entries.last().0@,
            entries.last().1,
        ) =~= map_of(entries).insert(key@, value));
    }
}

/// The name-to-value environment threaded through one render.
pub struct Vartable {
    vars: Vec<(String, i64)>,
}

impl View for Vartable {
    type V = Map<Seq<char>, i64>;

    closed spec fn view(&self) -> Map<Seq<char>, i64> {
        map_of(self.vars@)
    }
}

impl Vartable {
    #[verifier::type_invariant]
    closed spec fn wf(self) -> bool {
        keys_unique(self.vars@)
    }

    /// An empty environment.
    pub fn new() -> (table: Self)
        ensures
            table@ == Map::<Seq<char>, i64>::empty(),
    {
        Self { vars: Vec::new() }
    }

    /// Binds `id` to `v`, replacing any earlier binding of the same
    /// identifier.
    pub fn set(&mut self, id: String, v: i64)
        ensures
            final(self)@ == old(self)@.insert(id@, v),
    {
        proof {
            use_type_invariant(&*self);
        }
        let mut taken: Vec<(String, i64)> = Vec::new();
        std::mem::swap(&mut taken, &mut self.vars);
        let ghost entries = taken@;
        let ghost idv = id@;
        let mut i: usize = 0;
        while i < taken.len()
            invariant
                keys_unique(entries),
                taken@ == entries,
                old(self)@ == map_of(entries),
                id@ == idv,
                0 <= i <= entries.len(),
                forall|j: int| 0 <= j < i ==> entries[j].0@ != idv,
            decreases entries.len() - i,
        {
            let hit = taken[i].0 == id;
            if hit {
                proof {
                    lemma_map_of_update(entries, i as int, id, v);
                    assert(keys_unique(entries.update(i as int, (id, v)))) by {
                        assert(forall|j: int|
                            0 <= j < entries.len() && j != i ==> entries.update(
                                i as int,
                                (id, v),
                            )[j] == entries[j]);
                    }
                }
                taken[i] = (id, v);
                self.vars = taken;
                return ;
            }
            proof {
                assert(entries[i as int].0@ != idv);
            }
            i += 1;
        }
        taken.push((id, v));
        proof {
            assert(taken@.drop_last() =~= entries);
            assert(keys_unique(taken@));
        }
        self.vars = taken;
    }

    /// Looks the identifier up, or reports it undefined, naming it.
    pub fn get(&self, id: &str) -> (r: Result<i64, RenderError>)
        ensures
            self@.dom().contains(id@) ==> r == Result::<i64, RenderError>::Ok(self@[id@]),
            !self@.dom().contains(id@) ==> (r matches Err(e) && e@ == Fault::Undefined(id@)),
    {
        proof {
            use_type_invariant(&*self);
        }
        let key: String = id.to_string();
        let mut i: usize = 0;
        while i < self.vars.len()
            invariant
                keys_unique(self.vars@),
                key@ == id@,
                0 <= i <= self.vars@.len(),
                forall|j: int| 0 <= j < i ==> self.vars@[j].0@ != id@,
            decreases self.vars@.len() - i,
        {
            if self.vars[i].0 == key {
                proof {
                    lemma_map_of_entry(self.vars@, i as int);
                }
                return Ok(self.vars[i].1);
            }
            i += 1;
        }
        proof {
            lemma_map_of_absent(self.vars@, id@);
        }
        Err(RenderError::UndefinedVariable(key))
    }
}

} // verus!
