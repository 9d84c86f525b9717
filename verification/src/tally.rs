//! Counts by name, as reports hold them.

use vstd::prelude::*;

use crate::text;

verus! {

/// How often one name was counted.
#[derive(Debug)]
pub struct Count {
    pub name: String,
    pub count: usize,
}

/// Counts by name, in the order of the names.
#[derive(Debug)]
pub struct Tally {
    pub counts: Vec<Count>,
}

/// The names of the counts.
pub open spec fn names(counts: Seq<Count>) -> Seq<Seq<char>> {
    counts.map_values(|c: Count| c.name@)
}

/// The sum of the counts.
pub open spec fn sum(counts: Seq<Count>) -> int
    decreases counts.len(),
{
    if counts.len() == 0 {
        0
    } else {
        sum(counts.drop_last()) + counts.last().count
    }
}

proof fn sum_of_an_update(counts: Seq<Count>, at: int, entry: Count)
    requires
        0 <= at < counts.len(),
    ensures
        sum(counts.update(at, entry)) == sum(counts) - counts[at].count + entry.count,
    decreases counts.len(),
{
    let now = counts.update(at, entry);
    if at == counts.len() - 1 {
        assert(now.drop_last() =~= counts.drop_last());
    } else {
        assert(now.drop_last() =~= counts.drop_last().update(at, entry));
        sum_of_an_update(counts.drop_last(), at, entry);
    }
}

proof fn sum_of_an_insertion(counts: Seq<Count>, at: int, entry: Count)
    requires
        0 <= at <= counts.len(),
    ensures
        sum(counts.insert(at, entry)) == sum(counts) + entry.count,
    decreases counts.len(),
{
    let now = counts.insert(at, entry);
    if at == counts.len() {
        assert(now.drop_last() =~= counts);
    } else {
        assert(now.drop_last() =~= counts.drop_last().insert(at, entry));
        sum_of_an_insertion(counts.drop_last(), at, entry);
    }
}

impl Tally {
    /// How often anything was counted.
    pub open spec fn total(self) -> int {
        sum(self.counts@)
    }

    /// The names increase, and every count is positive.
    pub open spec fn wf(self) -> bool {
        text::is_sorted_set(names(self.counts@)) && forall|i: int|
            0 <= i < self.counts@.len() ==> (#[trigger] self.counts@[i]).count > 0
    }

    /// Where the name stands, if it does.
    pub open spec fn place(self, name: Seq<char>) -> int {
        choose|i: int| 0 <= i < self.counts@.len() && (#[trigger] self.counts@[i]).name@ == name
    }

    /// How often the name was counted.
    pub open spec fn of(self, name: Seq<char>) -> usize {
        if exists|i: int| 0 <= i < self.counts@.len() && (#[trigger] self.counts@[i]).name@ == name {
            self.counts@[self.place(name)].count
        } else {
            0
        }
    }

    proof fn of_is_the_entry(self, i: int)
        requires
            self.wf(),
            0 <= i < self.counts@.len(),
        ensures
            self.of(self.counts@[i].name@) == self.counts@[i].count,
    {
        let name = self.counts@[i].name@;
        let k = self.place(name);
        assert(self.counts@[i].name@ == name);
        assert(names(self.counts@)[i] == name);
        assert(names(self.counts@)[k] == name);
        text::less_is_irreflexive(name);
    }

    pub fn new() -> (r: Tally)
        ensures
            r.wf(),
            forall|name: Seq<char>| #[trigger] r.of(name) == 0,
            r.counts@.len() == 0,
            r.total() == 0,
    {
        Tally { counts: Vec::new() }
    }

    /// How often the name was counted.
    pub fn count_of(&self, name: &str) -> (n: usize)
        requires
            self.wf(),
        ensures
            n == self.of(name@),
    {
        let mut i: usize = 0;
        while i < self.counts.len()
            invariant
                i <= self.counts.len(),
                self.wf(),
                forall|k: int| 0 <= k < i ==> (#[trigger] self.counts@[k]).name@ != name@,
            decreases self.counts.len() - i,
        {
            if text::same(self.counts[i].name.as_str(), name) {
                proof {
                    self.of_is_the_entry(i as int);
                }
                return self.counts[i].count;
            }
            i = i + 1;
        }
        0
    }

    /// Counts the name once more.
    pub fn bump(&mut self, name: &str)
        requires
            old(self).wf(),
            old(self).of(name@) < usize::MAX,
        ensures
            final(self).wf(),
            final(self).of(name@) == old(self).of(name@) + 1,
            final(self).total() == old(self).total() + 1,
            forall|other: Seq<char>|
                other != name@ ==> #[trigger] final(self).of(other) == old(self).of(other),
    {
        let ghost before = *self;
        let ghost list = names(self.counts@);
        let mut at: usize = 0;
        while at < self.counts.len() && text::text_less(self.counts[at].name.as_str(), name)
            invariant
                at <= self.counts.len(),
                *self == before,
                before.wf(),
                list == names(before.counts@),
                forall|k: int| 0 <= k < at ==> text::less(#[trigger] list[k], name@),
            decreases self.counts.len() - at,
        {
            assert(list[at as int] == self.counts@[at as int].name@);
            at = at + 1;
        }
        proof {
            text::less_is_irreflexive(name@);
            assert forall|k: int| 0 <= k < at implies (#[trigger] before.counts@[k]).name@ != name@ by {
                assert(list[k] == before.counts@[k].name@);
            }
        }
        if at < self.counts.len() && text::same(self.counts[at].name.as_str(), name) {
            proof {
                before.of_is_the_entry(at as int);
            }
            let entry = Count {
                name: self.counts[at].name.clone(),
                count: self.counts[at].count + 1,
            };
            self.counts.set(at, entry);
            proof {
                sum_of_an_update(before.counts@, at as int, entry);
                assert(names(self.counts@) =~= list);
                assert(self.wf());
                self.of_is_the_entry(at as int);
                assert forall|other: Seq<char>| other != name@ implies #[trigger] self.of(other)
                    == before.of(other) by {
                    self.agrees_elsewhere(before, other);
                }
            }
        } else {
            proof {
                if at < self.counts.len() {
                    assert(list[at as int] == self.counts@[at as int].name@);
                    text::less_is_total(list[at as int], name@);
                }
                assert forall|k: int| at <= k < list.len() implies text::less(
                    name@,
                    #[trigger] list[k],
                ) by {
                    if k > at {
                        text::less_is_transitive(name@, list[at as int], list[k]);
                    }
                }
                assert(before.of(name@) == 0) by {
                    if exists|i: int|
                        0 <= i < before.counts@.len() && (#[trigger] before.counts@[i]).name@
                            == name@ {
                        let i = choose|i: int|
                            0 <= i < before.counts@.len() && (#[trigger] before.counts@[i]).name@
                                == name@;
                        assert(list[i] == name@);
                    }
                }
            }
            self.counts.insert(at, Count { name: name.to_owned(), count: 1 });
            proof {
                sum_of_an_insertion(before.counts@, at as int, self.counts@[at as int]);
                let now = names(self.counts@);
                assert(now =~= list.insert(at as int, name@));
                assert forall|i: int, j: int| 0 <= i < j < now.len() implies text::less(
                    #[trigger] now[i],
                    #[trigger] now[j],
                ) by {
                    let p = if i < at {
                        i
                    } else {
                        i - 1
                    };
                    let q = if j < at {
                        j
                    } else {
                        j - 1
                    };
                    if i == at {
                        assert(now[j] == list[q]);
                    } else if j == at {
                        assert(now[i] == list[p]);
                    } else {
                        assert(now[i] == list[p]);
                        assert(now[j] == list[q]);
                    }
                }
                assert forall|i: int| 0 <= i < self.counts@.len() implies (
                #[trigger] self.counts@[i]).count > 0 by {
                    if i < at {
                        assert(self.counts@[i] == before.counts@[i]);
                    } else if i > at {
                        assert(self.counts@[i] == before.counts@[i - 1]);
                    }
                }
                assert(self.wf());
                self.of_is_the_entry(at as int);
                assert forall|other: Seq<char>| other != name@ implies #[trigger] self.of(other)
                    == before.of(other) by {
                    if exists|i: int|
                        0 <= i < before.counts@.len() && (#[trigger] before.counts@[i]).name@
                            == other {
                        let i = choose|i: int|
                            0 <= i < before.counts@.len() && (#[trigger] before.counts@[i]).name@
                                == other;
                        let k = if i < at {
                            i
                        } else {
                            i + 1
                        };
                        assert(self.counts@[k] == before.counts@[i]);
                        self.of_is_the_entry(k);
                        before.of_is_the_entry(i);
                    } else if exists|k: int|
                        0 <= k < self.counts@.len() && (#[trigger] self.counts@[k]).name@
                            == other {
                        let k = choose|k: int|
                            0 <= k < self.counts@.len() && (#[trigger] self.counts@[k]).name@
                                == other;
                        let i = if k < at {
                            k
                        } else {
                            k - 1
                        };
                        assert(before.counts@[i] == self.counts@[k]);
                    }
                }
            }
        }
    }

    /// Two tallies over the same names agree where their entries do.
    proof fn agrees_elsewhere(self, other: Tally, name: Seq<char>)
        requires
            self.wf(),
            other.wf(),
            self.counts@.len() == other.counts@.len(),
            forall|i: int|
                0 <= i < self.counts@.len() ==> (#[trigger] self.counts@[i]).name@
                    == other.counts@[i].name@,
            forall|i: int|
                0 <= i < self.counts@.len() && (#[trigger] self.counts@[i]).name@ == name
                    ==> self.counts@[i].count == other.counts@[i].count,
        ensures
            self.of(name) == other.of(name),
    {
        if exists|i: int| 0 <= i < self.counts@.len() && (#[trigger] self.counts@[i]).name@ == name {
            let i = choose|i: int|
                0 <= i < self.counts@.len() && (#[trigger] self.counts@[i]).name@ == name;
            self.of_is_the_entry(i);
            other.of_is_the_entry(i);
        } else if exists|i: int|
            0 <= i < other.counts@.len() && (#[trigger] other.counts@[i]).name@ == name {
            let i = choose|i: int|
                0 <= i < other.counts@.len() && (#[trigger] other.counts@[i]).name@ == name;
            assert(self.counts@[i].name@ == name);
        }
    }
}

} // verus!
