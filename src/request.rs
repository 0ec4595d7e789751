//! The query parameters of a request, decoded from its urlencoded query
//! string. A name given twice keeps its last value.
use vstd::prelude::*;

verus! {

/// The name/value pairs that `application/x-www-form-urlencoded` decoding
/// gives for `input`, in order.
pub uninterp spec fn form_pairs_of(input: Seq<char>) -> Seq<(Seq<char>, Seq<char>)>;

/// The pairs of strings, as character sequences.
pub open spec fn pairs_view(ps: Seq<(String, String)>) -> Seq<(Seq<char>, Seq<char>)> {
    ps.map_values(|p: (String, String)| (p.0@, p.1@))
}

/// Relies on `url::form_urlencoded::parse`: the decoded pairs of the input,
/// in order; an empty input has none.
#[verifier::external_body]
fn decode_pairs(input: &str) -> (r: Vec<(String, String)>)
    ensures
        pairs_view(r@) == form_pairs_of(input@),
        input@.len() == 0 ==> r@.len() == 0,
{
    url::form_urlencoded::parse(input.as_bytes()).map(|(k, v)| (k.into_owned(), v.into_owned())).collect()
}

/// The table that the pairs `ps` give, later pairs overriding earlier ones.
pub open spec fn last_wins(ps: Seq<(Seq<char>, Seq<char>)>) -> Map<Seq<char>, Seq<char>>
    decreases ps.len(),
{
    if ps.len() == 0 {
        Map::empty()
    } else {
        last_wins(ps.drop_last()).insert(ps.last().0, ps.last().1)
    }
}

/// Query parameters by name.
pub struct QueryTable {
    entries: Vec<(String, String)>,
}

impl View for QueryTable {
    type V = Map<Seq<char>, Seq<char>>;

    closed spec fn view(&self) -> Map<Seq<char>, Seq<char>> {
        Map::new(
            |k: Seq<char>| exists|i: int| 0 <= i < self.entries@.len() && self.entries@[i].0@ == k,
            |k: Seq<char>|
                self.entries@[choose|i: int| 0 <= i < self.entries@.len() && self.entries@[i].0@ == k].1@,
        )
    }
}

impl QueryTable {
    /// No name is stored twice.
    pub closed spec fn wf(&self) -> bool {
        forall|i: int, j: int|
            0 <= i < j < self.entries@.len() ==> #[trigger] self.entries@[i].0@
                != #[trigger] self.entries@[j].0@
    }

    /// An empty table.
    pub fn new() -> (t: Self)
        ensures
            t.wf(),
            t@ == Map::<Seq<char>, Seq<char>>::empty(),
    {
        let t = QueryTable { entries: Vec::new() };
        assert(t@ =~= Map::<Seq<char>, Seq<char>>::empty());
        t
    }

    /// The number of names.
    pub fn len(&self) -> (n: usize)
        requires
            self.wf(),
        ensures
            n == self@.dom().len(),
    {
        proof {
            self.lemma_dom_len();
        }
        self.entries.len()
    }

    proof fn lemma_dom_len(&self)
        requires
            self.wf(),
        ensures
            self@.dom().len() == self.entries@.len(),
    {
        let keys = self.entries@.map_values(|p: (String, String)| p.0@);
        assert forall|k: Seq<char>| #[trigger] self@.dom().contains(k) implies keys.to_set().contains(
            k,
        ) by {
            let i = choose|i: int| 0 <= i < self.entries@.len() && self.entries@[i].0@ == k;
            assert(keys[i] == k);
        }
        assert forall|k: Seq<char>| #[trigger] keys.to_set().contains(k) implies self@.dom().contains(
            k,
        ) by {
            let i = choose|i: int| 0 <= i < keys.len() && keys[i] == k;
            assert(self.entries@[i].0@ == k);
        }
        assert(self@.dom() =~= keys.to_set());
        assert forall|i: int, j: int| 0 <= i < keys.len() && 0 <= j < keys.len() && i != j implies keys[i]
            != keys[j] by {
            if i < j {
                assert(self.entries@[i].0@ != self.entries@[j].0@);
            } else {
                assert(self.entries@[j].0@ != self.entries@[i].0@);
            }
        }
        assert(keys.no_duplicates());
        keys.unique_seq_to_set();
    }

    /// The value stored under `name`.
    pub fn get(&self, name: &str) -> (r: Option<String>)
        requires
            self.wf(),
        ensures
            match r {
                Some(v) => self@.contains_key(name@) && v@ == self@[name@],
                None => !self@.contains_key(name@),
            },
    {
        let key = name.to_owned();
        let mut i: usize = 0;
        while i < self.entries.len()
            invariant
                self.wf(),
                key@ == name@,
                i <= self.entries@.len(),
                forall|k: int| 0 <= k < i ==> self.entries@[k].0@ != name@,
            decreases self.entries@.len() - i,
        {
            if self.entries[i].0 == key {
                proof {
                    let idx = choose|j: int| 0 <= j < self.entries@.len() && self.entries@[j].0@ == name@;
                    if idx != i {
                        if idx < i {
                            assert(self.entries@[idx].0@ != self.entries@[i as int].0@);
                        } else {
                            assert(self.entries@[i as int].0@ != self.entries@[idx].0@);
                        }
                    }
                }
                return Some(self.entries[i].1.clone());
            }
            i = i + 1;
        }
        None
    }

    /// Stores `value` under `name`, replacing what was there.
    pub fn insert(&mut self, name: String, value: String)
        requires
            old(self).wf(),
        ensures
            final(self).wf(),
            final(self)@ == old(self)@.insert(name@, value@),
    {
        let mut i: usize = 0;
        while i < self.entries.len()
            invariant
                self.wf(),
                self.entries@ == old(self).entries@,
                i <= self.entries@.len(),
                forall|k: int| 0 <= k < i ==> self.entries@[k].0@ != name@,
            decreases self.entries@.len() - i,
        {
            if self.entries[i].0 == name {
                let ghost before = self.entries@;
                self.entries.set(i, (name, value));
                proof {
                    assert forall|a: int, b: int|
                        0 <= a < b < self.entries@.len() implies #[trigger] self.entries@[a].0@
                        != #[trigger] self.entries@[b].0@ by {
                        assert(before[a].0@ != before[b].0@);
                    }
                    assert(self@ =~= old(self)@.insert(name@, value@)) by {
                        assert forall|k: Seq<char>| #[trigger] self@.contains_key(k) implies old(self)@.insert(name@, value@).contains_key(k) && self@[k] == old(self)@.insert(name@, value@)[k] by {
                            let j = choose|j: int| 0 <= j < self.entries@.len() && self.entries@[j].0@ == k;
                            if j != i {
                                assert(old(self).entries@[j].0@ == k);
                                let oj = choose|x: int| 0 <= x < old(self).entries@.len() && old(self).entries@[x].0@ == k;
                                if oj != j {
                                    if oj < j {
                                        assert(before[oj].0@ != before[j].0@);
                                    } else {
                                        assert(before[j].0@ != before[oj].0@);
                                    }
                                }
                            } else {
                                let jj = choose|x: int| 0 <= x < self.entries@.len() && self.entries@[x].0@ == k;
                                if jj != j {
                                    if jj < j {
                                        assert(self.entries@[jj].0@ != self.entries@[j].0@);
                                    } else {
                                        assert(self.entries@[j].0@ != self.entries@[jj].0@);
                                    }
                                }
                            }
                        }
                        assert forall|k: Seq<char>| #[trigger] old(self)@.insert(name@, value@).contains_key(k) implies self@.contains_key(k) by {
                            if k != name@ {
                                let x = choose|x: int| 0 <= x < old(self).entries@.len() && old(self).entries@[x].0@ == k;
                                assert(self.entries@[x].0@ == k);
                            } else {
                                assert(self.entries@[i as int].0@ == k);
                            }
                        }
                    }
                }
                return;
            }
            i = i + 1;
        }
        let ghost before = self.entries@;
        self.entries.push((name, value));
        proof {
            let n = before.len() as int;
            assert forall|a: int, b: int|
                0 <= a < b < self.entries@.len() implies #[trigger] self.entries@[a].0@
                != #[trigger] self.entries@[b].0@ by {
                if b < n {
                    assert(before[a].0@ != before[b].0@);
                }
            }
            assert(self@ =~= old(self)@.insert(name@, value@)) by {
                assert forall|k: Seq<char>| #[trigger] self@.contains_key(k) implies old(self)@.insert(name@, value@).contains_key(k) && self@[k] == old(self)@.insert(name@, value@)[k] by {
                    let j = choose|j: int| 0 <= j < self.entries@.len() && self.entries@[j].0@ == k;
                    if j < n {
                        assert(old(self).entries@[j].0@ == k);
                        let oj = choose|x: int| 0 <= x < n && old(self).entries@[x].0@ == k;
                        if oj != j {
                            if oj < j {
                                assert(before[oj].0@ != before[j].0@);
                            } else {
                                assert(before[j].0@ != before[oj].0@);
                            }
                        }
                    } else {
                        assert(k == name@);
                    }
                }
                assert forall|k: Seq<char>| #[trigger] old(self)@.insert(name@, value@).contains_key(k) implies self@.contains_key(k) by {
                    if k != name@ {
                        let x = choose|x: int| 0 <= x < n && old(self).entries@[x].0@ == k;
                        assert(self.entries@[x].0@ == k);
                    } else {
                        assert(self.entries@[n].0@ == k);
                    }
                }
            }
        }
    }

    /// The names and values, each name once.
    pub fn entries(&self) -> (r: &Vec<(String, String)>)
        requires
            self.wf(),
        ensures
            forall|k: Seq<char>| #[trigger] self@.contains_key(k) <==> exists|i: int| 0 <= i < r@.len() && r@[i].0@ == k,
            forall|i: int| 0 <= i < r@.len() ==> self@[#[trigger] r@[i].0@] == r@[i].1@,
    {
        proof {
            assert forall|i: int| 0 <= i < self.entries@.len() implies self@[#[trigger] self.entries@[i].0@] == self.entries@[i].1@ by {
                let k = self.entries@[i].0@;
                let j = choose|j: int| 0 <= j < self.entries@.len() && self.entries@[j].0@ == k;
                if j != i {
                    if j < i {
                        assert(self.entries@[j].0@ != self.entries@[i].0@);
                    } else {
                        assert(self.entries@[i].0@ != self.entries@[j].0@);
                    }
                }
            }
        }
        &self.entries
    }
}

/// Decodes a request's query string into its parameters; an empty query
/// has none.
pub fn parse_query(query: &str) -> (t: QueryTable)
    ensures
        t.wf(),
        t@ == last_wins(form_pairs_of(query@)),
        query@.len() == 0 ==> t@ == Map::<Seq<char>, Seq<char>>::empty(),
{
    let pairs = decode_pairs(query);
    let mut t = QueryTable::new();
    let mut i: usize = 0;
    while i < pairs.len()
        invariant
            t.wf(),
            i <= pairs@.len(),
            pairs_view(pairs@) == form_pairs_of(query@),
            t@ == last_wins(pairs_view(pairs@).subrange(0, i as int)),
        decreases pairs@.len() - i,
    {
        let k = pairs[i].0.clone();
        let v = pairs[i].1.clone();
        proof {
            let pv = pairs_view(pairs@);
            assert(pv.subrange(0, i + 1).drop_last() =~= pv.subrange(0, i as int));
            assert(pv[i as int] == (pairs@[i as int].0@, pairs@[i as int].1@));
        }
        t.insert(k, v);
        i = i + 1;
    }
    proof {
        assert(pairs_view(pairs@).subrange(0, pairs@.len() as int) =~= pairs_view(pairs@));
    }
    t
}

} // verus!
