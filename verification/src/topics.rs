//! The table of the topics a client knows: each topic's name and the hash that gossipsub
//! routes it by.
use vstd::prelude::*;

verus! {

/// The map that a sequence of (name, hash) entries with distinct names stands for.
pub open spec fn entries_map(names: Seq<Seq<char>>, hashes: Seq<Seq<char>>) -> Map<
    Seq<char>,
    Seq<char>,
>
    decreases names.len(),
{
    if names.len() == 0 || hashes.len() == 0 {
        Map::empty()
    } else {
        entries_map(names.drop_last(), hashes.drop_last()).insert(names.last(), hashes.last())
    }
}

/// A map from topic names to topic hashes.
pub struct TopicTable {
    names: Vec<String>,
    hashes: Vec<String>,
}

proof fn lemma_entries_map(names: Seq<Seq<char>>, hashes: Seq<Seq<char>>)
    requires
        names.len() == hashes.len(),
        names.no_duplicates(),
    ensures
        forall|i: int|
            0 <= i < names.len() ==> #[trigger] entries_map(names, hashes).dom().contains(names[i])
                && entries_map(names, hashes)[names[i]] == hashes[i],
        forall|k: Seq<char>| #[trigger]
            entries_map(names, hashes).dom().contains(k) ==> names.contains(k),
    decreases names.len(),
{
    if names.len() > 0 {
        let n = names.len() - 1;
        assert(names.drop_last().no_duplicates()) by {
            assert forall|i: int, j: int|
                0 <= i < names.drop_last().len() && 0 <= j < names.drop_last().len() && i != j
                implies names.drop_last()[i] != names.drop_last()[j] by {
                assert(names.drop_last()[i] == names[i]);
                assert(names.drop_last()[j] == names[j]);
            }
        }
        lemma_entries_map(names.drop_last(), hashes.drop_last());
        let sub = entries_map(names.drop_last(), hashes.drop_last());
        assert(entries_map(names, hashes) == sub.insert(names[n], hashes[n]));
        assert forall|i: int| 0 <= i < names.len() implies #[trigger] entries_map(
            names,
            hashes,
        ).dom().contains(names[i]) && entries_map(names, hashes)[names[i]] == hashes[i] by {
            if i < n {
                assert(names.drop_last()[i] == names[i]);
                assert(hashes.drop_last()[i] == hashes[i]);
                assert(sub.dom().contains(names.drop_last()[i]));
                assert(names[i] != names[n]);
            }
        }
        assert forall|k: Seq<char>| #[trigger]
            entries_map(names, hashes).dom().contains(k) implies names.contains(k) by {
            if k != names[n] {
                assert(sub.dom().contains(k));
                assert(names.drop_last().contains(k));
                let j = choose|j: int| 0 <= j < names.drop_last().len() && names.drop_last()[j] == k;
                assert(names[j] == k);
            } else {
                assert(names[n] == k);
            }
        }
    }
}

fn find_name(names: &Vec<String>, name: &String) -> (r: Option<usize>)
    ensures
        match r {
            Some(i) => i < names.len() && names.deep_view()[i as int] == name@,
            None => !names.deep_view().contains(name@),
        },
{
    let n = names.len();
    let mut i: usize = 0;
    while i < n
        invariant
            n == names.len(),
            i <= n,
            forall|j: int| 0 <= j < i ==> names.deep_view()[j] != name@,
        decreases n - i,
    {
        if names[i] == *name {
            return Some(i);
        }
        i = i + 1;
    }
    None
}

impl View for TopicTable {
    type V = Map<Seq<char>, Seq<char>>;

    closed spec fn view(&self) -> Map<Seq<char>, Seq<char>> {
        entries_map(self.names.deep_view(), self.hashes.deep_view())
    }
}

impl TopicTable {
    #[verifier::type_invariant]
    spec fn well_formed(self) -> bool {
        &&& self.names.len() == self.hashes.len()
        &&& self.names.deep_view().no_duplicates()
    }

    /// The empty table.
    pub fn new() -> (t: TopicTable)
        ensures
            t@ == Map::<Seq<char>, Seq<char>>::empty(),
    {
        let t = TopicTable { names: Vec::new(), hashes: Vec::new() };
        proof {
            assert(t.names.deep_view().len() == 0);
        }
        t
    }

    /// The hash recorded for the topic `name`, if any.
    pub fn get(&self, name: &String) -> (r: Option<String>)
        ensures
            match r {
                Some(h) => self@.dom().contains(name@) && self@[name@] == h@,
                None => !self@.dom().contains(name@),
            },
    {
        proof {
            use_type_invariant(self);
            lemma_entries_map(self.names.deep_view(), self.hashes.deep_view());
        }
        match find_name(&self.names, name) {
            Some(i) => {
                let h = self.hashes[i].clone();
                assert(self.hashes.deep_view()[i as int] == self.hashes@[i as int]@);
                assert(self@.dom().contains(self.names.deep_view()[i as int]));
                Some(h)
            },
            None => None,
        }
    }

    /// Records `hash` for the topic `name`, replacing what was recorded for it.
    pub fn insert(&mut self, name: String, hash: String)
        ensures
            final(self)@ == old(self)@.insert(name@, hash@),
    {
        proof {
            use_type_invariant(&*self);
            lemma_entries_map(self.names.deep_view(), self.hashes.deep_view());
        }
        let ghost old_map = self@;
        let ghost old_names = self.names.deep_view();
        let ghost old_hashes = self.hashes.deep_view();
        let mut taken = TopicTable::new();
        std::mem::swap(&mut taken, self);
        let TopicTable { mut names, mut hashes } = taken;
        let found = find_name(&names, &name);
        match found {
            Some(i) => {
                hashes.set(i, hash);
                proof {
                    assert(names.deep_view() == old_names);
                    assert(hashes.deep_view() =~= old_hashes.update(i as int, hash@));
                }
            },
            None => {
                names.push(name);
                hashes.push(hash);
                proof {
                    assert(names.deep_view() =~= old_names.push(name@));
                    assert(hashes.deep_view() =~= old_hashes.push(hash@));
                    assert(names.deep_view().drop_last() =~= old_names);
                    assert(hashes.deep_view().drop_last() =~= old_hashes);
                }
            },
        }
        proof {
            let nn = names.deep_view();
            let hh = hashes.deep_view();
            assert(nn.no_duplicates()) by {
                if found is None {
                    assert forall|a: int, b: int| 0 <= a < nn.len() && 0 <= b < nn.len() && a != b
                        implies nn[a] != nn[b] by {
                        if a < old_names.len() && b < old_names.len() {
                            assert(nn[a] == old_names[a]);
                            assert(nn[b] == old_names[b]);
                        } else if a < old_names.len() {
                            assert(nn[a] == old_names[a]);
                        } else {
                            assert(nn[b] == old_names[b]);
                        }
                    }
                }
            }
            lemma_entries_map(nn, hh);
            assert(entries_map(nn, hh) =~= old_map.insert(name@, hash@)) by {
                assert forall|k: Seq<char>| #[trigger]
                    entries_map(nn, hh).dom().contains(k) <==> old_map.insert(
                        name@,
                        hash@,
                    ).dom().contains(k) by {
                    if entries_map(nn, hh).dom().contains(k) {
                        let j = choose|j: int| 0 <= j < nn.len() && nn[j] == k;
                        if j < old_names.len() {
                            assert(old_names[j] == k);
                        }
                    }
                    if old_map.dom().contains(k) {
                        let j = choose|j: int| 0 <= j < old_names.len() && old_names[j] == k;
                        assert(nn[j] == k);
                    }
                    if k == name@ {
                        match found {
                            Some(i) => {
                                assert(nn[i as int] == k);
                            },
                            None => {
                                assert(nn[old_names.len() as int] == k);
                            },
                        }
                    }
                }
                assert forall|k: Seq<char>| #[trigger]
                    entries_map(nn, hh).dom().contains(k) implies entries_map(nn, hh)[k]
                    == old_map.insert(name@, hash@)[k] by {
                    let j = choose|j: int| 0 <= j < nn.len() && nn[j] == k;
                    if j < old_names.len() {
                        assert(old_names[j] == k);
                    }
                }
            }
        }
        *self = TopicTable { names, hashes };
    }
}

impl Clone for TopicTable {
    fn clone(&self) -> (t: Self)
        ensures
            t@ == self@,
    {
        proof {
            use_type_invariant(self);
        }
        TopicTable { names: self.names.clone(), hashes: self.hashes.clone() }
    }
}

} // verus!
