//! A set of strings, kept as a vector in which no text occurs twice.
use vstd::prelude::*;

verus! {

/// A finite set of strings. The elements are kept in the order they were first inserted.
pub struct StringSet {
    items: Vec<String>,
}

impl View for StringSet {
    type V = Set<Seq<char>>;

    closed spec fn view(&self) -> Set<Seq<char>> {
        self.items.deep_view().to_set()
    }
}

impl StringSet {
    #[verifier::type_invariant]
    spec fn distinct(self) -> bool {
        self.items.deep_view().no_duplicates()
    }

    /// The elements in the order they were first inserted.
    pub closed spec fn elements(&self) -> Seq<Seq<char>> {
        self.items.deep_view()
    }

    /// The empty set.
    pub fn new() -> (s: StringSet)
        ensures
            s@ == Set::<Seq<char>>::empty(),
            s.elements() == Seq::<Seq<char>>::empty(),
    {
        let s = StringSet { items: Vec::new() };
        proof {
            assert(s.items.deep_view() =~= Seq::<Seq<char>>::empty());
            assert(s@ =~= Set::<Seq<char>>::empty());
        }
        s
    }

    fn index_of(&self, s: &String) -> (r: Option<usize>)
        ensures
            match r {
                Some(i) => i < self.items.len() && self.items.deep_view()[i as int] == s@,
                None => !self.items.deep_view().contains(s@),
            },
    {
        let n = self.items.len();
        let mut i: usize = 0;
        while i < n
            invariant
                n == self.items.len(),
                i <= n,
                forall|j: int| 0 <= j < i ==> self.items.deep_view()[j] != s@,
            decreases n - i,
        {
            if self.items[i] == *s {
                return Some(i);
            }
            i = i + 1;
        }
        None
    }

    /// Whether `s` is an element.
    pub fn contains(&self, s: &String) -> (r: bool)
        ensures
            r == self@.contains(s@),
    {
        match self.index_of(s) {
            Some(_) => true,
            None => false,
        }
    }

    /// Adds `s`; returns whether it was absent.
    pub fn insert(&mut self, s: String) -> (fresh: bool)
        ensures
            fresh == !old(self)@.contains(s@),
            final(self)@ == old(self)@.insert(s@),
            fresh ==> final(self).elements() == old(self).elements().push(s@),
            !fresh ==> final(self).elements() == old(self).elements(),
    {
        proof {
            use_type_invariant(&*self);
        }
        match self.index_of(&s) {
            Some(_) => false,
            None => {
                let ghost before = self.items.deep_view();
                let mut items = Vec::new();
                std::mem::swap(&mut items, &mut self.items);
                items.push(s);
                proof {
                    assert(items.deep_view() =~= before.push(s@));
                    before.lemma_push_to_set_commute(s@);
                }
                self.items = items;
                true
            },
        }
    }

    /// The number of elements.
    pub fn len(&self) -> (n: usize)
        ensures
            n == self@.len(),
            n == self.elements().len(),
    {
        proof {
            use_type_invariant(self);
            self.items.deep_view().unique_seq_to_set();
        }
        self.items.len()
    }

    /// The elements, each once, in the order they were first inserted.
    pub fn to_vec(&self) -> (v: Vec<String>)
        ensures
            v.deep_view() == self.elements(),
            v.deep_view().no_duplicates(),
            v.deep_view().to_set() == self@,
    {
        proof {
            use_type_invariant(self);
        }
        self.items.clone()
    }

    /// The set of the given strings.
    pub fn from_vec(v: Vec<String>) -> (s: StringSet)
        ensures
            s@ == v.deep_view().to_set(),
    {
        let mut s = StringSet::new();
        let n = v.len();
        let mut i: usize = 0;
        while i < n
            invariant
                n == v.len(),
                i <= n,
                s@ == v.deep_view().take(i as int).to_set(),
            decreases n - i,
        {
            let x = v[i].clone();
            s.insert(x);
            proof {
                assert(v.deep_view().take(i + 1) =~= v.deep_view().take(i as int).push(v.deep_view()[i as int]));
                v.deep_view().take(i as int).lemma_push_to_set_commute(v.deep_view()[i as int]);
            }
            i = i + 1;
        }
        proof {
            assert(v.deep_view().take(n as int) =~= v.deep_view());
        }
        s
    }
}

impl Clone for StringSet {
    fn clone(&self) -> (s: Self)
        ensures
            s@ == self@,
            s.elements() == self.elements(),
    {
        proof {
            use_type_invariant(self);
        }
        StringSet { items: self.items.clone() }
    }
}

} // verus!
