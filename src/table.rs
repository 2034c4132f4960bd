use vstd::prelude::*;

verus! {

/// No name occurs twice among the entries.
pub open spec fn names_distinct<E>(s: Seq<(Seq<char>, E)>) -> bool {
    forall|i: int, j: int| 0 <= i < s.len() && 0 <= j < s.len() && i != j ==> s[i].0 != s[j].0
}

/// Some entry has the name `n`.
pub open spec fn has_name<E>(s: Seq<(Seq<char>, E)>, n: Seq<char>) -> bool {
    exists|i: int| 0 <= i < s.len() && (#[trigger] s[i]).0 == n
}

/// The names of the entries, in order.
pub open spec fn names_of<E>(s: Seq<(Seq<char>, E)>) -> Seq<Seq<char>> {
    s.map_values(|p: (Seq<char>, E)| p.0)
}

/// Where the entry named `n` stands (meaningful where some entry has that name).
pub open spec fn index_of<E>(s: Seq<(Seq<char>, E)>, n: Seq<char>) -> int {
    choose|i: int| 0 <= i < s.len() && (#[trigger] s[i]).0 == n
}

/// The entries after binding `n` to `e`: in place where the name is
/// there, else as a new last entry.
pub open spec fn inserted<E>(s: Seq<(Seq<char>, E)>, n: Seq<char>, e: E) -> Seq<(Seq<char>, E)> {
    if has_name(s, n) {
        s.update(index_of(s, n), (n, e))
    } else {
        s.push((n, e))
    }
}

/// The entries without the one named `n`.
pub open spec fn removed<E>(s: Seq<(Seq<char>, E)>, n: Seq<char>) -> Seq<(Seq<char>, E)> {
    if has_name(s, n) {
        s.remove(index_of(s, n))
    } else {
        s
    }
}

/// The endpoint bound to `n`, if any.
pub open spec fn lookup<E>(s: Seq<(Seq<char>, E)>, n: Seq<char>) -> Option<E> {
    if has_name(s, n) {
        Some(s[index_of(s, n)].1)
    } else {
        None
    }
}

proof fn lemma_index_unique<E>(s: Seq<(Seq<char>, E)>, n: Seq<char>, i: int)
    requires
        names_distinct(s),
        0 <= i < s.len(),
        s[i].0 == n,
    ensures
        has_name(s, n),
        index_of(s, n) == i,
{
    assert(has_name(s, n));
    let j = index_of(s, n);
    assert(s[j].0 == n);
}

/// A table of named endpoints (channel ends or port handles), each name at
/// most once, kept in the order in which the names were first added.
pub struct EndpointTable<E> {
    entries: Vec<(String, E)>,
}

impl<E> View for EndpointTable<E> {
    type V = Seq<(Seq<char>, E)>;

    closed spec fn view(&self) -> Seq<(Seq<char>, E)> {
        self.entries@.map_values(|p: (String, E)| (p.0@, p.1))
    }
}

impl<E> EndpointTable<E> {
    pub fn new() -> (r: EndpointTable<E>)
        ensures
            r@ == Seq::<(Seq<char>, E)>::empty(),
    {
        let r = EndpointTable { entries: Vec::new() };
        proof {
            assert(r@ =~= Seq::<(Seq<char>, E)>::empty());
        }
        r
    }

    pub fn len(&self) -> (r: usize)
        ensures
            r == self@.len(),
    {
        self.entries.len()
    }

    /// Where the entry named `name` stands.
    pub fn position(&self, name: &String) -> (r: Option<usize>)
        requires
            names_distinct(self@),
        ensures
            r is None <==> !has_name(self@, name@),
            r matches Some(i) ==> i < self@.len() && self@[i as int].0 == name@ && i == index_of(
                self@,
                name@,
            ),
    {
        let mut i: usize = 0;
        while i < self.entries.len()
            invariant
                i <= self@.len(),
                self@.len() == self.entries@.len(),
                names_distinct(self@),
                forall|j: int| 0 <= j < i ==> (#[trigger] self@[j]).0 != name@,
            decreases self@.len() - i,
        {
            proof {
                assert(self@[i as int].0 == self.entries@[i as int].0@);
            }
            if self.entries[i].0 == *name {
                proof {
                    lemma_index_unique(self@, name@, i as int);
                }
                return Some(i);
            }
            i = i + 1;
        }
        None
    }

    /// The endpoint bound to `name`, if any.
    pub fn get(&self, name: &String) -> (r: Option<&E>)
        requires
            names_distinct(self@),
        ensures
            r matches Some(e) ==> lookup(self@, name@) == Some(*e),
            r is None ==> lookup(self@, name@) is None,
    {
        match self.position(name) {
            Some(i) => Some(&self.entries[i].1),
            None => None,
        }
    }

    pub fn contains(&self, name: &String) -> (r: bool)
        requires
            names_distinct(self@),
        ensures
            r == has_name(self@, name@),
    {
        self.position(name).is_some()
    }

    /// Binds `name` to `e`: in place of its endpoint if the name is there,
    /// else as a new last entry.
    pub fn insert(&mut self, name: String, e: E)
        requires
            names_distinct(old(self)@),
        ensures
            names_distinct(final(self)@),
            final(self)@ == inserted(old(self)@, name@, e),
    {
        match self.position(&name) {
            Some(i) => {
                let ghost n = name@;
                self.entries.set(i, (name, e));
                proof {
                    assert(self@ =~= old(self)@.update(i as int, (n, e)));
                }
            },
            None => {
                let ghost n = name@;
                self.entries.push((name, e));
                proof {
                    assert(self@ =~= old(self)@.push((n, e)));
                }
            },
        }
    }

    /// Takes out the entry named `name` and hands back its endpoint.
    pub fn remove(&mut self, name: &String) -> (r: Option<E>)
        requires
            names_distinct(old(self)@),
        ensures
            names_distinct(final(self)@),
            r == lookup(old(self)@, name@),
            final(self)@ == removed(old(self)@, name@),
    {
        match self.position(name) {
            Some(i) => {
                let (_, e) = self.entries.remove(i);
                proof {
                    assert(self@ =~= old(self)@.remove(i as int));
                }
                Some(e)
            },
            None => None,
        }
    }

    /// The names, in the table's order.
    pub fn names(&self) -> (r: Vec<String>)
        ensures
            r@.map_values(|s: String| s@) == names_of(self@),
    {
        let mut out: Vec<String> = Vec::new();
        let mut i: usize = 0;
        while i < self.entries.len()
            invariant
                i <= self@.len(),
                self@.len() == self.entries@.len(),
                out@.map_values(|s: String| s@) == names_of(self@).subrange(0, i as int),
            decreases self@.len() - i,
        {
            let name = self.entries[i].0.clone();
            proof {
                assert(name@ == self@[i as int].0);
            }
            let ghost before = out@;
            out.push(name);
            proof {
                assert(out@.map_values(|s: String| s@) =~= before.map_values(|s: String| s@).push(
                    name@,
                ));
            }
            i = i + 1;
            proof {
                assert(out@.map_values(|s: String| s@) =~= names_of(self@).subrange(0, i as int));
            }
        }
        proof {
            assert(out@.map_values(|s: String| s@) =~= names_of(self@));
        }
        out
    }

    /// The endpoint of entry `i`.
    pub fn value(&self, i: usize) -> (r: &E)
        requires
            i < self@.len(),
        ensures
            *r == self@[i as int].1,
    {
        &self.entries[i].1
    }

    /// The endpoint of entry `i`, to be used in place.
    pub fn value_mut(&mut self, i: usize) -> (r: &mut E)
        requires
            i < old(self)@.len(),
        ensures
            *r == old(self)@[i as int].1,
            final(self)@ == old(self)@.update(i as int, (old(self)@[i as int].0, *final(r))),
    {
        &mut self.entries[i].1
    }

    /// Empties the table and hands back every endpoint, the last added first.
    pub fn take_all(&mut self) -> (r: Vec<E>)
        ensures
            final(self)@ == Seq::<(Seq<char>, E)>::empty(),
            r@.len() == old(self)@.len(),
            forall|i: int| 0 <= i < r@.len() ==> #[trigger] r@[i] == old(self)@[old(self)@.len() - 1 - i].1,
    {
        let mut out: Vec<E> = Vec::new();
        let ghost all = self@;
        while self.entries.len() > 0
            invariant
                self@.len() + out@.len() == all.len(),
                self@ == all.subrange(0, self@.len() as int),
                forall|i: int| 0 <= i < out@.len() ==> #[trigger] out@[i] == all[all.len() - 1 - i].1,
            decreases self@.len(),
        {
            let ghost before = self@;
            let (_, e) = self.entries.pop().unwrap();
            proof {
                assert(self@ =~= before.drop_last());
                assert(e == before[before.len() - 1].1);
            }
            out.push(e);
        }
        proof {
            assert(self@ =~= Seq::<(Seq<char>, E)>::empty());
        }
        out
    }
}

} // verus!
