use vstd::prelude::*;

verus! {

/// Whether no two entries of `entries` share a name.
pub open spec fn names_unique(entries: Seq<(Seq<char>, Seq<char>)>) -> bool {
    forall|i: int, j: int|
        0 <= i < entries.len() && 0 <= j < entries.len() && i != j
            ==> #[trigger] entries[i].0 != #[trigger] entries[j].0
}

/// A mapping from header names to header values. Names are unique, and the
/// entries keep the order in which their names were first inserted, so that a
/// response renders its headers in a stable order.
#[derive(Debug, PartialEq, Eq)]
pub struct HeaderMap {
    entries: Vec<(String, String)>,
}

impl View for HeaderMap {
    type V = Seq<(Seq<char>, Seq<char>)>;

    closed spec fn view(&self) -> Seq<(Seq<char>, Seq<char>)> {
        Seq::new(self.entries@.len(), |i: int| (self.entries@[i].0@, self.entries@[i].1@))
    }
}

impl HeaderMap {
    /// The mapping holds no name twice.
    #[verifier::type_invariant]
    spec fn wf(&self) -> bool {
        names_unique(self@)
    }

    /// An empty mapping.
    pub fn new() -> (r: HeaderMap)
        ensures
            r@ == Seq::<(Seq<char>, Seq<char>)>::empty(),
    {
        let r = HeaderMap { entries: Vec::new() };
        assert(r@ =~= Seq::<(Seq<char>, Seq<char>)>::empty());
        r
    }

    /// The number of entries.
    pub fn len(&self) -> (r: usize)
        ensures
            r == self@.len(),
    {
        self.entries.len()
    }

    /// The name and value of the entry at `i`, in insertion order.
    pub fn entry(&self, i: usize) -> (r: (&str, &str))
        requires
            i < self@.len(),
        ensures
            r.0@ == self@[i as int].0,
            r.1@ == self@[i as int].1,
    {
        let e = &self.entries[i];
        (e.0.as_str(), e.1.as_str())
    }

    /// The position of the entry named `name`, if there is one.
    fn position(&self, name: &String) -> (r: Option<usize>)
        ensures
            match r {
                Some(i) => i < self@.len() && self@[i as int].0 == name@,
                None => forall|i: int| 0 <= i < self@.len() ==> #[trigger] self@[i].0 != name@,
            },
    {
        let mut i: usize = 0;
        while i < self.entries.len()
            invariant
                i <= self@.len(),
                self@.len() == self.entries@.len(),
                forall|j: int| 0 <= j < i ==> #[trigger] self@[j].0 != name@,
            decreases self.entries.len() - i,
        {
            if self.entries[i].0 == *name {
                return Some(i);
            }
            i = i + 1;
        }
        None
    }

    /// Sets the value of `name` to `value`. An entry already named `name`
    /// keeps its place and takes the new value; otherwise the entry is added
    /// at the end.
    pub fn insert(&mut self, name: &str, value: &str)
        ensures
            names_unique(final(self)@),
            forall|i: int|
                0 <= i < old(self)@.len() && #[trigger] old(self)@[i].0 == name@
                    ==> final(self)@ == old(self)@.update(i, (name@, value@)),
            (forall|i: int| 0 <= i < old(self)@.len() ==> #[trigger] old(self)@[i].0 != name@)
                ==> final(self)@ == old(self)@.push((name@, value@)),
    {
        proof {
            use_type_invariant(&*self);
        }
        let key = String::from_str(name);
        let val = String::from_str(value);
        let pos = self.position(&key);
        let mut entries: Vec<(String, String)> = Vec::new();
        std::mem::swap(&mut entries, &mut self.entries);
        match pos {
            Some(i) => {
                entries.set(i, (key, val));
                let ghost v = HeaderMap { entries }@;
                assert(v =~= old(self)@.update(i as int, (name@, value@)));
                assert forall|j: int|
                    0 <= j < old(self)@.len() && #[trigger] old(self)@[j].0 == name@
                        implies j == i as int by {
                    if j != i as int {
                        assert(old(self)@[j].0 != old(self)@[i as int].0);
                    }
                };
            },
            None => {
                entries.push((key, val));
                let ghost v = HeaderMap { entries }@;
                assert(v =~= old(self)@.push((name@, value@)));
                assert forall|a: int, b: int|
                    0 <= a < v.len() && 0 <= b < v.len() && a != b
                        implies #[trigger] v[a].0 != #[trigger] v[b].0 by {
                    if a < old(self)@.len() && b < old(self)@.len() {
                        assert(old(self)@[a].0 != old(self)@[b].0);
                    }
                };
            },
        }
        self.entries = entries;
    }
}

} // verus!
