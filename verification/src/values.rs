use vstd::prelude::*;

verus! {

/// The index of the first pair named `name`, looking from `i` on.
pub open spec fn key_index_from(
    pairs: Seq<(Seq<char>, Seq<char>)>,
    name: Seq<char>,
    i: int,
) -> Option<int>
    decreases pairs.len() - i,
{
    if i < 0 || i >= pairs.len() {
        None
    } else if pairs[i].0 == name {
        Some(i)
    } else {
        key_index_from(pairs, name, i + 1)
    }
}

/// The index of the first pair named `name`.
pub open spec fn key_index(pairs: Seq<(Seq<char>, Seq<char>)>, name: Seq<char>) -> Option<int> {
    key_index_from(pairs, name, 0)
}

/// The value stored under `name`, if any.
pub open spec fn spec_lookup(pairs: Seq<(Seq<char>, Seq<char>)>, name: Seq<char>) -> Option<
    Seq<char>,
> {
    match key_index(pairs, name) {
        Some(i) => Some(pairs[i].1),
        None => None,
    }
}

/// The pairs after binding `name` to `value`: an existing binding is
/// replaced in place, a new one appended at the end.
pub open spec fn spec_insert(
    pairs: Seq<(Seq<char>, Seq<char>)>,
    name: Seq<char>,
    value: Seq<char>,
) -> Seq<(Seq<char>, Seq<char>)> {
    match key_index(pairs, name) {
        Some(i) => pairs.update(i, (name, value)),
        None => pairs.push((name, value)),
    }
}

/// The named values known while one trigger is resolved: placeholder names
/// paired with their replacement text, in the order they became known.
pub struct ValueSet {
    pub pairs: Vec<(String, String)>,
}

impl View for ValueSet {
    type V = Seq<(Seq<char>, Seq<char>)>;

    open spec fn view(&self) -> Seq<(Seq<char>, Seq<char>)> {
        self.pairs@.map_values(|p: (String, String)| (p.0@, p.1@))
    }
}

/// Character-for-character equality of two string slices.
pub fn str_eq(a: &str, b: &str) -> (r: bool)
    ensures
        r == (a@ == b@),
{
    let alen = a.unicode_len();
    let blen = b.unicode_len();
    if alen != blen {
        return false;
    }
    let mut i: usize = 0;
    while i < alen
        invariant
            alen == a@.len(),
            alen == b@.len(),
            i <= alen,
            forall|x: int| 0 <= x < i ==> a@[x] == b@[x],
        decreases alen - i,
    {
        if a.get_char(i) != b.get_char(i) {
            return false;
        }
        i = i + 1;
    }
    proof {
        assert(a@ =~= b@);
    }
    true
}

impl ValueSet {
    /// A value set with nothing known yet.
    pub fn new() -> (r: ValueSet)
        ensures
            r@ == Seq::<(Seq<char>, Seq<char>)>::empty(),
    {
        let r = ValueSet { pairs: Vec::new() };
        proof {
            assert(r@ =~= Seq::<(Seq<char>, Seq<char>)>::empty());
        }
        r
    }

    fn find_index(&self, name: &str) -> (r: Option<usize>)
        ensures
            match r {
                Some(i) => key_index(self@, name@) == Some(i as int) && i < self.pairs@.len(),
                None => key_index(self@, name@) is None,
            },
    {
        let n = self.pairs.len();
        let mut i: usize = 0;
        while i < n
            invariant
                n == self.pairs@.len(),
                i <= n,
                key_index(self@, name@) == key_index_from(self@, name@, i as int),
            decreases n - i,
        {
            if str_eq(self.pairs[i].0.as_str(), name) {
                return Some(i);
            }
            i = i + 1;
        }
        None
    }

    /// Binds `name` to `value`, replacing any earlier binding of the name.
    pub fn insert(&mut self, name: String, value: String)
        ensures
            final(self)@ == spec_insert(old(self)@, name@, value@),
    {
        match self.find_index(name.as_str()) {
            Some(i) => {
                self.pairs.remove(i);
                self.pairs.insert(i, (name, value));
                proof {
                    assert(self@ =~= spec_insert(old(self)@, name@, value@));
                }
            },
            None => {
                self.pairs.push((name, value));
                proof {
                    assert(self@ =~= spec_insert(old(self)@, name@, value@));
                }
            },
        }
    }

    /// The value bound to `name`, if any.
    pub fn get(&self, name: &str) -> (r: Option<&String>)
        ensures
            match r {
                Some(v) => spec_lookup(self@, name@) == Some(v@),
                None => spec_lookup(self@, name@) is None,
            },
    {
        match self.find_index(name) {
            Some(i) => Some(&self.pairs[i].1),
            None => None,
        }
    }

    /// How many values are known.
    pub fn len(&self) -> (n: usize)
        ensures
            n == self@.len(),
    {
        self.pairs.len()
    }
}

} // verus!
