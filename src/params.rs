use vstd::prelude::*;
use crate::text::same_text;

verus! {

/// The value stored under `k` in a list of entries: the first entry with that
/// name wins.
pub open spec fn lookup(s: Seq<(String, u32)>, k: Seq<char>) -> Option<u32>
    decreases s.len(),
{
    if s.len() == 0 {
        None
    } else if s[0].0@ == k {
        Some(s[0].1)
    } else {
        lookup(s.drop_first(), k)
    }
}

proof fn lemma_lookup_update(s: Seq<(String, u32)>, j: int, e: (String, u32), k: Seq<char>)
    requires
        0 <= j < s.len(),
        e.0@ == s[j].0@,
        forall|i: int| 0 <= i < j ==> s[i].0@ != s[j].0@,
    ensures
        lookup(s.update(j, e), k) == if k == e.0@ {
            Some(e.1)
        } else {
            lookup(s, k)
        },
    decreases j,
{
    if j == 0 {
        assert(s.update(j, e).drop_first() =~= s.drop_first());
    } else {
        assert(s.update(j, e).drop_first() =~= s.drop_first().update(j - 1, e));
        if s[0].0@ != k {
            lemma_lookup_update(s.drop_first(), j - 1, e, k);
        }
    }
}

proof fn lemma_lookup_push(s: Seq<(String, u32)>, e: (String, u32), k: Seq<char>)
    ensures
        lookup(s.push(e), k) == if lookup(s, k) is Some {
            lookup(s, k)
        } else if e.0@ == k {
            Some(e.1)
        } else {
            None
        },
    decreases s.len(),
{
    if s.len() == 0 {
        assert(s.push(e).drop_first() =~= s);
    } else {
        assert(s.push(e).drop_first() =~= s.drop_first().push(e));
        lemma_lookup_push(s.drop_first(), e, k);
    }
}

/// Named effect parameters, each a single-precision value held as its bit
/// pattern; names are unique.
#[derive(Debug, Clone)]
pub struct EffectParams {
    params: Vec<(String, u32)>,
}

impl View for EffectParams {
    type V = Map<Seq<char>, u32>;

    closed spec fn view(&self) -> Map<Seq<char>, u32> {
        Map::new(
            |k: Seq<char>| lookup(self.params@, k) is Some,
            |k: Seq<char>| lookup(self.params@, k)->0,
        )
    }
}

impl EffectParams {
    /// A store with no parameter in it.
    pub fn new() -> (r: EffectParams)
        ensures
            r@ == Map::<Seq<char>, u32>::empty(),
    {
        let r = EffectParams { params: Vec::new() };
        assert(r@ =~= Map::<Seq<char>, u32>::empty());
        r
    }

    /// The position of the entry named `key`, where there is one.
    fn position(&self, key: &str) -> (r: Option<usize>)
        ensures
            r matches Some(j) ==> {
                &&& j < self.params@.len()
                &&& self.params@[j as int].0@ == key@
                &&& forall|i: int| 0 <= i < j ==> self.params@[i].0@ != key@
            },
            r is None ==> lookup(self.params@, key@) is None,
    {
        let ghost s = self.params@;
        let mut i: usize = 0;
        assert(s.skip(0) =~= s);
        while i < self.params.len()
            invariant
                s == self.params@,
                i <= s.len(),
                forall|j: int| 0 <= j < i ==> s[j].0@ != key@,
                lookup(s, key@) == lookup(s.skip(i as int), key@),
            decreases s.len() - i,
        {
            assert(s.skip(i as int).drop_first() =~= s.skip(i + 1));
            if same_text(self.params[i].0.as_str(), key) {
                return Some(i);
            }
            i = i + 1;
        }
        None
    }

    /// The value stored under `key`, if any.
    pub fn get(&self, key: &str) -> (r: Option<u32>)
        ensures
            r == if self@.contains_key(key@) {
                Some(self@[key@])
            } else {
                None::<u32>
            },
    {
        match self.position(key) {
            Some(j) => {
                let ghost s = self.params@;
                assert(lookup(s, key@) == Some(s[j as int].1)) by {
                    let e = s[j as int];
                    lemma_lookup_update(s, j as int, e, key@);
                    assert(s.update(j as int, e) =~= s);
                }
                Some(self.params[j].1)
            },
            None => None,
        }
    }

    /// Stores `value` under `key`, replacing any earlier value of that name.
    pub fn set(&mut self, key: String, value: u32)
        ensures
            final(self)@ == old(self)@.insert(key@, value),
    {
        let ghost s = self.params@;
        match self.position(key.as_str()) {
            Some(j) => {
                let ghost e = (key, value);
                self.params.set(j, (key, value));
                proof {
                    assert forall|k: Seq<char>| lookup(self.params@, k) == if k == e.0@ {
                        Some(e.1)
                    } else {
                        lookup(s, k)
                    } by {
                        lemma_lookup_update(s, j as int, e, k);
                    }
                }
            },
            None => {
                let ghost e = (key, value);
                self.params.push((key, value));
                proof {
                    assert forall|k: Seq<char>| lookup(self.params@, k) == if lookup(s, k) is Some {
                        lookup(s, k)
                    } else if e.0@ == k {
                        Some(e.1)
                    } else {
                        None
                    } by {
                        lemma_lookup_push(s, e, k);
                    }
                }
            },
        }
        assert(self@ =~= old(self)@.insert(key@, value));
    }
}

impl Default for EffectParams {
    fn default() -> (r: EffectParams)
        ensures
            r@ == Map::<Seq<char>, u32>::empty(),
    {
        EffectParams::new()
    }
}

} // verus!
