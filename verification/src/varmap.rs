//! A plain string-to-string mapping.
//!
//! [VarMap] carries the raw request fields a gateway convention supplies
//! (environment variables, or the pairs of an SCGI header block), and the
//! attributes of a parsed certificate name. Inserting an existing key
//! replaces its value: the view is the mapping where the latest insertion
//! wins.

use vstd::prelude::*;

use crate::strings::str_eq;

verus! {

/// The mapping a sequence of key/value pairs denotes: pairs are taken in
/// order, and a later pair with the same key wins.
spec fn map_of(pairs: Seq<(String, String)>) -> Map<Seq<char>, Seq<char>>
    decreases pairs.len(),
{
    if pairs.len() == 0 {
        Map::empty()
    } else {
        map_of(pairs.drop_last()).insert(pairs.last().0@, pairs.last().1@)
    }
}

/// A string-keyed, string-valued mapping, viewed as a `Map` from key
/// characters to value characters.
#[derive(Debug)]
pub struct VarMap {
    pairs: Vec<(String, String)>,
}

impl View for VarMap {
    type V = Map<Seq<char>, Seq<char>>;

    closed spec fn view(&self) -> Map<Seq<char>, Seq<char>> {
        map_of(self.pairs@)
    }
}

/// A mapping looks up keys past a tail of pairs none of which carries the
/// key being asked for.
proof fn lemma_map_of_untouched(pairs: Seq<(String, String)>, i: int, k: Seq<char>)
    requires
        0 <= i <= pairs.len(),
        forall|j: int| i <= j < pairs.len() ==> (#[trigger] pairs[j]).0@ != k,
    ensures
        map_of(pairs).contains_key(k) <==> map_of(pairs.take(i)).contains_key(k),
        map_of(pairs.take(i)).contains_key(k) ==> map_of(pairs)[k] == map_of(pairs.take(i))[k],
    decreases pairs.len(),
{
    if i == pairs.len() {
        assert(pairs.take(i) =~= pairs);
    } else {
        let t = pairs.drop_last();
        assert(pairs.last().0@ != k);
        lemma_map_of_untouched(t, i, k);
        assert(t.take(i) =~= pairs.take(i));
    }
}

impl VarMap {
    /// Create an empty mapping.
    pub fn new() -> (r: Self)
        ensures
            r@ == Map::<Seq<char>, Seq<char>>::empty(),
    {
        VarMap { pairs: Vec::new() }
    }

    /// Insert a key/value pair, replacing the value of an existing key.
    pub fn insert(&mut self, key: String, value: String)
        ensures
            final(self)@ == old(self)@.insert(key@, value@),
    {
        let ghost before = self.pairs@;
        self.pairs.push((key, value));
        proof {
            assert(self.pairs@.drop_last() =~= before);
        }
    }

    /// Look a key up: the value of the latest insertion under it, if any.
    pub fn get(&self, key: &str) -> (r: Option<&String>)
        ensures
            match r {
                Some(v) => self@.contains_key(key@) && v@ == self@[key@],
                None => !self@.contains_key(key@),
            },
    {
        let mut i: usize = self.pairs.len();
        while i > 0
            invariant
                0 <= i <= self.pairs@.len(),
                forall|j: int|
                    i <= j < self.pairs@.len() ==> (#[trigger] self.pairs@[j]).0@ != key@,
            decreases i,
        {
            i = i - 1;
            if str_eq(self.pairs[i].0.as_str(), key) {
                proof {
                    let s = self.pairs@;
                    let t = s.take(i + 1);
                    assert(t.drop_last() =~= s.take(i as int));
                    assert(t.last() == s[i as int]);
                    assert(map_of(t).contains_key(key@) && map_of(t)[key@] == s[i as int].1@);
                    lemma_map_of_untouched(s, i + 1, key@);
                }
                return Some(&self.pairs[i].1);
            }
        }
        proof {
            lemma_map_of_untouched(self.pairs@, 0, key@);
            assert(self.pairs@.take(0) =~= Seq::<(String, String)>::empty());
        }
        None
    }

    /// Whether a key is present.
    pub fn contains_key(&self, key: &str) -> (r: bool)
        ensures
            r == self@.contains_key(key@),
    {
        match self.get(key) {
            Some(_) => true,
            None => false,
        }
    }
}

} // verus!
