//! Static `str -> str` and `char -> str` maps.
use crate::text::str_eq;
use vstd::prelude::*;

verus! {

/// The value of the first entry whose key is `key`, from index `i` on.
pub open spec fn lookup_from(m: Seq<(Seq<char>, Seq<char>)>, key: Seq<char>, i: int) -> Option<Seq<char>>
    decreases m.len() - i,
{
    if i < 0 || i >= m.len() {
        None
    } else if m[i].0 == key {
        Some(m[i].1)
    } else {
        lookup_from(m, key, i + 1)
    }
}

/// The value `m` gives `key`: that of its first entry with that key.
pub open spec fn lookup(m: Seq<(Seq<char>, Seq<char>)>, key: Seq<char>) -> Option<Seq<char>> {
    lookup_from(m, key, 0)
}

/// The entries of a `str -> str` table as character sequences.
pub open spec fn table_view(e: Seq<(&'static str, &'static str)>) -> Seq<(Seq<char>, Seq<char>)> {
    e.map_values(|p: (&'static str, &'static str)| (p.0@, p.1@))
}

/// The value of the first entry whose key is `c`, from index `i` on.
pub open spec fn char_lookup_from(m: Seq<(char, Seq<char>)>, c: char, i: int) -> Option<Seq<char>>
    decreases m.len() - i,
{
    if i < 0 || i >= m.len() {
        None
    } else if m[i].0 == c {
        Some(m[i].1)
    } else {
        char_lookup_from(m, c, i + 1)
    }
}

/// The value `m` gives `c`: that of its first entry with that key.
pub open spec fn char_lookup(m: Seq<(char, Seq<char>)>, c: char) -> Option<Seq<char>> {
    char_lookup_from(m, c, 0)
}

/// The entries of a `char -> str` table with the values as character sequences.
pub open spec fn char_table_view(e: Seq<(char, &'static str)>) -> Seq<(char, Seq<char>)> {
    e.map_values(|p: (char, &'static str)| (p.0, p.1@))
}

/// The value a `char -> str` table gives `c`.
pub fn char_table_get(entries: &[(char, &'static str)], c: char) -> (r: Option<&'static str>)
    ensures
        r matches Some(v) ==> char_lookup(char_table_view(entries@), c) == Some(v@),
        r is None <==> char_lookup(char_table_view(entries@), c) is None,
{
    let ghost m = char_table_view(entries@);
    for i in 0..entries.len()
        invariant
            m == char_table_view(entries@),
            char_lookup(m, c) == char_lookup_from(m, c, i as int),
    {
        let (k, v) = entries[i];
        if k == c {
            return Some(v);
        }
    }
    None
}

/// A static, sorted `str -> str` table.
pub struct StaticMap {
    entries: &'static [(&'static str, &'static str)],
}

impl View for StaticMap {
    type V = Seq<(Seq<char>, Seq<char>)>;

    closed spec fn view(&self) -> Seq<(Seq<char>, Seq<char>)> {
        table_view(self.entries@)
    }
}

impl StaticMap {
    /// The map over `entries`.
    pub fn new(entries: &'static [(&'static str, &'static str)]) -> (r: Self)
        ensures
            r@ == table_view(entries@),
    {
        StaticMap { entries }
    }

    /// The value mapped to `key`, if any.
    pub fn get(&self, key: &str) -> (r: Option<&'static str>)
        ensures
            r matches Some(v) ==> lookup(self@, key@) == Some(v@),
            r is None <==> lookup(self@, key@) is None,
    {
        let ghost m = self@;
        for i in 0..self.entries.len()
            invariant
                m == table_view(self.entries@),
                lookup(m, key@) == lookup_from(m, key@, i as int),
        {
            let (k, v) = self.entries[i];
            if str_eq(k, key) {
                return Some(v);
            }
        }
        None
    }

    /// Whether `key` is mapped.
    pub fn contains_key(&self, key: &str) -> (r: bool)
        ensures
            r == (lookup(self@, key@) is Some),
    {
        self.get(key).is_some()
    }

    /// The number of entries.
    pub fn len(&self) -> (r: usize)
        ensures
            r == self@.len(),
    {
        self.entries.len()
    }

    /// No entries.
    pub fn is_empty(&self) -> (r: bool)
        ensures
            r == (self@.len() == 0),
    {
        self.entries.len() == 0
    }
}

/// What `lookup_from` gives, by the entries from `i` on.
proof fn lemma_lookup_from_membership(m: Seq<(Seq<char>, Seq<char>)>, key: Seq<char>, i: int)
    requires
        0 <= i,
    ensures
        (lookup_from(m, key, i) is Some) <==> exists|j: int| i <= j < m.len() && (#[trigger] m[j]).0 == key,
        lookup_from(m, key, i) matches Some(v) ==> exists|j: int| i <= j < m.len() && #[trigger] m[j] == (key, v),
    decreases m.len() - i,
{
    if i < m.len() {
        lemma_lookup_from_membership(m, key, i + 1);
        if m[i].0 == key {
            assert(m[i] == (key, m[i].1));
        }
    }
}

/// A table maps exactly the keys of its entries, each to the value of an entry with that key;
/// where no two entries share a key, a key maps to the value of its entry.
pub proof fn lemma_lookup_is_membership(m: Seq<(Seq<char>, Seq<char>)>, key: Seq<char>)
    ensures
        (lookup(m, key) is Some) <==> exists|j: int| 0 <= j < m.len() && (#[trigger] m[j]).0 == key,
        lookup(m, key) matches Some(v) ==> exists|j: int| 0 <= j < m.len() && #[trigger] m[j] == (key, v),
        (forall|j: int, k: int| 0 <= j < k < m.len() ==> (#[trigger] m[j]).0 != (#[trigger] m[k]).0) ==> forall|j: int|
            0 <= j < m.len() ==> lookup(m, (#[trigger] m[j]).0) == Some(m[j].1),
{
    lemma_lookup_from_membership(m, key, 0);
    if forall|j: int, k: int| 0 <= j < k < m.len() ==> (#[trigger] m[j]).0 != (#[trigger] m[k]).0 {
        assert forall|j: int| 0 <= j < m.len() implies lookup(m, (#[trigger] m[j]).0) == Some(m[j].1) by {
            lemma_lookup_from_membership(m, m[j].0, 0);
            let v = lookup(m, m[j].0)->0;
            let j2 = choose|j2: int| 0 <= j2 < m.len() && #[trigger] m[j2] == (m[j].0, v);
            assert(m[j2].0 == m[j].0);
        }
    }
}

} // verus!
