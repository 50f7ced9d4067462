//! The generic attribute representation used to move data into and out of
//! the store: a tagged-union value type (string, number, list, map, null)
//! and a string-keyed attribute map with lookup by name.
//!
//! Numbers are carried as decimal digit strings, as the store itself
//! carries them; the digit codec in `num` gives them meaning.

use vstd::prelude::*;

verus! {

/// One attribute value as the store represents it.
pub enum AttrValue {
    /// A string attribute.
    S(String),
    /// A numeric attribute, carried as its decimal digit string.
    N(String),
    /// A list attribute.
    L(Vec<AttrValue>),
    /// A nested attribute map.
    M(AttrMap),
    /// An explicit null marker.
    Null,
}

/// A string-keyed collection of attribute values: the encoded form of an
/// entity, or of one of its nested composite fields.
///
/// Its mathematical content is a `Map` from key views to values; when a
/// key is inserted twice, the newest binding wins.
pub struct AttrMap {
    entries: Vec<(String, AttrValue)>,
}

impl AttrMap {
    /// The map described by an entry sequence, earliest entry first;
    /// an earlier entry shadows a later one with the same key.
    pub open spec fn map_of(s: Seq<(String, AttrValue)>) -> Map<Seq<char>, AttrValue>
        decreases s.len(),
    {
        if s.len() == 0 {
            Map::empty()
        } else {
            Self::map_of(s.drop_first()).insert(s[0].0@, s[0].1)
        }
    }

    pub closed spec fn view(&self) -> Map<Seq<char>, AttrValue> {
        Self::map_of(self.entries@)
    }

    pub fn new() -> (r: AttrMap)
        ensures
            r@ == Map::<Seq<char>, AttrValue>::empty(),
    {
        let r = AttrMap { entries: Vec::new() };
        proof {
            assert(r@ =~= Map::<Seq<char>, AttrValue>::empty());
        }
        r
    }

    /// Binds `key` to `value`, shadowing any earlier binding of the key.
    pub fn insert(&mut self, key: String, value: AttrValue)
        ensures
            final(self)@ == old(self)@.insert(key@, value),
    {
        let ghost old_entries = self.entries@;
        self.entries.insert(0, (key, value));
        proof {
            assert(self.entries@.drop_first() =~= old_entries);
        }
    }

    /// Looks the key up; yields no value exactly when the key is absent.
    pub fn get(&self, key: &str) -> (r: Option<&AttrValue>)
        ensures
            match r {
                Some(v) => self@.contains_key(key@) && *v == self@[key@],
                None => !self@.contains_key(key@),
            },
    {
        let owned_key: String = key.to_owned();
        let n = self.entries.len();
        let mut i: usize = 0;
        proof {
            assert(self.entries@.skip(0) =~= self.entries@);
        }
        while i < n
            invariant
                0 <= i <= n,
                n == self.entries.len(),
                owned_key@ == key@,
                lookup(Self::map_of(self.entries@), key@) == lookup(
                    Self::map_of(self.entries@.skip(i as int)),
                    key@,
                ),
            decreases n - i,
        {
            proof {
                assert(self.entries@.skip(i as int).drop_first() =~= self.entries@.skip(
                    i as int + 1,
                ));
                assert(self.entries@.skip(i as int)[0] == self.entries@[i as int]);
            }
            if self.entries[i].0 == owned_key {
                return Some(&self.entries[i].1);
            }
            i = i + 1;
        }
        proof {
            assert(self.entries@.skip(n as int) =~= Seq::<(String, AttrValue)>::empty());
        }
        None
    }

    /// The entries backing the map, newest binding first, for conversion
    /// to the store's native item representation.
    pub fn entries(&self) -> (r: &Vec<(String, AttrValue)>)
        ensures
            Self::map_of(r@) == self@,
    {
        &self.entries
    }
}

/// Lookup in the mathematical map: no value exactly when the key is absent.
pub open spec fn lookup(m: Map<Seq<char>, AttrValue>, k: Seq<char>) -> Option<AttrValue> {
    if m.contains_key(k) {
        Some(m[k])
    } else {
        None
    }
}

/// Is `v` a string attribute reading `content`?
pub open spec fn is_s(v: AttrValue, content: Seq<char>) -> bool {
    match v {
        AttrValue::S(s) => s@ == content,
        _ => false,
    }
}

/// Is `v` a numeric attribute carrying the canonical rendering of `value`?
pub open spec fn is_n_u64(v: AttrValue, value: u64) -> bool {
    match v {
        AttrValue::N(s) => s@ == crate::num::spec_digits(value as nat),
        _ => false,
    }
}

/// The views of a string sequence.
pub open spec fn strings_view(v: Seq<String>) -> Seq<Seq<char>> {
    v.map_values(|s: String| s@)
}

/// Is `v` a list attribute of string elements reading `contents`?
pub open spec fn is_string_list(v: AttrValue, contents: Seq<Seq<char>>) -> bool {
    match v {
        AttrValue::L(items) => items@.len() == contents.len() && forall|i: int|
            0 <= i < contents.len() ==> is_s(#[trigger] items@[i], contents[i]),
        _ => false,
    }
}

} // verus!
