//! Typed accessors over generic key/value attribute lists.
//!
//! Externally minted objects carry their raffle-wide state ("Capacity",
//! "Winner") and per-ticket state ("Ticket Number") as a list of string
//! key/value pairs. Everything that reads such a list goes through this one
//! adapter: a first-match lookup, and a numeric lookup that distinguishes a
//! missing key from an unparsable value.

use vstd::prelude::*;
use vstd::string::*;
use crate::digits::{parse_u32, spec_parse_u32};

verus! {

/// One key/value entry of an attribute list.
pub struct Attribute {
    pub key: String,
    pub value: String,
}

/// The value of the first entry whose key is `key`, if any.
pub open spec fn spec_find_attr(attrs: Seq<Attribute>, key: Seq<char>) -> Option<Seq<char>>
    decreases attrs.len(),
{
    if attrs.len() == 0 {
        None
    } else if attrs[0].key@ == key {
        Some(attrs[0].value@)
    } else {
        spec_find_attr(attrs.drop_first(), key)
    }
}

/// What a numeric attribute lookup can observe.
#[derive(Clone, Copy, Debug, PartialEq, Eq, Structural)]
pub enum AttrLookup {
    /// No entry carries the key.
    Missing,
    /// The first entry with the key does not parse as a `u32`.
    Unparsable,
    /// The first entry with the key parses as this number.
    Found(u32),
}

/// The first value under `key`, parsed as a decimal `u32`.
pub open spec fn spec_lookup_u32(attrs: Seq<Attribute>, key: Seq<char>) -> AttrLookup {
    match spec_find_attr(attrs, key) {
        Option::None => AttrLookup::Missing,
        Option::Some(v) => match spec_parse_u32(v) {
            Option::None => AttrLookup::Unparsable,
            Option::Some(n) => AttrLookup::Found(n),
        },
    }
}

/// Character-for-character string equality.
pub fn str_eq(a: &str, b: &str) -> (r: bool)
    ensures
        r == (a@ == b@),
{
    let na: usize = a.unicode_len();
    let nb: usize = b.unicode_len();
    if na != nb {
        return false;
    }
    let mut i: usize = 0;
    while i < na
        invariant
            i <= na,
            na == a@.len(),
            na == b@.len(),
            forall|j: int| 0 <= j < i ==> a@[j] == b@[j],
        decreases na - i,
    {
        if a.get_char(i) != b.get_char(i) {
            return false;
        }
        i += 1;
    }
    proof {
        assert(a@ =~= b@);
    }
    true
}

proof fn lemma_find_attr_step(attrs: Seq<Attribute>, key: Seq<char>, i: int)
    requires
        0 <= i < attrs.len(),
        attrs[i].key@ != key,
    ensures
        spec_find_attr(attrs.skip(i), key) == spec_find_attr(attrs.skip(i + 1), key),
{
    let s = attrs.skip(i);
    assert(s.len() > 0);
    assert(s[0] == attrs[i]);
    assert(s.drop_first() =~= attrs.skip(i + 1));
}

/// Appending an entry changes a lookup only where the key was absent: then
/// the appended entry is found exactly when it carries the key.
pub proof fn lemma_find_attr_append(attrs: Seq<Attribute>, key: Seq<char>, a: Attribute)
    ensures
        spec_find_attr(attrs.push(a), key) == match spec_find_attr(attrs, key) {
            Option::Some(v) => Option::Some(v),
            Option::None => if a.key@ == key {
                Option::Some(a.value@)
            } else {
                Option::None
            },
        },
    decreases attrs.len(),
{
    let s = attrs.push(a);
    assert(s.len() == attrs.len() + 1);
    if attrs.len() == 0 {
        assert(s[0] == a);
        assert(s.drop_first() =~= Seq::<Attribute>::empty());
        assert(spec_find_attr(Seq::<Attribute>::empty(), key) is None);
        assert(spec_find_attr(attrs, key) is None);
        if a.key@ == key {
            assert(spec_find_attr(s, key) == Some(a.value@));
        } else {
            assert(spec_find_attr(s, key) == spec_find_attr(s.drop_first(), key));
        }
    } else {
        assert(s[0] == attrs[0]);
        assert(s.drop_first() =~= attrs.drop_first().push(a));
        lemma_find_attr_append(attrs.drop_first(), key, a);
        if attrs[0].key@ == key {
            assert(spec_find_attr(s, key) == Some(attrs[0].value@));
            assert(spec_find_attr(attrs, key) == Some(attrs[0].value@));
        } else {
            assert(spec_find_attr(s, key) == spec_find_attr(attrs.drop_first().push(a), key));
            assert(spec_find_attr(attrs, key) == spec_find_attr(attrs.drop_first(), key));
        }
    }
}

/// Find the first value stored under `key`, scanning front to back.
pub fn find_attr(attrs: &Vec<Attribute>, key: &str) -> (r: Option<String>)
    ensures
        match r {
            Option::Some(v) => spec_find_attr(attrs@, key@) == Some(v@),
            Option::None => spec_find_attr(attrs@, key@) is None,
        },
{
    let n: usize = attrs.len();
    let mut i: usize = 0;
    proof {
        assert(attrs@.skip(0) =~= attrs@);
    }
    while i < n
        invariant
            i <= n,
            n == attrs@.len(),
            spec_find_attr(attrs@, key@) == spec_find_attr(attrs@.skip(i as int), key@),
        decreases n - i,
    {
        if str_eq(attrs[i].key.as_str(), key) {
            proof {
                let s = attrs@.skip(i as int);
                assert(s[0] == attrs@[i as int]);
            }
            return Some(attrs[i].value.clone());
        }
        proof {
            lemma_find_attr_step(attrs@, key@, i as int);
        }
        i += 1;
    }
    proof {
        assert(attrs@.skip(n as int).len() == 0);
    }
    None
}

/// Look up `key` and parse its value as a decimal `u32`, telling a missing
/// entry apart from an unparsable one.
pub fn lookup_u32(attrs: &Vec<Attribute>, key: &str) -> (r: AttrLookup)
    ensures
        r == spec_lookup_u32(attrs@, key@),
{
    match find_attr(attrs, key) {
        Option::None => AttrLookup::Missing,
        Option::Some(v) => match parse_u32(v.as_str()) {
            Option::None => AttrLookup::Unparsable,
            Option::Some(n) => AttrLookup::Found(n),
        },
    }
}

} // verus!
