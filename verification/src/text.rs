//! Text helpers: comparing names, finding a name in a list, and UTF-8
//! validation of decoded bytes.
use vstd::prelude::*;
use vstd::utf8::{decode_utf8, encode_utf8, valid_utf8};

verus! {

/// The character sequences of a list of names.
pub open spec fn names_view(names: Seq<&str>) -> Seq<Seq<char>> {
    names.map_values(|s: &str| s@)
}

/// The index of the first element of `items` equal to `x`, if any.
pub open spec fn first_index_of<A>(items: Seq<A>, x: A) -> Option<int>
    decreases items.len(),
{
    if items.len() == 0 {
        None
    } else if items[0] == x {
        Some(0)
    } else {
        match first_index_of(items.drop_first(), x) {
            Some(i) => Some(i + 1),
            None => None,
        }
    }
}

pub proof fn lemma_first_index_of<A>(items: Seq<A>, x: A)
    ensures
        match first_index_of(items, x) {
            Some(i) => 0 <= i < items.len() && items[i] == x && forall|j: int|
                0 <= j < i ==> items[j] != x,
            None => forall|j: int| 0 <= j < items.len() ==> items[j] != x,
        },
    decreases items.len(),
{
    if items.len() > 0 && items[0] != x {
        let rest = items.drop_first();
        lemma_first_index_of(rest, x);
        assert forall|j: int| 1 <= j < items.len() implies items[j] == rest[j - 1] by {}
    }
}

/// Whether two strings hold the same characters, decided on their UTF-8 bytes.
pub fn str_eq(a: &str, b: &str) -> (r: bool)
    ensures
        r == (a@ == b@),
{
    let x = a.as_bytes();
    let y = b.as_bytes();
    proof {
        vstd::utf8::encode_utf8_decode_utf8(a@);
        vstd::utf8::encode_utf8_decode_utf8(b@);
    }
    if x.len() != y.len() {
        return false;
    }
    let mut i: usize = 0;
    while i < x.len()
        invariant
            x@ == encode_utf8(a@),
            y@ == encode_utf8(b@),
            x@.len() == y@.len(),
            i <= x@.len(),
            forall|j: int| 0 <= j < i ==> x@[j] == y@[j],
        decreases x@.len() - i,
    {
        if x[i] != y[i] {
            return false;
        }
        i = i + 1;
    }
    assert(x@ =~= y@);
    true
}

/// The index of the first name in `names` equal to `s`.
pub fn str_position(names: &[&str], s: &str) -> (r: Option<usize>)
    ensures
        match r {
            Some(i) => first_index_of(names_view(names@), s@) == Some(i as int),
            None => first_index_of(names_view(names@), s@) is None,
        },
{
    let ghost all = names_view(names@);
    let mut i: usize = 0;
    while i < names.len()
        invariant
            i <= names@.len(),
            all == names_view(names@),
            forall|j: int| 0 <= j < i ==> all[j] != s@,
        decreases names@.len() - i,
    {
        if str_eq(names[i], s) {
            proof {
                lemma_first_index_of(all, s@);
                lemma_first_index_unique(all, s@, i as int);
            }
            return Some(i);
        }
        i = i + 1;
    }
    proof {
        lemma_first_index_of(all, s@);
    }
    None
}

/// An element that occurs at `i`, and nowhere before, is found at `i`.
pub proof fn lemma_first_index_unique<A>(items: Seq<A>, x: A, i: int)
    requires
        0 <= i < items.len(),
        items[i] == x,
        forall|j: int| 0 <= j < i ==> items[j] != x,
    ensures
        first_index_of(items, x) == Some(i),
{
    lemma_first_index_of(items, x);
}

/// Whether two lists of names hold the same names in the same order.
pub fn names_eq(a: &[&str], b: &[&str]) -> (r: bool)
    ensures
        r == (names_view(a@) == names_view(b@)),
{
    if a.len() != b.len() {
        proof {
            assert(names_view(a@).len() != names_view(b@).len());
        }
        return false;
    }
    let mut i: usize = 0;
    while i < a.len()
        invariant
            a@.len() == b@.len(),
            i <= a@.len(),
            forall|j: int| 0 <= j < i ==> a@[j]@ == b@[j]@,
        decreases a@.len() - i,
    {
        if !str_eq(a[i], b[i]) {
            proof {
                assert(names_view(a@)[i as int] != names_view(b@)[i as int]);
            }
            return false;
        }
        i = i + 1;
    }
    assert(names_view(a@) =~= names_view(b@));
    true
}

/// Calls `std::str::from_utf8`: std documents that it returns the string that
/// the bytes encode when they are valid UTF-8, and an error otherwise.
#[verifier::external_body]
fn str_from_utf8(bytes: &[u8]) -> (r: Option<&str>)
    ensures
        r is Some <==> valid_utf8(bytes@),
        r matches Some(s) ==> s@ == decode_utf8(bytes@),
{
    std::str::from_utf8(bytes).ok()
}

/// The string that a byte sequence encodes, when it is valid UTF-8.
pub open spec fn spec_utf8_string(bytes: Seq<u8>) -> Option<Seq<char>> {
    if valid_utf8(bytes) { Some(decode_utf8(bytes)) } else { None }
}

/// Decodes bytes as a UTF-8 string.
pub fn utf8_string(bytes: &[u8]) -> (r: Option<String>)
    ensures
        match r {
            Some(s) => spec_utf8_string(bytes@) == Some(s@),
            None => spec_utf8_string(bytes@) is None,
        },
{
    match str_from_utf8(bytes) {
        Some(s) => Some(s.to_owned()),
        None => None,
    }
}

/// Decoding the UTF-8 bytes of a string gives the string back.
pub proof fn lemma_utf8_round_trip(s: Seq<char>)
    ensures
        spec_utf8_string(encode_utf8(s)) == Some(s),
{
    vstd::utf8::encode_utf8_valid_utf8(s);
    vstd::utf8::encode_utf8_decode_utf8(s);
}

} // verus!
