use vstd::prelude::*;
use vstd::string::*;
use vstd::utf8::*;

verus! {

/// The bytes that an optional buffer holds, if it holds any.
pub open spec fn held(bytes: Option<Vec<u8>>) -> Option<Seq<u8>> {
    match bytes {
        Some(b) => Some(b@),
        None => None,
    }
}

/// True where the two slices hold the same bytes.
pub fn bytes_equal(left: &[u8], right: &[u8]) -> (same: bool)
    ensures
        same == (left@ == right@),
{
    if left.len() != right.len() {
        return false;
    }
    let mut i: usize = 0;
    while i < left.len()
        invariant
            i <= left@.len(),
            left@.len() == right@.len(),
            forall|j: int| 0 <= j < i ==> left@[j] == right@[j],
        decreases left@.len() - i,
    {
        if left[i] != right[i] {
            return false;
        }
        i += 1;
    }
    assert(left@ =~= right@);
    true
}

/// Folding the difference of two bytes into an accumulator leaves it zero
/// exactly when it was zero and the bytes are equal.
proof fn lemma_fold_difference(acc: u8, a: u8, b: u8)
    ensures
        ((acc | (a ^ b)) == 0) <==> (acc == 0 && a == b),
{
    assert(((acc | (a ^ b)) == 0) <==> (acc == 0 && a == b)) by (bit_vector);
}

/// True where the two slices hold the same bytes. For slices of one length
/// the time taken does not depend on where they differ: every pair of bytes
/// is looked at.
pub fn fixed_time_equal(left: &[u8], right: &[u8]) -> (same: bool)
    ensures
        same == (left@ == right@),
{
    if left.len() != right.len() {
        return false;
    }
    let mut difference: u8 = 0;
    let mut i: usize = 0;
    while i < left.len()
        invariant
            i <= left@.len(),
            left@.len() == right@.len(),
            difference == 0 <==> (forall|j: int| 0 <= j < i ==> left@[j] == right@[j]),
        decreases left@.len() - i,
    {
        proof {
            lemma_fold_difference(difference, left@[i as int], right@[i as int]);
        }
        difference = difference | (left[i] ^ right[i]);
        i += 1;
    }
    proof {
        if difference == 0 {
            assert(left@ =~= right@);
        }
    }
    difference == 0
}

/// Says whether two strings hold the same characters.
pub fn same_text(left: &str, right: &str) -> (same: bool)
    ensures
        same == (left@ == right@),
{
    proof {
        encode_utf8_decode_utf8(left@);
        encode_utf8_decode_utf8(right@);
    }
    bytes_equal(left.as_bytes(), right.as_bytes())
}

} // verus!
