//! Text handling for the wire formats: fixed-width name fields hold bytes
//! that are truncated at the first NUL and then decoded as UTF-8, replacing
//! invalid sequences. Case folding and substring search support the model
//! classification heuristic.

use vstd::prelude::*;

verus! {

/// Index of the first NUL byte, or the length when none occurs.
pub open spec fn spec_first_nul(bytes: Seq<u8>) -> int
    decreases bytes.len(),
{
    if bytes.len() == 0 {
        0
    } else if bytes[0] == 0 {
        0
    } else {
        1 + spec_first_nul(bytes.drop_first())
    }
}

pub proof fn lemma_first_nul_bounds(bytes: Seq<u8>)
    ensures
        0 <= spec_first_nul(bytes) <= bytes.len(),
        forall|i: int| 0 <= i < spec_first_nul(bytes) ==> bytes[i] != 0,
        spec_first_nul(bytes) < bytes.len() ==> bytes[spec_first_nul(bytes)] == 0,
    decreases bytes.len(),
{
    if bytes.len() == 0 {
    } else if bytes[0] == 0 {
    } else {
        lemma_first_nul_bounds(bytes.drop_first());
        assert forall|i: int| 0 <= i < spec_first_nul(bytes) implies bytes[i] != 0 by {
            if i > 0 {
                assert(bytes[i] == bytes.drop_first()[i - 1]);
            }
        }
    }
}

/// The prefix of a name field before its first NUL byte.
pub open spec fn spec_nul_trunc(bytes: Seq<u8>) -> Seq<u8> {
    bytes.take(spec_first_nul(bytes))
}

/// What `String::from_utf8_lossy` decodes a byte run to. The result is a
/// function of the bytes alone; on valid UTF-8 it is pinned exactly below.
pub uninterp spec fn lossy_utf8(bytes: Seq<u8>) -> Seq<char>;

/// What `str::to_lowercase` maps a character sequence to. The result is a
/// function of the characters alone.
pub uninterp spec fn lower_of(s: Seq<char>) -> Seq<char>;

/// Whether `needle` occurs as a contiguous run inside `s`.
pub open spec fn spec_contains_seq(s: Seq<char>, needle: Seq<char>) -> bool {
    exists|i: int|
        0 <= i && i + needle.len() <= s.len() && #[trigger] s.subrange(i, i + needle.len())
            == needle
}

/// Relies on `String::from_utf8_lossy`: decodes UTF-8, replacing invalid
/// sequences; on valid UTF-8 the result is exactly the decoded scalars.
#[verifier::external_body]
pub(crate) fn lossy_string(bytes: &[u8]) -> (r: String)
    ensures
        r@ == lossy_utf8(bytes@),
        vstd::utf8::valid_utf8(bytes@) ==> r@ == vstd::utf8::decode_utf8(bytes@),
{
    String::from_utf8_lossy(bytes).into_owned()
}

/// Relies on `str::to_lowercase`: the result depends on the characters alone.
#[verifier::external_body]
pub(crate) fn lowercase(s: &str) -> (r: String)
    ensures
        r@ == lower_of(s@),
{
    s.to_lowercase()
}

/// Relies on `str::contains`: true exactly when the pattern occurs as a
/// substring of the receiver.
#[verifier::external_body]
pub(crate) fn str_contains(s: &str, needle: &str) -> (r: bool)
    ensures
        r == spec_contains_seq(s@, needle@),
{
    s.contains(needle)
}

/// Decodes a fixed-width name field: the bytes before the first NUL,
/// read as UTF-8 with invalid sequences replaced.
pub open spec fn spec_field_text(bytes: Seq<u8>) -> Seq<char> {
    lossy_utf8(spec_nul_trunc(bytes))
}

/// Builds the text of a name field from its raw bytes.
pub(crate) fn field_text(bytes: &Vec<u8>) -> (r: String)
    ensures
        r@ == spec_field_text(bytes@),
{
    let n = bytes.len();
    let mut cut: usize = 0;
    while cut < n && bytes[cut] != 0
        invariant
            0 <= cut <= n,
            n == bytes@.len(),
            forall|j: int| 0 <= j < cut ==> bytes@[j] != 0,
        decreases n - cut,
    {
        cut += 1;
    }
    proof {
        lemma_first_nul_bounds(bytes@);
        let f = spec_first_nul(bytes@);
        if f < cut as int {
            assert(bytes@[f] != 0);
            assert(false);
        }
        if f > cut as int {
            assert(bytes@[cut as int] != 0);
            assert(false);
        }
    }
    let mut head: Vec<u8> = Vec::new();
    let mut k: usize = 0;
    while k < cut
        invariant
            0 <= k <= cut <= n,
            n == bytes@.len(),
            head@ == bytes@.subrange(0, k as int),
        decreases cut - k,
    {
        let b = bytes[k];
        head.push(b);
        proof {
            assert(head@ =~= bytes@.subrange(0, k + 1 as int));
        }
        k += 1;
    }
    proof {
        assert(head@ =~= spec_nul_trunc(bytes@));
    }
    lossy_string(head.as_slice())
}

} // verus!
