//! Method selectors of the precompile backend: the name table and the
//! fixed-width field that carries a name during the handshake.
use vstd::prelude::*;

verus! {

/// Width of the selector field sent once per session.
pub const SELECTOR_FIELD_LEN: usize = 64;

/// The address of the precompile that a method name selects.
pub open spec fn precompile_address(name: Seq<char>) -> Option<u64> {
    if name == "ecrecover"@ {
        Some(1)
    } else if name == "sha256"@ {
        Some(2)
    } else if name == "ripemd160"@ {
        Some(3)
    } else if name == "dataCopy"@ {
        Some(4)
    } else if name == "bigModExp"@ {
        Some(5)
    } else if name == "bn256Add"@ {
        Some(6)
    } else if name == "bn256ScalarMul"@ {
        Some(7)
    } else if name == "bn256Pairing"@ {
        Some(8)
    } else if name == "blake2F"@ {
        Some(9)
    } else if name == "kzgPointEvaluation"@ {
        Some(10)
    } else if name == "bls12381G1Add"@ {
        Some(11)
    } else if name == "bls12381G1MultiExp"@ {
        Some(12)
    } else if name == "bls12381G2Add"@ {
        Some(13)
    } else if name == "bls12381G2MultiExp"@ {
        Some(14)
    } else if name == "bls12381Pairing"@ {
        Some(15)
    } else if name == "bls12381MapG1"@ {
        Some(16)
    } else if name == "bls12381MapG2"@ {
        Some(17)
    } else {
        None
    }
}

/// Whether two strings hold the same characters.
pub fn same_text(a: &str, b: &str) -> (r: bool)
    ensures
        r == (a@ == b@),
{
    let n = a.unicode_len();
    if n != b.unicode_len() {
        return false;
    }
    let mut i: usize = 0;
    while i < n
        invariant
            n == a@.len() == b@.len(),
            i <= n,
            forall|j: int| 0 <= j < i ==> a@[j] == b@[j],
        decreases n - i,
    {
        if a.get_char(i) != b.get_char(i) {
            return false;
        }
        i = i + 1;
    }
    assert(a@ =~= b@);
    true
}

/// Looks a method name up in the precompile table.
pub fn lookup_precompile(name: &str) -> (r: Option<u64>)
    ensures
        r == precompile_address(name@),
{
    if same_text(name, "ecrecover") {
        Some(1)
    } else if same_text(name, "sha256") {
        Some(2)
    } else if same_text(name, "ripemd160") {
        Some(3)
    } else if same_text(name, "dataCopy") {
        Some(4)
    } else if same_text(name, "bigModExp") {
        Some(5)
    } else if same_text(name, "bn256Add") {
        Some(6)
    } else if same_text(name, "bn256ScalarMul") {
        Some(7)
    } else if same_text(name, "bn256Pairing") {
        Some(8)
    } else if same_text(name, "blake2F") {
        Some(9)
    } else if same_text(name, "kzgPointEvaluation") {
        Some(10)
    } else if same_text(name, "bls12381G1Add") {
        Some(11)
    } else if same_text(name, "bls12381G1MultiExp") {
        Some(12)
    } else if same_text(name, "bls12381G2Add") {
        Some(13)
    } else if same_text(name, "bls12381G2MultiExp") {
        Some(14)
    } else if same_text(name, "bls12381Pairing") {
        Some(15)
    } else if same_text(name, "bls12381MapG1") {
        Some(16)
    } else if same_text(name, "bls12381MapG2") {
        Some(17)
    } else {
        None
    }
}

/// Padding bytes of the selector field: NUL and ASCII whitespace.
pub open spec fn is_padding(b: u8) -> bool {
    b == 0u8 || b == 32u8 || (9u8 <= b && b <= 13u8)
}

/// Whether `t` is `s` with padding taken off both ends.
pub open spec fn is_trimmed_of(s: Seq<u8>, t: Seq<u8>) -> bool {
    exists|lo: int, hi: int|
        0 <= lo <= hi <= s.len() && t == s.subrange(lo, hi) && (forall|k: int|
            0 <= k < lo ==> is_padding(#[trigger] s[k])) && (forall|k: int|
            hi <= k < s.len() ==> is_padding(#[trigger] s[k])) && (lo < hi ==> !is_padding(s[lo])
            && !is_padding(s[hi - 1]))
}

/// The field with leading and trailing padding removed.
pub fn trim_field(field: &[u8]) -> (r: Vec<u8>)
    ensures
        is_trimmed_of(field@, r@),
{
    let n = field.len();
    let mut lo: usize = 0;
    while lo < n && is_padding_byte(field[lo])
        invariant
            lo <= n == field@.len(),
            forall|k: int| 0 <= k < lo ==> is_padding(#[trigger] field@[k]),
        decreases n - lo,
    {
        lo = lo + 1;
    }
    let mut hi: usize = n;
    while hi > lo && is_padding_byte(field[hi - 1])
        invariant
            lo <= hi <= n == field@.len(),
            forall|k: int| hi <= k < n ==> is_padding(#[trigger] field@[k]),
        decreases hi,
    {
        hi = hi - 1;
    }
    let mut out: Vec<u8> = Vec::new();
    let mut i: usize = lo;
    while i < hi
        invariant
            lo <= i <= hi <= n == field@.len(),
            out@ == field@.subrange(lo as int, i as int),
        decreases hi - i,
    {
        out.push(field[i]);
        i = i + 1;
        assert(out@ =~= field@.subrange(lo as int, i as int));
    }
    assert(is_trimmed_of(field@, out@)) by {
        assert(0 <= lo <= hi <= field@.len());
    }
    out
}

fn is_padding_byte(b: u8) -> (r: bool)
    ensures
        r == is_padding(b),
{
    b == 0u8 || b == 32u8 || (9u8 <= b && b <= 13u8)
}

/// The precompile table knows no method of that name.
pub proof fn lemma_unknown_name()
    ensures
        precompile_address("not-a-real-method"@) is None,
{
    reveal_strlit("not-a-real-method");
    reveal_strlit("ecrecover");
    reveal_strlit("sha256");
    reveal_strlit("ripemd160");
    reveal_strlit("dataCopy");
    reveal_strlit("bigModExp");
    reveal_strlit("bn256Add");
    reveal_strlit("bn256ScalarMul");
    reveal_strlit("bn256Pairing");
    reveal_strlit("blake2F");
    reveal_strlit("kzgPointEvaluation");
    reveal_strlit("bls12381G1Add");
    reveal_strlit("bls12381G1MultiExp");
    reveal_strlit("bls12381G2Add");
    reveal_strlit("bls12381G2MultiExp");
    reveal_strlit("bls12381Pairing");
    reveal_strlit("bls12381MapG1");
    reveal_strlit("bls12381MapG2");
    assert("ecrecover"@.len() != "not-a-real-method"@.len());
    assert("sha256"@.len() != "not-a-real-method"@.len());
    assert("ripemd160"@.len() != "not-a-real-method"@.len());
    assert("dataCopy"@.len() != "not-a-real-method"@.len());
    assert("bigModExp"@.len() != "not-a-real-method"@.len());
    assert("bn256Add"@.len() != "not-a-real-method"@.len());
    assert("bn256ScalarMul"@.len() != "not-a-real-method"@.len());
    assert("bn256Pairing"@.len() != "not-a-real-method"@.len());
    assert("blake2F"@.len() != "not-a-real-method"@.len());
    assert("kzgPointEvaluation"@.len() != "not-a-real-method"@.len());
    assert("bls12381G1Add"@.len() != "not-a-real-method"@.len());
    assert("bls12381G1MultiExp"@.len() != "not-a-real-method"@.len());
    assert("bls12381G2Add"@.len() != "not-a-real-method"@.len());
    assert("bls12381G2MultiExp"@.len() != "not-a-real-method"@.len());
    assert("bls12381Pairing"@.len() != "not-a-real-method"@.len());
    assert("bls12381MapG1"@.len() != "not-a-real-method"@.len());
    assert("bls12381MapG2"@.len() != "not-a-real-method"@.len());
}

} // verus!

verus! {

/// What UTF-8 decoding with replacement of invalid sequences makes of bytes.
pub uninterp spec fn utf8_lossy(b: Seq<u8>) -> Seq<char>;

/// Relies on std's `String::from_utf8_lossy`: decodes UTF-8, replacing each
/// invalid sequence; the result depends on the bytes alone.
#[verifier::external_body]
fn decode_lossy(b: &[u8]) -> (r: String)
    ensures
        r@ == utf8_lossy(b@),
        b@.len() == 0 ==> r@.len() == 0,
{
    String::from_utf8_lossy(b).into_owned()
}

/// The method name carried by a selector field: the field with its padding
/// trimmed, decoded as UTF-8.
pub fn selector_from_field(field: &[u8]) -> (r: String)
    ensures
        exists|t: Seq<u8>| is_trimmed_of(field@, t) && r@ == utf8_lossy(t),
{
    let t = trim_field(field);
    decode_lossy(t.as_slice())
}

} // verus!
