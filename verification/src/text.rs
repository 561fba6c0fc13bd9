use vstd::prelude::*;
use vstd::utf8::{decode_utf8, valid_utf8};

verus! {

/// `true` iff `n` is the position of the first zero byte of `buf`.
pub open spec fn is_c_string_end(buf: Seq<u8>, n: int) -> bool {
    &&& 0 <= n < buf.len()
    &&& buf[n] == 0u8
    &&& forall|k: int| 0 <= k < n ==> buf[k] != 0u8
}

/// `true` iff `buf` holds a zero byte.
pub open spec fn has_zero(buf: Seq<u8>) -> bool {
    exists|n: int| 0 <= n < buf.len() && buf[n] == 0u8
}

/// `std::string::String::from_utf8`, with the error dropped. The standard
/// library documents that it succeeds exactly when the bytes are valid
/// UTF-8 and that the string then holds those bytes; the claim states this
/// with vstd's definitions of validity and decoding.
#[verifier::external_body]
pub(crate) fn utf8_string(bytes: Vec<u8>) -> (r: Option<String>)
    ensures
        r is Some <==> valid_utf8(bytes@),
        r is Some ==> r->0@ == decode_utf8(bytes@),
{
    String::from_utf8(bytes).ok()
}

/// The bytes of a zero-terminated C string held in `buf`: everything
/// before the first zero byte.
pub fn c_string_bytes(buf: &[u8]) -> (r: Vec<u8>)
    requires
        has_zero(buf@),
    ensures
        exists|n: int| is_c_string_end(buf@, n) && r@ == buf@.take(n),
{
    let mut r: Vec<u8> = Vec::new();
    let mut i: usize = 0;
    while buf[i] != 0
        invariant
            0 <= i < buf@.len(),
            has_zero(buf@),
            forall|k: int| 0 <= k < i ==> buf@[k] != 0u8,
            r@ == buf@.take(i as int),
        decreases buf@.len() - i,
    {
        r.push(buf[i]);
        i = i + 1;
        proof {
            if i == buf@.len() {
                let n = choose|n: int| 0 <= n < buf@.len() && buf@[n] == 0u8;
                assert(false);
            }
        }
        assert(r@ =~= buf@.take(i as int));
    }
    assert(is_c_string_end(buf@, i as int));
    r
}

/// Appends `piece` to `s`.
pub(crate) fn push_text(s: &mut String, piece: &str)
    ensures
        final(s)@ == old(s)@ + piece@,
{
    s.append(piece);
}

} // verus!
