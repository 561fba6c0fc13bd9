use vstd::prelude::*;
use crate::io_error::IoError;
use subtle::ConstantTimeEq;
use zeroize::Zeroize;

verus! {

/// Length of a key, in bytes.
pub const KEY_LEGNTH: usize = 1024;

/// A source of cryptographically secure random bytes.
///
/// Implementations fill the whole buffer, blocking if necessary, or fail.
pub trait Rng: Sized {
    /// `true` iff the source, going from state `self` to state `next`, can
    /// have handed out `output`. An implementation may say which outputs
    /// are possible; by default any output is.
    open spec fn can_produce(&self, next: Self, output: Seq<u8>) -> bool {
        true
    }

    /// `true` iff the source, going from state `self` to state `next`, can
    /// have failed with `error`. By default any error is possible.
    open spec fn can_fail(&self, next: Self, error: IoError) -> bool {
        true
    }

    /// Fills `buf` with random bytes.
    fn getrandom(&mut self, buf: &mut [u8]) -> (r: Result<(), IoError>)
        ensures
            final(buf)@.len() == old(buf)@.len(),
            r is Ok ==> old(self).can_produce(*final(self), final(buf)@),
            r matches Err(e) ==> old(self).can_fail(*final(self), e),
    ;
}

/// A shared secret of `KEY_LEGNTH` bytes.
pub struct Key(pub(crate) [u8; KEY_LEGNTH]);

/// Byte-wise exclusive or of two byte sequences of equal length.
pub open spec fn xor_bytes(a: Seq<u8>, b: Seq<u8>) -> Seq<u8>
    recommends
        a.len() == b.len(),
{
    Seq::new(a.len(), |i: int| a[i] ^ b[i])
}

/// `true` iff every byte of `s` is zero.
pub open spec fn all_zero(s: Seq<u8>) -> bool {
    forall|i: int| 0 <= i < s.len() ==> #[trigger] s[i] == 0u8
}

/// `subtle::ConstantTimeEq::ct_eq` on byte slices, converted to `bool`.
/// The crate compares the lengths, then every byte pair without
/// short-circuiting; the claim is that the result is `true` exactly when
/// the two slices hold the same bytes.
#[verifier::external_body]
fn ct_eq_bytes(a: &[u8], b: &[u8]) -> (r: bool)
    ensures
        r == (a@ == b@),
{
    a.ct_eq(b).into()
}

/// `zeroize::Zeroize::zeroize` on a key's byte array. The crate writes the
/// default value (zero) to every byte with volatile writes; the claim is
/// that afterwards every byte is zero.
#[verifier::external_body]
fn zeroize_key_bytes(bytes: &mut [u8; KEY_LEGNTH])
    ensures
        all_zero(final(bytes)@),
{
    bytes.zeroize()
}

impl View for Key {
    type V = Seq<u8>;

    closed spec fn view(&self) -> Seq<u8> {
        self.0@
    }
}

/// Every key holds exactly `KEY_LEGNTH` bytes.
pub proof fn lemma_key_len(k: &Key)
    ensures
        k@.len() == KEY_LEGNTH,
{
}

/// Applying the same exclusive or twice gives back the original bytes.
pub proof fn lemma_xor_involution(a: Seq<u8>, b: Seq<u8>)
    requires
        a.len() == b.len(),
    ensures
        xor_bytes(xor_bytes(a, b), b) == a,
{
    assert forall|i: int| 0 <= i < a.len() implies #[trigger] xor_bytes(xor_bytes(a, b), b)[i]
        == a[i] by {
        let x = a[i];
        let y = b[i];
        assert((x ^ y) ^ y == x) by (bit_vector);
    }
    assert(xor_bytes(xor_bytes(a, b), b) =~= a);
}

/// The exclusive or of a key with itself is all zero.
pub proof fn lemma_xor_self_is_zero(a: Seq<u8>)
    ensures
        all_zero(xor_bytes(a, a)),
{
    assert forall|i: int| 0 <= i < a.len() implies #[trigger] xor_bytes(a, a)[i] == 0u8 by {
        let x = a[i];
        assert(x ^ x == 0u8) by (bit_vector);
    }
}

/// The exclusive or with an all-zero key changes nothing.
pub proof fn lemma_xor_zero_identity(a: Seq<u8>, z: Seq<u8>)
    requires
        a.len() == z.len(),
        all_zero(z),
    ensures
        xor_bytes(a, z) == a,
{
    assert forall|i: int| 0 <= i < a.len() implies #[trigger] xor_bytes(a, z)[i] == a[i] by {
        let x = a[i];
        let y = z[i];
        assert(y == 0u8 ==> x ^ y == x) by (bit_vector);
    }
    assert(xor_bytes(a, z) =~= a);
}

impl Key {
    /// A key whose bytes are all zero.
    pub fn zeroes() -> (k: Self)
        ensures
            k@.len() == KEY_LEGNTH,
            all_zero(k@),
    {
        Key([0u8; KEY_LEGNTH])
    }

    /// A key holding the given bytes.
    pub fn from_bytes(bytes: [u8; KEY_LEGNTH]) -> (k: Self)
        ensures
            k@ == bytes@,
    {
        Key(bytes)
    }

    /// The key's bytes.
    pub fn as_bytes(&self) -> (b: &[u8; KEY_LEGNTH])
        ensures
            b@ == self@,
    {
        &self.0
    }

    /// Overwrites every byte of the key with zero, in a way the compiler
    /// does not elide.
    pub fn zeroize(&mut self)
        ensures
            final(self)@.len() == KEY_LEGNTH,
            all_zero(final(self)@),
    {
        zeroize_key_bytes(&mut self.0);
    }

    /// Fills `system_key` with fresh random bytes from `rng` and makes
    /// `device_key` a copy of it: on success both keys hold the output of
    /// `rng`, on failure the error is the one `rng` reported.
    ///
    /// On failure of the random source the device key is left unchanged.
    pub fn regenerate_key_pair<R: Rng>(
        system_key: &mut Self,
        device_key: &mut Self,
        rng: &mut R,
    ) -> (r: Result<(), IoError>)
        ensures
            r is Ok ==> old(rng).can_produce(*final(rng), final(system_key)@),
            r matches Err(e) ==> old(rng).can_fail(*final(rng), e),
            r is Ok ==> final(device_key)@ == final(system_key)@,
            r is Err ==> final(device_key)@ == old(device_key)@,
            final(system_key)@.len() == KEY_LEGNTH,
            final(device_key)@.len() == KEY_LEGNTH,
    {
        let filled = rng.getrandom(&mut system_key.0);
        Key::finish_key_pair(system_key, device_key, filled)
    }

    /// Completes a key pair once `system_key` has been filled from a random
    /// source whose outcome is `filled`: on success `device_key` becomes a
    /// copy of `system_key`; on failure it is left unchanged and the
    /// source's error is returned.
    pub fn finish_key_pair(system_key: &Self, device_key: &mut Self, filled: Result<(), IoError>) -> (r:
        Result<(), IoError>)
        ensures
            r == filled,
            r is Ok ==> final(device_key)@ == system_key@,
            r is Err ==> final(device_key)@ == old(device_key)@,
            final(device_key)@.len() == KEY_LEGNTH,
    {
        if filled.is_ok() {
            device_key.0 = system_key.0;
        }
        filled
    }

    /// Replaces every byte of `self` by its exclusive or with the
    /// corresponding byte of `rhs`.
    pub fn xor(&mut self, rhs: &Key)
        ensures
            final(self)@ == xor_bytes(old(self)@, rhs@),
    {
        let ghost orig = self@;
        let mut i: usize = 0;
        while i < KEY_LEGNTH
            invariant
                0 <= i <= KEY_LEGNTH,
                orig.len() == KEY_LEGNTH,
                self@.len() == KEY_LEGNTH,
                rhs@.len() == KEY_LEGNTH,
                forall|j: int| 0 <= j < i ==> self@[j] == orig[j] ^ rhs@[j],
                forall|j: int| i <= j < KEY_LEGNTH ==> self@[j] == orig[j],
            decreases KEY_LEGNTH - i,
        {
            self.0[i] = self.0[i] ^ rhs.0[i];
            i = i + 1;
        }
        assert(self@ =~= xor_bytes(orig, rhs@));
    }

    /// Compares two keys in time independent of their contents.
    pub fn check(a: &Self, b: &Self) -> (r: bool)
        ensures
            r == (a@ == b@),
    {
        ct_eq_bytes(a.0.as_slice(), b.0.as_slice())
    }
}

} // verus!
