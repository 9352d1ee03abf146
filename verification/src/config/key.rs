//! Configuration keys are matched regardless of case, and with `-` for `_`.

use vstd::prelude::*;
use vstd::string::StringSliceAdditionalSpecFns;

verus! {

/// One byte of a key in its normal form: upper-case ASCII letters become
/// lower-case, `-` becomes `_`.
pub open spec fn normal_byte(b: u8) -> u8 {
    if 0x41 <= b <= 0x5a {
        (b + 32) as u8
    } else if b == 0x2d {
        0x5fu8
    } else {
        b
    }
}

/// A key in its normal form.
pub open spec fn normal_key(k: Seq<u8>) -> Seq<u8> {
    Seq::new(k.len(), |i: int| normal_byte(k[i]))
}

/// The normal form of `k`, as bytes.
pub fn normalize(k: &str) -> (r: Vec<u8>)
    ensures
        r@ == normal_key(k.spec_bytes()),
{
    let bytes = k.as_bytes();
    let mut r: Vec<u8> = Vec::with_capacity(bytes.len());
    let mut i: usize = 0;
    while i < bytes.len()
        invariant
            i <= bytes@.len(),
            r@.len() == i,
            forall|j: int| 0 <= j < i ==> r@[j] == normal_byte(bytes@[j]),
        decreases bytes@.len() - i,
    {
        let b: u8 = bytes[i];
        let n: u8 = if 0x41 <= b && b <= 0x5a {
            b + 32
        } else if b == 0x2d {
            0x5f
        } else {
            b
        };
        r.push(n);
        i = i + 1;
    }
    assert(r@ =~= normal_key(k.spec_bytes()));
    r
}

/// Whether two byte strings are the same.
pub fn bytes_eq(a: &[u8], b: &[u8]) -> (r: bool)
    ensures
        r == (a@ == b@),
{
    if a.len() != b.len() {
        return false;
    }
    let mut i: usize = 0;
    while i < a.len()
        invariant
            a@.len() == b@.len(),
            i <= a@.len(),
            forall|j: int| 0 <= j < i ==> a@[j] == b@[j],
        decreases a@.len() - i,
    {
        if a[i] != b[i] {
            return false;
        }
        i = i + 1;
    }
    assert(a@ =~= b@);
    true
}

/// Whether the normal form `n` of a key is the key `name`.
pub fn key_is(n: &Vec<u8>, name: &str) -> (r: bool)
    ensures
        r == (n@ == name.spec_bytes()),
{
    bytes_eq(n.as_slice(), name.as_bytes())
}

/// Normalizing twice is normalizing once.
pub proof fn lemma_normal_key_idempotent(k: Seq<u8>)
    ensures
        normal_key(normal_key(k)) == normal_key(k),
{
    assert(normal_key(normal_key(k)) =~= normal_key(k));
}

} // verus!
