//! Byte strings: copies between slices and arrays, and the numbers that they spell.
use vstd::prelude::*;

verus! {

/// The number that bytes spell with the most significant byte first.
pub open spec fn be_value(bytes: Seq<u8>) -> nat
    decreases bytes.len(),
{
    if bytes.len() == 0 {
        0
    } else {
        256 * be_value(bytes.drop_last()) + bytes.last() as nat
    }
}

/// The last `len` bytes of a number, the most significant byte first.
pub open spec fn be_digits(n: nat, len: nat) -> Seq<u8>
    decreases len,
{
    if len == 0 {
        seq![]
    } else {
        be_digits(n / 256, (len - 1) as nat).push((n % 256) as u8)
    }
}

/// Bytes are the digits of the number that they spell.
pub(crate) proof fn lemma_be_digits(bytes: Seq<u8>)
    ensures
        be_digits(be_value(bytes), bytes.len()) == bytes,
    decreases bytes.len(),
{
    if bytes.len() > 0 {
        let n = be_value(bytes);
        let front = bytes.drop_last();
        lemma_be_digits(front);
        assert(n == 256 * be_value(front) + bytes.last() as nat);
        assert(n / 256 == be_value(front) && n % 256 == bytes.last() as nat);
        assert(be_digits(n, bytes.len()) =~= front.push(bytes.last()));
        assert(front.push(bytes.last()) =~= bytes);
    } else {
        assert(be_digits(be_value(bytes), 0) =~= bytes);
    }
}

/// Powers of 256.
pub open spec fn pow256(e: nat) -> nat
    decreases e,
{
    if e == 0 {
        1
    } else {
        256 * pow256((e - 1) as nat)
    }
}

/// The digits of a number that they can hold spell the number.
pub(crate) proof fn lemma_be_value_of_digits(n: nat, len: nat)
    requires
        n < pow256(len),
    ensures
        be_digits(n, len).len() == len,
        be_value(be_digits(n, len)) == n,
    decreases len,
{
    if len > 0 {
        let front = be_digits(n / 256, (len - 1) as nat);
        lemma_be_value_of_digits(n / 256, (len - 1) as nat);
        assert(be_digits(n, len).drop_last() =~= front);
    }
}

/// Zeros spell zero.
pub(crate) proof fn lemma_be_zeros(bytes: Seq<u8>)
    requires
        forall|i: int| 0 <= i < bytes.len() ==> bytes[i] == 0,
    ensures
        be_value(bytes) == 0,
    decreases bytes.len(),
{
    if bytes.len() > 0 {
        lemma_be_zeros(bytes.drop_last());
    }
}

/// The number that bytes spell with the least significant byte first.
pub open spec fn le_value(bytes: Seq<u8>) -> nat
    decreases bytes.len(),
{
    if bytes.len() == 0 {
        0
    } else {
        bytes.first() as nat + 256 * le_value(bytes.drop_first())
    }
}

/// Bytes that may be missing, as sequences.
pub open spec fn optional_bytes<const N: usize>(bytes: Option<[u8; N]>) -> Option<Seq<u8>> {
    match bytes {
        Some(bytes) => Some(bytes@),
        None => None,
    }
}

/// The bytes of a slice as an array of the same length.
pub(crate) fn to_array<const N: usize>(bytes: &[u8]) -> (r: [u8; N])
    requires
        bytes@.len() == N,
    ensures
        r@ == bytes@,
{
    let mut r: [u8; N] = [0u8; N];
    let mut i: usize = 0;
    while i < N
        invariant
            i <= N,
            bytes@.len() == N,
            forall|j: int| 0 <= j < i ==> r@[j] == bytes@[j],
        decreases N - i,
    {
        r[i] = bytes[i];
        i = i + 1;
    }
    assert(r@ =~= bytes@);
    r
}

/// A copy of the bytes of a slice.
pub(crate) fn to_vec(bytes: &[u8]) -> (r: Vec<u8>)
    ensures
        r@ == bytes@,
{
    let mut r: Vec<u8> = Vec::new();
    r.extend_from_slice(bytes);
    assert(r@ =~= bytes@);
    r
}

/// Whether two byte strings are the same.
pub(crate) fn same_bytes(a: &[u8], b: &[u8]) -> (r: bool)
    ensures
        r == (a@ == b@),
{
    if a.len() != b.len() {
        return false;
    }
    let mut i: usize = 0;
    while i < a.len()
        invariant
            i <= a@.len(),
            a@.len() == b@.len(),
            forall|j: int| 0 <= j < i ==> a@[j] == b@[j],
        decreases a@.len() - i,
    {
        if a[i] != b[i] {
            return false;
        }
        i = i + 1;
    }
    assert(a@ =~= b@);
    true
}

} // verus!
