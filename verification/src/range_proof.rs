//! The range that a range proof proves, as the first bytes of the proof tell it.
use crate::bytes::{be_value, pow256};
use vstd::arithmetic::power::{lemma_pow_positive, pow};
use vstd::arithmetic::power2::{lemma2_to64, lemma_pow2_strictly_increases, lemma_pow2_unfold, pow2};
use vstd::prelude::*;

verus! {

/// How far the range reaches above its least value: the mantissa has as many bits as the second
/// byte says, and is scaled by the power of ten that the first byte holds. A proof of a single
/// value has no mantissa.
pub open spec fn range_width(proof: Seq<u8>) -> int {
    if proof[0] / 64 % 2 == 1 {
        (pow2((proof[1] + 1) as nat) - 1) * pow(10, (proof[0] % 32) as nat)
    } else {
        0
    }
}

/// The least value of the range, which stands behind the first one or two bytes where a flag
/// says so, and is zero otherwise.
pub open spec fn range_least(proof: Seq<u8>) -> int {
    let at: int = if proof[0] / 64 % 2 == 1 {
        2
    } else {
        1
    };
    if proof[0] / 32 % 2 == 1 {
        be_value(proof.subrange(at, at + 8)) as int
    } else {
        0
    }
}

/// The greatest value of the range that a proof proves, where its first bytes are ones that a
/// proof can have: no value is above what 64 bits hold.
pub open spec fn range_top(proof: Seq<u8>) -> Option<int> {
    if proof.len() < 65 || proof[0] >= 128 {
        None
    } else if proof[0] / 64 % 2 == 1 && (proof[0] % 32 > 18 || proof[1] > 63) {
        None
    } else if range_width(proof) + range_least(proof) > u64::MAX {
        None
    } else {
        Some(range_width(proof) + range_least(proof))
    }
}

/// The largest number of some bits.
fn all_ones(bits: u8) -> (r: u64)
    requires
        1 <= bits <= 64,
    ensures
        r == pow2(bits as nat) - 1,
    decreases bits,
{
    proof {
        lemma2_to64();
        lemma_pow2_unfold(bits as nat);
    }
    if bits == 1 {
        1
    } else {
        let half = all_ones(bits - 1);
        proof {
            if bits < 64 {
                lemma_pow2_strictly_increases(bits as nat, 64);
            }
        }
        2 * half + 1
    }
}

/// A number times a power of ten, or `None` where 64 bits do not hold it.
fn scaled(n: u64, exp: u8) -> (r: Option<u64>)
    ensures
        match r {
            Some(m) => m == n * pow(10, exp as nat),
            None => n * pow(10, exp as nat) > u64::MAX,
        },
    decreases exp,
{
    proof {
        reveal(pow);
    }
    if exp == 0 {
        assert(n * pow(10, 0) == n) by (nonlinear_arith)
            requires
                pow(10, 0) == 1,
        ;
        return Some(n);
    }
    let ghost rest = pow(10, (exp - 1) as nat);
    proof {
        lemma_pow_positive(10, (exp - 1) as nat);
        assert(n * (10 * rest) == (10 * n) * rest) by (nonlinear_arith);
    }
    if n > 0xffff_ffff_ffff_ffff / 10 {
        assert((10 * n) * rest >= 10 * n) by (nonlinear_arith)
            requires
                rest >= 1,
        ;
        return None;
    }
    scaled(10 * n, exp - 1)
}

/// Powers of 256 grow.
proof fn lemma_pow256_grows(a: nat, b: nat)
    requires
        a <= b,
    ensures
        pow256(a) <= pow256(b),
    decreases b,
{
    if a < b {
        lemma_pow256_grows(a, (b - 1) as nat);
    }
}

/// The number that eight bytes spell, from a place on.
fn u64_at(bytes: &[u8], at: usize) -> (r: u64)
    requires
        at + 8 <= bytes@.len(),
    ensures
        r == be_value(bytes@.subrange(at as int, at + 8)),
{
    let len: usize = bytes.len();
    let mut n: u64 = 0;
    let mut i: usize = 0;
    assert(pow256(8) == 0x1_0000_0000_0000_0000) by {
        reveal_with_fuel(pow256, 9);
    }
    assert(pow256(0) == 1);
    while i < 8
        invariant
            i <= 8,
            at + 8 <= len == bytes@.len(),
            n == be_value(bytes@.subrange(at as int, at + i)),
            n < pow256(i as nat),
            pow256(8) == 0x1_0000_0000_0000_0000,
        decreases 8 - i,
    {
        let ghost front = bytes@.subrange(at as int, at + i);
        proof {
            lemma_pow256_grows((i + 1) as nat, 8);
            let next = bytes@.subrange(at as int, at + i + 1);
            assert(next.drop_last() =~= front);
        }
        n = 256 * n + bytes[at + i] as u64;
        i = i + 1;
    }
    n
}

/// The greatest value of the range that a proof proves.
pub(crate) fn read_range_top(proof: &[u8]) -> (r: Option<u64>)
    ensures
        match r {
            Some(top) => range_top(proof@) == Some(top as int),
            None => range_top(proof@) is None,
        },
{
    if proof.len() < 65 || proof[0] >= 128 {
        return None;
    }
    let is_wide = proof[0] / 64 % 2 == 1;
    let mut width: u64 = 0;
    if is_wide {
        if proof[0] % 32 > 18 || proof[1] > 63 {
            return None;
        }
        width = match scaled(all_ones(proof[1] + 1), proof[0] % 32) {
            Some(width) => width,
            None => return None,
        };
    }
    let mut least: u64 = 0;
    if proof[0] / 32 % 2 == 1 {
        least = if is_wide {
            u64_at(proof, 2)
        } else {
            u64_at(proof, 1)
        };
    }
    width.checked_add(least)
}

} // verus!
