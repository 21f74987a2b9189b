use vstd::prelude::*;
use vstd::arithmetic::power2::pow2;
use vstd::arithmetic::power2::lemma_pow2_pos;
use vstd::arithmetic::power2::lemma2_to64;
use vstd::bits::low_bits_mask;
use vstd::bits::lemma_usize_low_bits_mask_is_mod;

verus! {

/// `n` is a power of two that a `usize` can hold.
pub open spec fn is_pow2(n: int) -> bool {
    exists|k: nat| k < usize::BITS && n == pow2(k)
}

/// Masking with `n - 1` keeps an address inside a power-of-two sized buffer and
/// agrees with reducing it modulo `n`.
pub proof fn lemma_mask_is_mod(address: usize, n: usize)
    requires
        is_pow2(n as int),
    ensures
        n >= 1,
        address & ((n - 1) as usize) == address % n,
        address % n < n,
{
    let k = choose|k: nat| k < usize::BITS && n == pow2(k);
    lemma_pow2_pos(k);
    lemma_usize_low_bits_mask_is_mod(address, k);
    assert(low_bits_mask(k) == n - 1);
}

/// The sizes of a ROM bank, of 64K of RAM and of 128K of RAM are powers of two.
pub proof fn lemma_memory_sizes_are_pow2()
    ensures
        is_pow2(0x4000),
        is_pow2(0x10000),
        is_pow2(0x20000),
{
    lemma2_to64();
    assert(pow2(14) == 0x4000);
    assert(pow2(16) == 0x10000);
    assert(pow2(17) == 0x20000);
}

} // verus!
