//! Size checks of the spectrum analysis.
use vstd::arithmetic::power2::{lemma_pow2_pos, lemma_pow2_strictly_increases, lemma_pow2_unfold, pow2};
use vstd::prelude::*;

verus! {

/// Smallest transform size the analysis accepts.
pub const MIN_FFT_SIZE: usize = 64;

/// Whether `n` is a power of two.
pub open spec fn is_power_of_two(n: nat) -> bool {
    exists|k: nat| n == pow2(k)
}

/// Whether `n` is a transform size the analysis accepts: a power of two of
/// at least 64.
pub open spec fn valid_fft_size(n: nat) -> bool {
    is_power_of_two(n) && n >= MIN_FFT_SIZE
}

/// Whether `n` is a power of two.
pub fn power_of_two(n: usize) -> (b: bool)
    ensures
        b == is_power_of_two(n as nat),
{
    if n == 0 {
        assert forall|k: nat| pow2(k) != 0 by {
            lemma_pow2_pos(k);
        }
        return false;
    }
    let mut p: usize = 1;
    let ghost mut k: nat = 0;
    proof {
        vstd::arithmetic::power2::lemma2_to64();
    }
    while p < n && p <= usize::MAX / 2
        invariant
            n >= 1,
            p >= 1,
            p as nat == pow2(k),
            k == 0 || pow2((k - 1) as nat) < n,
        decreases usize::MAX - p,
    {
        proof {
            lemma_pow2_unfold(k + 1);
        }
        p = p * 2;
        proof {
            k = k + 1;
        }
    }
    if p == n {
        return true;
    }
    // No power of two equals n: those up to 2^(k-1) are below it, and those
    // from the first one past it on are above it.
    let ghost bound: nat = if p > n { k } else { k + 1 };
    proof {
        lemma_pow2_unfold(k + 1);
        assert(pow2(bound) > n);
        assert(bound == 0 || pow2((bound - 1) as nat) < n);
        assert forall|j: nat| pow2(j) != n by {
            if j < bound {
                if j < bound - 1 {
                    lemma_pow2_strictly_increases(j, (bound - 1) as nat);
                }
            } else if j > bound {
                lemma_pow2_strictly_increases(bound, j);
            }
        }
    }
    false
}

/// Number of spectrum bins, `fft_size / 2 + 1`, for an accepted transform
/// size; `None` when the size is not a power of two of at least 64.
pub fn fft_bin_count(fft_size: usize) -> (bins: Option<usize>)
    ensures
        valid_fft_size(fft_size as nat) ==> bins == Some((fft_size / 2 + 1) as usize),
        !valid_fft_size(fft_size as nat) ==> bins is None,
{
    if !power_of_two(fft_size) || fft_size < MIN_FFT_SIZE {
        None
    } else {
        Some(fft_size / 2 + 1)
    }
}

} // verus!
