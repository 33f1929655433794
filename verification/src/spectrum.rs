//! Magnitudes of transform bins.
//!
//! The Fourier transform itself runs outside this crate. What comes back is a
//! sequence of complex bins with integer parts; this module turns them into
//! the magnitude spectrum `|X_k| = sqrt(re_k^2 + im_k^2)`, rounded down.

use vstd::prelude::*;

verus! {

/// One output slot of the transform: a complex number with integer parts.
#[derive(Clone, Copy, Debug, PartialEq, Eq, Structural)]
pub struct Bin {
    pub re: i64,
    pub im: i64,
}

/// `re^2 + im^2`, the squared magnitude of a bin.
pub open spec fn energy(bin: Bin) -> nat {
    (bin.re * bin.re + bin.im * bin.im) as nat
}

/// `root` is the square root of `n`, rounded down.
pub open spec fn is_floor_sqrt(root: nat, n: nat) -> bool {
    root * root <= n < (root + 1) * (root + 1)
}

/// The square root of `n`, rounded down.
pub open spec fn floor_sqrt(n: nat) -> nat {
    choose|root: nat| is_floor_sqrt(root, n)
}

/// The magnitude of a bin, rounded down to a whole number.
pub open spec fn magnitude_spec(bin: Bin) -> u64 {
    floor_sqrt(energy(bin)) as u64
}

/// The magnitude spectrum of a sequence of bins: one magnitude per bin, in
/// bin order.
pub open spec fn magnitudes_spec(bins: Seq<Bin>) -> Seq<u64> {
    Seq::new(bins.len(), |k: int| magnitude_spec(bins[k]))
}

/// Squaring preserves order on the natural numbers.
proof fn lemma_square_monotone(a: nat, b: nat)
    requires
        a <= b,
    ensures
        a * a <= b * b,
{
    assert(a * a <= b * b) by (nonlinear_arith)
        requires
            a <= b,
    ;
}

/// At most one number is the rounded-down square root of `n`, so whatever
/// satisfies `is_floor_sqrt` is `floor_sqrt(n)`.
pub proof fn lemma_floor_sqrt_unique(root: nat, n: nat)
    requires
        is_floor_sqrt(root, n),
    ensures
        floor_sqrt(n) == root,
{
    let chosen = floor_sqrt(n);
    assert(is_floor_sqrt(chosen, n));
    if chosen < root {
        lemma_square_monotone(chosen + 1, root);
    } else if root < chosen {
        lemma_square_monotone(root + 1, chosen);
    }
}

/// The energy of a bin is non-negative and stays below `2^127`, so its square
/// root fits in 64 bits.
proof fn lemma_energy_bound(bin: Bin)
    ensures
        0 <= bin.re * bin.re + bin.im * bin.im
            <= 0x8000_0000_0000_0000_0000_0000_0000_0000int,
{
    let re = bin.re as int;
    let im = bin.im as int;
    assert(0 <= re * re <= 0x4000_0000_0000_0000_0000_0000_0000_0000int) by (nonlinear_arith)
        requires
            -0x8000_0000_0000_0000int <= re <= 0x8000_0000_0000_0000int,
    ;
    assert(0 <= im * im <= 0x4000_0000_0000_0000_0000_0000_0000_0000int) by (nonlinear_arith)
        requires
            -0x8000_0000_0000_0000int <= im <= 0x8000_0000_0000_0000int,
    ;
}

/// Every natural number has a rounded-down square root.
proof fn lemma_floor_sqrt_exists(n: nat) -> (root: nat)
    ensures
        is_floor_sqrt(root, n),
    decreases n,
{
    if n == 0 {
        assert(is_floor_sqrt(0, 0)) by (nonlinear_arith);
        0
    } else {
        let below = lemma_floor_sqrt_exists((n - 1) as nat);
        let next = below + 1;
        if next * next <= n {
            assert(next * next <= n < (next + 1) * (next + 1)) by (nonlinear_arith)
                requires
                    next * next <= n,
                    n - 1 < next * next,
            ;
            next
        } else {
            below
        }
    }
}

/// `floor_sqrt(n)` is the rounded-down square root of `n`.
pub proof fn lemma_floor_sqrt_is_root(n: nat)
    ensures
        is_floor_sqrt(floor_sqrt(n), n),
{
    let root = lemma_floor_sqrt_exists(n);
    lemma_floor_sqrt_unique(root, n);
}

/// The magnitude of a bin is the rounded-down square root of its energy: the
/// root always exists and fits in 64 bits.
pub proof fn lemma_magnitude_is_floor_sqrt(bin: Bin)
    ensures
        is_floor_sqrt(magnitude_spec(bin) as nat, energy(bin)),
        magnitude_spec(bin) == floor_sqrt(energy(bin)),
{
    lemma_energy_bound(bin);
    let root = lemma_floor_sqrt_exists(energy(bin));
    lemma_floor_sqrt_unique(root, energy(bin));
    if root >= 0x1_0000_0000_0000_0000 {
        lemma_square_monotone(0x1_0000_0000_0000_0000, root);
        assert(0x1_0000_0000_0000_0000int * 0x1_0000_0000_0000_0000int
            == 0x1_0000_0000_0000_0000_0000_0000_0000_0000int) by (nonlinear_arith);
    }
}

/// A bin with no energy has magnitude zero, and only such a bin has.
pub proof fn lemma_zero_bin_has_zero_magnitude(bin: Bin)
    ensures
        (bin.re == 0 && bin.im == 0) <==> magnitude_spec(bin) == 0,
{
    lemma_magnitude_is_floor_sqrt(bin);
    let re = bin.re as int;
    let im = bin.im as int;
    let root = magnitude_spec(bin) as nat;
    if bin.re == 0 && bin.im == 0 {
        assert(re * re + im * im == 0) by (nonlinear_arith)
            requires
                re == 0,
                im == 0,
        ;
        assert(root == 0) by (nonlinear_arith)
            requires
                root * root <= 0,
        ;
    } else {
        assert(re * re + im * im >= 1) by (nonlinear_arith)
            requires
                re != 0 || im != 0,
        ;
        assert(root != 0) by (nonlinear_arith)
            requires
                1 < (root + 1) * (root + 1),
        ;
    }
}

/// The square root of `n`, rounded down.
pub fn isqrt(n: u128) -> (root: u64)
    ensures
        is_floor_sqrt(root as nat, n as nat),
        root == floor_sqrt(n as nat),
{
    let mut low: u128 = 0;
    let mut high: u128 = 0x1_0000_0000_0000_0000;
    proof {
        assert(0x1_0000_0000_0000_0000int * 0x1_0000_0000_0000_0000int
            == 0x1_0000_0000_0000_0000_0000_0000_0000_0000int) by (nonlinear_arith);
    }
    while high - low > 1
        invariant
            low < high <= 0x1_0000_0000_0000_0000,
            low * low <= n < high * high,
        decreases high - low,
    {
        let mid: u128 = low + (high - low) / 2;
        proof {
            lemma_square_monotone(mid as nat, 0xffff_ffff_ffff_ffff);
            assert(0xffff_ffff_ffff_ffffint * 0xffff_ffff_ffff_ffffint
                < 0x1_0000_0000_0000_0000_0000_0000_0000_0000int) by (nonlinear_arith);
        }
        if mid * mid <= n {
            low = mid;
        } else {
            high = mid;
        }
    }
    proof {
        lemma_floor_sqrt_unique(low as nat, n as nat);
    }
    low as u64
}

/// The absolute value of `x`, widened so that `i64::MIN` has one too.
fn magnitude_of_part(x: i64) -> (abs: u128)
    ensures
        abs == if x >= 0 {
            x as int
        } else {
            -(x as int)
        },
{
    if x >= 0 {
        x as u128
    } else {
        (-(x as i128)) as u128
    }
}

/// The magnitude `sqrt(re^2 + im^2)` of one bin, rounded down.
pub fn magnitude(bin: Bin) -> (mag: u64)
    ensures
        mag == magnitude_spec(bin),
        is_floor_sqrt(mag as nat, energy(bin)),
{
    let re = magnitude_of_part(bin.re);
    let im = magnitude_of_part(bin.im);
    proof {
        lemma_energy_bound(bin);
        assert(re * re == bin.re * bin.re) by (nonlinear_arith)
            requires
                re == bin.re || re == -bin.re,
        ;
        assert(im * im == bin.im * bin.im) by (nonlinear_arith)
            requires
                im == bin.im || im == -bin.im,
        ;
    }
    isqrt(re * re + im * im)
}

/// The magnitude spectrum of `bins`: one magnitude per bin, in bin order.
pub fn magnitudes(bins: &[Bin]) -> (spectrum: Vec<u64>)
    ensures
        spectrum@ == magnitudes_spec(bins@),
{
    let mut spectrum: Vec<u64> = Vec::with_capacity(bins.len());
    let mut k: usize = 0;
    while k < bins.len()
        invariant
            k <= bins.len(),
            spectrum@ == magnitudes_spec(bins@.take(k as int)),
        decreases bins.len() - k,
    {
        spectrum.push(magnitude(bins[k]));
        proof {
            assert(spectrum@ =~= magnitudes_spec(bins@.take(k + 1)));
        }
        k += 1;
    }
    proof {
        assert(bins@.take(k as int) =~= bins@);
    }
    spectrum
}

/// A spectrum computed from bins that are all zero is all zero.
pub proof fn lemma_silent_bins_give_silent_spectrum(bins: Seq<Bin>)
    requires
        forall|k: int| 0 <= k < bins.len() ==> bins[k] == (Bin { re: 0, im: 0 }),
    ensures
        magnitudes_spec(bins).len() == bins.len(),
        forall|k: int| 0 <= k < bins.len() ==> magnitudes_spec(bins)[k] == 0,
{
    assert forall|k: int| 0 <= k < bins.len() implies magnitudes_spec(bins)[k] == 0 by {
        lemma_zero_bin_has_zero_magnitude(bins[k]);
    }
}

} // verus!
