use vstd::prelude::*;
use vstd::arithmetic::div_mod::{lemma_div_is_ordered, lemma_div_by_multiple, lemma_div_pos_is_pos};

verus! {

/// A share `num / den` of an amount, rounded down, is never negative and
/// never more than the amount, as long as the fraction is at most 1.
pub proof fn lemma_share_bounded(amount: int, num: int, den: int)
    requires
        0 <= amount,
        0 <= num <= den,
        0 < den,
    ensures
        0 <= (amount * num) / den <= amount,
{
    assert(0 <= amount * num <= amount * den) by (nonlinear_arith)
        requires
            0 <= amount,
            0 <= num <= den,
    ;
    lemma_div_pos_is_pos(amount * num, den);
    lemma_div_is_ordered(amount * num, amount * den, den);
    lemma_div_by_multiple(amount, den);
}

/// A share grows with its numerator.
pub proof fn lemma_share_monotonic(amount: int, num_a: int, num_b: int, den: int)
    requires
        0 <= amount,
        num_a <= num_b,
        0 < den,
    ensures
        (amount * num_a) / den <= (amount * num_b) / den,
{
    assert(amount * num_a <= amount * num_b) by (nonlinear_arith)
        requires
            0 <= amount,
            num_a <= num_b,
    ;
    lemma_div_is_ordered(amount * num_a, amount * num_b, den);
}

/// The product of two 64-bit values fits 128 bits.
pub proof fn lemma_product_fits(a: u64, b: u64)
    ensures
        0 <= a * b <= u128::MAX,
{
    assert(0 <= a * b <= 0xffff_ffff_ffff_ffff * 0xffff_ffff_ffff_ffff) by (nonlinear_arith)
        requires
            0 <= a <= 0xffff_ffff_ffff_ffff,
            0 <= b <= 0xffff_ffff_ffff_ffff,
    ;
}

} // verus!
