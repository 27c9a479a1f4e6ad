//! Rounding up to a multiple.
use vstd::prelude::*;

verus! {

/// The least multiple of `multiple` that is not below `value`.
pub open spec fn round_up(value: int, multiple: int) -> int
    recommends
        value >= 0,
        multiple > 0,
{
    if value == 0 {
        0
    } else {
        (1 + (value - 1) / multiple) * multiple
    }
}

/// `round_up` is the smallest multiple of `multiple` at or above `value`.
pub proof fn lemma_round_up_is_least_multiple(value: int, multiple: int)
    requires
        value >= 0,
        multiple > 0,
    ensures
        round_up(value, multiple) % multiple == 0,
        value <= round_up(value, multiple) < value + multiple,
        forall|m: int| m >= value && #[trigger] (m % multiple) == 0
            ==> round_up(value, multiple) <= m,
{
    if value > 0 {
        let q = (value - 1) / multiple;
        let r = round_up(value, multiple);
        assert(r == (q + 1) * multiple);
        assert(r % multiple == 0) by (nonlinear_arith)
            requires
                r == (q + 1) * multiple,
                multiple > 0,
        ;
        assert(q * multiple <= value - 1 < q * multiple + multiple) by (nonlinear_arith)
            requires
                q == (value - 1) / multiple,
                multiple > 0,
        ;
        assert((q + 1) * multiple == q * multiple + multiple) by (nonlinear_arith);
        assert forall|m: int| m >= value && #[trigger] (m % multiple) == 0 implies r <= m by {
            let k = m / multiple;
            assert(m == k * multiple) by (nonlinear_arith)
                requires
                    k == m / multiple,
                    m % multiple == 0,
                    multiple > 0,
            ;
            assert(k >= q + 1) by (nonlinear_arith)
                requires
                    k * multiple >= value,
                    value - 1 >= q * multiple,
                    multiple > 0,
            ;
            assert(k * multiple >= (q + 1) * multiple) by (nonlinear_arith)
                requires
                    k >= q + 1,
                    multiple > 0,
            ;
        }
    } else {
        assert(0int % multiple == 0) by (nonlinear_arith)
            requires
                multiple > 0,
        ;
        assert forall|m: int| m >= value && #[trigger] (m % multiple) == 0 implies 0 <= m by {}
    }
}

/// Rounds `value` up to the next multiple of `multiple`.
pub fn nearest_multiple(value: u32, multiple: u32) -> (rounded: u32)
    requires
        multiple > 0,
        round_up(value as int, multiple as int) <= u32::MAX,
    ensures
        rounded == round_up(value as int, multiple as int),
{
    if value == 0 {
        0
    } else {
        let quotient: u32 = (value - 1) / multiple;
        assert((1 + quotient) * multiple == round_up(value as int, multiple as int));
        (1 + quotient) * multiple
    }
}

/// Rounds `value` up to the next multiple of `multiple`, or reports that the
/// rounded value does not fit in 32 bits.
pub fn checked_nearest_multiple(value: u32, multiple: u32) -> (rounded: Option<u32>)
    requires
        multiple > 0,
    ensures
        rounded matches Some(r) ==> r == round_up(value as int, multiple as int),
        rounded is None <==> round_up(value as int, multiple as int) > u32::MAX,
{
    if value == 0 {
        Some(0)
    } else {
        let quotient: u64 = ((value - 1) / multiple) as u64;
        let wide: u64 = multiple as u64;
        assert((1 + quotient) * wide <= 0x1_0000_0000 * 0xffff_ffff) by (nonlinear_arith)
            requires
                quotient <= 0xffff_ffff,
                wide <= 0xffff_ffff,
        ;
        let product: u64 = (1 + quotient) * wide;
        if product > 0xffff_ffff {
            None
        } else {
            Some(product as u32)
        }
    }
}

} // verus!
