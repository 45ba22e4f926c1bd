use vstd::prelude::*;

use crate::series::Series;

verus! {

/// The total percentage return over a window, carried exactly as the
/// rational `numerator / denominator`.
///
/// For a window with first close `f` and last close `l` the value is
/// `(l - f) / f * 100`, so `numerator == (l - f) * 100` and
/// `denominator == f`. The pair is kept instead of a quotient so that no
/// rounding is imposed here. A window whose first close is zero yields a
/// zero denominator: the division is deliberately left to the caller
/// (display code may render it as it sees fit), mirroring the division
/// semantics the computation would otherwise hard-code.
#[derive(Clone, Copy, Debug, PartialEq, Eq, Structural)]
pub struct TotalReturn {
    pub numerator: i128,
    pub denominator: u64,
}

/// The simple percentage return between the first and the last bar of the
/// series window that the caller passes. Fewer than two bars yield `None`,
/// a valid absent result rather than a failure.
pub fn total_return(series: &Series) -> (r: Option<TotalReturn>)
    ensures
        r is Some <==> series.bars@.len() >= 2,
        r matches Some(p) ==> {
            &&& p.numerator == (series.bars@.last().close - series.bars@[0].close) * 100
            &&& p.denominator == series.bars@[0].close
        },
{
    let len = series.bars.len();
    if len < 2 {
        return None;
    }
    let first = series.bars[0];
    let last = series.bars[len - 1];
    let diff = last.close as i128 - first.close as i128;
    Some(TotalReturn { numerator: diff * 100, denominator: first.close })
}

} // verus!
