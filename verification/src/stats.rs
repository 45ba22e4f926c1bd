use vstd::prelude::*;
use vstd::seq_lib::commutative_foldl;
use vstd::seq_lib::lemma_fold_left_permutation;

use crate::bar::OhlcData;

verus! {

/// The exact sum of the `close` fields of `s`.
pub open spec fn sum_closes(s: Seq<OhlcData>) -> int
    decreases s.len(),
{
    if s.len() == 0 {
        0
    } else {
        sum_closes(s.drop_last()) + s.last().close
    }
}

/// The exact sum of the `volume` fields of `s`.
pub open spec fn sum_volumes(s: Seq<OhlcData>) -> int
    decreases s.len(),
{
    if s.len() == 0 {
        0
    } else {
        sum_volumes(s.drop_last()) + s.last().volume
    }
}

/// The least `close` field in `s` (close prices only, by design: the range
/// reported is the close-price range, not the true high/low extremes).
pub open spec fn min_close(s: Seq<OhlcData>) -> int
    recommends
        s.len() > 0,
    decreases s.len(),
{
    if s.len() <= 1 {
        s[0].close as int
    } else {
        vstd::math::min(min_close(s.drop_last()), s.last().close as int)
    }
}

/// The greatest `close` field in `s`.
pub open spec fn max_close(s: Seq<OhlcData>) -> int
    recommends
        s.len() > 0,
    decreases s.len(),
{
    if s.len() <= 1 {
        s[0].close as int
    } else {
        vstd::math::max(max_close(s.drop_last()), s.last().close as int)
    }
}

/// A point-in-time aggregate snapshot over a bar collection.
///
/// Prices are in the caller's fixed sub-unit scale (see `OhlcData`). The
/// exact arithmetic mean of the close prices is the rational
/// `price_sum / data_points`; it is carried as that pair so no precision is
/// lost. `avg_volume` is the integer-truncating quotient
/// `total_volume / data_points`, deliberately not a rounded mean.
#[derive(Clone, Copy, Debug, PartialEq, Eq, Structural)]
pub struct BasicStats {
    pub min_price: u64,
    pub max_price: u64,
    pub price_sum: u128,
    pub total_volume: u128,
    pub avg_volume: u128,
    pub data_points: usize,
}

/// The aggregates of a one-element collection are that element's fields.
proof fn lemma_aggregates_singleton(b: OhlcData)
    ensures
        sum_closes(seq![b]) == b.close,
        sum_volumes(seq![b]) == b.volume,
        min_close(seq![b]) == b.close,
        max_close(seq![b]) == b.close,
{
    assert(seq![b].drop_last() =~= Seq::<OhlcData>::empty());
    assert(sum_closes(Seq::<OhlcData>::empty()) == 0);
    assert(sum_volumes(Seq::<OhlcData>::empty()) == 0);
}

/// Sums of at most `len` values of `u64` never leave `u128`.
proof fn lemma_sum_bounds(s: Seq<OhlcData>)
    ensures
        0 <= sum_closes(s) <= s.len() * (u64::MAX as int),
        0 <= sum_volumes(s) <= s.len() * (u64::MAX as int),
    decreases s.len(),
{
    if s.len() > 0 {
        lemma_sum_bounds(s.drop_last());
    }
}

/// The close-price extremes are attained in the collection and bound every
/// element of it.
pub proof fn lemma_min_max_attained(s: Seq<OhlcData>)
    requires
        s.len() > 0,
    ensures
        exists|i: int| 0 <= i < s.len() && s[i].close == min_close(s),
        exists|i: int| 0 <= i < s.len() && s[i].close == max_close(s),
        forall|i: int| 0 <= i < s.len() ==> min_close(s) <= #[trigger] s[i].close <= max_close(s),
    decreases s.len(),
{
    if s.len() == 1 {
        assert(s[0].close == min_close(s));
        assert(s[0].close == max_close(s));
    } else {
        lemma_min_max_attained(s.drop_last());
        let d = s.drop_last();
        assert(forall|i: int| 0 <= i < d.len() ==> d[i] == s[i]);
        if min_close(d) <= s.last().close as int {
            let w = choose|i: int| 0 <= i < d.len() && d[i].close == min_close(d);
            assert(s[w].close == min_close(s));
        } else {
            assert(s[s.len() - 1].close == min_close(s));
        }
        if max_close(d) >= s.last().close as int {
            let w = choose|i: int| 0 <= i < d.len() && d[i].close == max_close(d);
            assert(s[w].close == max_close(s));
        } else {
            assert(s[s.len() - 1].close == max_close(s));
        }
    }
}

/// Computes the aggregate snapshot of `data`: the minimum, maximum and
/// exact sum of the close prices, the exact total volume, the truncating
/// average volume, and the element count. An empty input yields `None`, a
/// valid absent result rather than a failure.
pub fn calculate_basic_stats(data: &Vec<OhlcData>) -> (r: Option<BasicStats>)
    ensures
        r is Some <==> data@.len() > 0,
        r matches Some(st) ==> {
            &&& st.min_price as int == min_close(data@)
            &&& st.max_price as int == max_close(data@)
            &&& st.price_sum as int == sum_closes(data@)
            &&& st.total_volume as int == sum_volumes(data@)
            &&& st.avg_volume as int == sum_volumes(data@) / (data@.len() as int)
            &&& st.data_points == data@.len()
        },
{
    let len = data.len();
    if len == 0 {
        return None;
    }
    let first = data[0];
    let mut min_price: u64 = first.close;
    let mut max_price: u64 = first.close;
    let mut price_sum: u128 = first.close as u128;
    let mut total_volume: u128 = first.volume as u128;
    let mut i: usize = 1;
    proof {
        assert(data@.take(1) =~= seq![data@[0]]);
        lemma_aggregates_singleton(data@[0]);
    }
    while i < len
        invariant
            1 <= i <= len,
            len == data@.len(),
            min_price as int == min_close(data@.take(i as int)),
            max_price as int == max_close(data@.take(i as int)),
            price_sum as int == sum_closes(data@.take(i as int)),
            total_volume as int == sum_volumes(data@.take(i as int)),
        decreases len - i,
    {
        let b = data[i];
        proof {
            let t1 = data@.take(i + 1 as int);
            assert(t1.drop_last() =~= data@.take(i as int));
            assert(t1.last() == data@[i as int]);
            lemma_sum_bounds(data@.take(i as int));
            assert((i as int) * (u64::MAX as int) + (u64::MAX as int) <= (u64::MAX as int) * (u64::MAX as int)) by (nonlinear_arith)
                requires
                    1 <= i as int <= u64::MAX as int - 1,
            ;
        }
        if b.close < min_price {
            min_price = b.close;
        }
        if b.close > max_price {
            max_price = b.close;
        }
        price_sum = price_sum + b.close as u128;
        total_volume = total_volume + b.volume as u128;
        i = i + 1;
    }
    proof {
        assert(data@.take(len as int) =~= data@);
    }
    let avg_volume = total_volume / (len as u128);
    Some(BasicStats { min_price, max_price, price_sum, total_volume, avg_volume, data_points: len })
}

/// Bridge from the direct recursive sums to `fold_left`, so that the
/// permutation lemma of the standard library applies to them.
proof fn lemma_sums_as_fold(s: Seq<OhlcData>)
    ensures
        sum_closes(s) == s.fold_left(0int, |acc: int, b: OhlcData| acc + b.close),
        sum_volumes(s) == s.fold_left(0int, |acc: int, b: OhlcData| acc + b.volume),
    decreases s.len(),
{
    if s.len() > 0 {
        lemma_sums_as_fold(s.drop_last());
    }
}

/// Order independence: two collections holding the same bars (as a
/// multiset) have the same element count, close-price extremes, exact
/// close-price sum and exact volume sum — hence every field of the
/// snapshot, the truncating average volume included, is the same.
pub proof fn lemma_stats_order_independent(s1: Seq<OhlcData>, s2: Seq<OhlcData>)
    requires
        s1.to_multiset() == s2.to_multiset(),
    ensures
        s1.len() == s2.len(),
        sum_closes(s1) == sum_closes(s2),
        sum_volumes(s1) == sum_volumes(s2),
        s1.len() > 0 ==> min_close(s1) == min_close(s2),
        s1.len() > 0 ==> max_close(s1) == max_close(s2),
{
    broadcast use vstd::seq_lib::group_to_multiset_ensures;

    assert(s1.len() == s2.len()) by {
        assert(s1.to_multiset().len() == s1.len());
        assert(s2.to_multiset().len() == s2.len());
    }
    let fc = |acc: int, b: OhlcData| acc + b.close;
    let fv = |acc: int, b: OhlcData| acc + b.volume;
    assert(commutative_foldl(fc));
    assert(commutative_foldl(fv));
    lemma_sums_as_fold(s1);
    lemma_sums_as_fold(s2);
    lemma_fold_left_permutation(s1, s2, fc, 0int);
    lemma_fold_left_permutation(s1, s2, fv, 0int);
    if s1.len() > 0 {
        lemma_min_max_attained(s1);
        lemma_min_max_attained(s2);
        let w1 = choose|i: int| 0 <= i < s1.len() && s1[i].close == min_close(s1);
        assert(s2.contains(s1[w1])) by {
            assert(s1.contains(s1[w1]));
            assert(s1.to_multiset().count(s1[w1]) > 0);
        }
        let w2 = choose|i: int| 0 <= i < s2.len() && s2[i].close == min_close(s2);
        assert(s1.contains(s2[w2])) by {
            assert(s2.contains(s2[w2]));
            assert(s2.to_multiset().count(s2[w2]) > 0);
        }
        let x1 = choose|i: int| 0 <= i < s1.len() && s1[i].close == max_close(s1);
        assert(s2.contains(s1[x1])) by {
            assert(s1.contains(s1[x1]));
            assert(s1.to_multiset().count(s1[x1]) > 0);
        }
        let x2 = choose|i: int| 0 <= i < s2.len() && s2[i].close == max_close(s2);
        assert(s1.contains(s2[x2])) by {
            assert(s2.contains(s2[x2]));
            assert(s2.to_multiset().count(s2[x2]) > 0);
        }
    }
}

/// The mean lies between the extremes: `len * min <= sum <= len * max`,
/// i.e. `min_price <= price_sum / data_points <= max_price` as rationals.
pub proof fn lemma_avg_close_between_extremes(s: Seq<OhlcData>)
    requires
        s.len() > 0,
    ensures
        s.len() * min_close(s) <= sum_closes(s),
        sum_closes(s) <= s.len() * max_close(s),
    decreases s.len(),
{
    if s.len() == 1 {
        assert(s =~= seq![s[0]]);
        lemma_aggregates_singleton(s[0]);
    } else {
        let d = s.drop_last();
        lemma_avg_close_between_extremes(d);
        let n = d.len() as int;
        let mn = min_close(s);
        let mx = max_close(s);
        assert(sum_closes(s) == sum_closes(d) + s.last().close);
        assert(mn <= min_close(d) && mn <= s.last().close);
        assert(mx >= max_close(d) && mx >= s.last().close);
        assert(n * mn <= n * min_close(d)) by (nonlinear_arith)
            requires
                n >= 0,
                mn <= min_close(d),
        ;
        assert(n * max_close(d) <= n * mx) by (nonlinear_arith)
            requires
                n >= 0,
                max_close(d) <= mx,
        ;
        assert((n + 1) * mn == n * mn + mn) by (nonlinear_arith);
        assert((n + 1) * mx == n * mx + mx) by (nonlinear_arith);
    }
}

} // verus!
