use vstd::prelude::*;

use crate::bar::OhlcData;

verus! {

/// The chronological suffix of `s` holding its last `min(n, s.len())`
/// elements, in original order. With `n >= s.len()` it is `s` itself.
pub open spec fn last_n_spec(s: Seq<OhlcData>, n: int) -> Seq<OhlcData>
    recommends
        0 <= n,
{
    if n >= s.len() {
        s
    } else {
        s.subrange(s.len() - n, s.len() as int)
    }
}

/// The bars stand in non-decreasing timestamp order: the well-formedness a
/// provider-delivered series is expected to have. It is not enforced at
/// construction (the provider is trusted to pre-sort, and nothing here
/// re-sorts); windowing preserves it where it holds.
pub open spec fn sorted_by_timestamp(s: Seq<OhlcData>) -> bool {
    forall|i: int, j: int|
        0 <= i <= j < s.len() ==> #[trigger] s[i].timestamp <= #[trigger] s[j].timestamp
}

/// Windowing preserves chronological order: the suffix of a sorted series
/// is sorted.
pub proof fn lemma_last_n_preserves_order(s: Seq<OhlcData>, n: int)
    requires
        0 <= n,
        sorted_by_timestamp(s),
    ensures
        sorted_by_timestamp(last_n_spec(s, n)),
{
}

/// An ordered collection of bars for one symbol. The bars are stored in the
/// order the provider delivered them (ascending timestamp by convention);
/// the series itself neither re-sorts nor validates that order.
pub struct Series {
    pub symbol: String,
    pub bars: Vec<OhlcData>,
}

impl Series {
    /// Stores the symbol and the provided bars as given, without
    /// validating their ordering.
    pub fn new(symbol: String, bars: Vec<OhlcData>) -> (s: Series)
        ensures
            s.symbol@ == symbol@,
            s.bars@ == bars@,
    {
        Series { symbol, bars }
    }

    pub fn is_empty(&self) -> (r: bool)
        ensures
            r == (self.bars@.len() == 0),
    {
        self.bars.len() == 0
    }

    pub fn length(&self) -> (r: usize)
        ensures
            r == self.bars@.len(),
    {
        self.bars.len()
    }

    /// The chronologically first bar, or `None` on an empty series
    /// (an absent result, not a failure).
    pub fn first(&self) -> (r: Option<OhlcData>)
        ensures
            self.bars@.len() == 0 ==> r is None,
            self.bars@.len() > 0 ==> r == Some(self.bars@[0]),
    {
        if self.bars.len() == 0 {
            None
        } else {
            Some(self.bars[0])
        }
    }

    /// The chronologically last bar, or `None` on an empty series.
    pub fn last(&self) -> (r: Option<OhlcData>)
        ensures
            self.bars@.len() == 0 ==> r is None,
            self.bars@.len() > 0 ==> r == Some(self.bars@.last()),
    {
        if self.bars.len() == 0 {
            None
        } else {
            Some(self.bars[self.bars.len() - 1])
        }
    }

    /// The last `min(count, length)` bars, in original chronological order,
    /// as an independent copy that never aliases the series.
    pub fn last_n(&self, count: usize) -> (r: Vec<OhlcData>)
        ensures
            r@ == last_n_spec(self.bars@, count as int),
    {
        self.bars.filter_last_days(count)
    }

    /// Identical to `last_n`: despite the name it selects the last `count`
    /// elements, not calendar days. The element-count behaviour is kept
    /// deliberately for compatibility with existing call sites.
    pub fn filter_last_days(&self, count: usize) -> (r: Vec<OhlcData>)
        ensures
            r@ == last_n_spec(self.bars@, count as int),
    {
        self.last_n(count)
    }
}

/// Windowing over a bare bar collection, for callers that hold a `Vec` of
/// bars rather than a `Series`.
pub trait OhlcVecExt {
    /// The last `min(count, len)` elements in original order; the whole
    /// collection when `count` covers it. Selects by element count, not by
    /// calendar days (kept deliberately, see `Series::filter_last_days`).
    fn filter_last_days(&self, count: usize) -> (r: Vec<OhlcData>)
        ensures
            r@ == last_n_spec(self.bars_view(), count as int),
    ;

    /// The stored bars, for stating the contract above.
    spec fn bars_view(&self) -> Seq<OhlcData>;
}

impl OhlcVecExt for Vec<OhlcData> {
    open spec fn bars_view(&self) -> Seq<OhlcData> {
        self@
    }

    fn filter_last_days(&self, count: usize) -> (r: Vec<OhlcData>)
    {
        let len = self.len();
        let start = if count >= len {
            0
        } else {
            len - count
        };
        let mut out: Vec<OhlcData> = Vec::new();
        let mut i = start;
        while i < len
            invariant
                start <= i <= len,
                len == self@.len(),
                out@ == self@.subrange(start as int, i as int),
            decreases len - i,
        {
            out.push(self[i]);
            proof {
                assert(out@ =~= self@.subrange(start as int, i + 1 as int));
            }
            i = i + 1;
        }
        proof {
            if count as int >= self@.len() {
                assert(out@ =~= self@);
            }
        }
        out
    }
}

/// The suffix law: `last_n` keeps exactly `min(n, len)` elements and they
/// are the chronological suffix of the sequence, in original order.
pub proof fn lemma_last_n_len_and_suffix(s: Seq<OhlcData>, n: int)
    requires
        0 <= n,
    ensures
        last_n_spec(s, n).len() == vstd::math::min(n, s.len() as int),
        last_n_spec(s, n) == s.subrange(s.len() - vstd::math::min(n, s.len() as int), s.len() as int),
{
    if n >= s.len() {
        assert(s =~= s.subrange(0, s.len() as int));
    }
}

/// Asking for zero elements yields an empty result, whatever the series.
pub proof fn lemma_last_n_zero(s: Seq<OhlcData>)
    ensures
        last_n_spec(s, 0) == Seq::<OhlcData>::empty(),
{
    if 0 < s.len() {
        assert(s.subrange(s.len() as int, s.len() as int) =~= Seq::<OhlcData>::empty());
    } else {
        assert(s =~= Seq::<OhlcData>::empty());
    }
}

/// Asking for at least the whole length yields the series unchanged.
pub proof fn lemma_last_n_all(s: Seq<OhlcData>, n: int)
    requires
        n >= s.len(),
    ensures
        last_n_spec(s, n) == s,
{
}

/// Round trip: a series built from `n` bars gives back exactly those bars,
/// element for element, when its full length is requested.
pub proof fn lemma_last_n_round_trip(s: Seq<OhlcData>)
    ensures
        last_n_spec(s, s.len() as int) == s,
{
}

} // verus!
