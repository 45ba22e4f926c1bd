use vstd::prelude::*;

use crate::bar::OhlcData;
use crate::return_calc::total_return;
use crate::return_calc::TotalReturn;
use crate::series::last_n_spec;
use crate::series::Series;
use crate::stats::calculate_basic_stats;
use crate::stats::max_close;
use crate::stats::min_close;
use crate::stats::sum_closes;
use crate::stats::sum_volumes;
use crate::stats::BasicStats;

verus! {

/// The assembled summary of a series: either a clearly distinguishable
/// "no data" outcome for an empty series, or the boundary bars together
/// with the aggregate snapshot of a caller-chosen window and the total
/// return over the full series. Pure composition: every part comes from
/// the windowing, statistics and return functions, and display is left to
/// the caller.
#[derive(Clone, Copy, Debug, PartialEq, Eq, Structural)]
pub enum Report {
    NoData,
    Summary {
        first: OhlcData,
        last: OhlcData,
        stats: Option<BasicStats>,
        total: Option<TotalReturn>,
    },
}

/// The bars the snapshot of a report covers: the last `n` bars when a
/// window is chosen, the whole series otherwise.
pub open spec fn report_window(s: Seq<OhlcData>, window: Option<usize>) -> Seq<OhlcData> {
    match window {
        Some(n) => last_n_spec(s, n as int),
        None => s,
    }
}

/// Composes the summary of `series`: its boundary bars, the aggregate
/// snapshot of the chosen window (or of the whole series), and the total
/// return over the whole series. An empty series yields `Report::NoData`;
/// within a non-empty series, the snapshot is absent exactly when the
/// chosen window is empty, and the return exactly when fewer than two bars
/// exist.
pub fn assemble_report(series: &Series, window: Option<usize>) -> (r: Report)
    ensures
        r is NoData <==> series.bars@.len() == 0,
        r matches Report::Summary { first, last, stats, total } ==> {
            let w = report_window(series.bars@, window);
            &&& first == series.bars@[0]
            &&& last == series.bars@.last()
            &&& stats is Some <==> w.len() > 0
            &&& stats matches Some(st) ==> {
                &&& st.min_price as int == min_close(w)
                &&& st.max_price as int == max_close(w)
                &&& st.price_sum as int == sum_closes(w)
                &&& st.total_volume as int == sum_volumes(w)
                &&& st.avg_volume as int == sum_volumes(w) / (w.len() as int)
                &&& st.data_points == w.len()
            }
            &&& total is Some <==> series.bars@.len() >= 2
            &&& total matches Some(p) ==> {
                &&& p.numerator == (series.bars@.last().close - series.bars@[0].close) * 100
                &&& p.denominator == series.bars@[0].close
            }
        },
{
    let len = series.length();
    if len == 0 {
        return Report::NoData;
    }
    let window_bars = match window {
        Some(n) => series.last_n(n),
        None => series.last_n(len),
    };
    let stats = calculate_basic_stats(&window_bars);
    let total = total_return(series);
    let first = series.bars[0];
    let last = series.bars[len - 1];
    Report::Summary { first, last, stats, total }
}

} // verus!
