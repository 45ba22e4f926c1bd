//! Verified analytics over OHLCV market data.
//!
//! The crate holds an ordered series of price bars, windowing operations
//! over it, summary statistics, and simple return computation, together
//! with the normalisation of scraped insider-trade records.

mod bar;
mod insiders;
mod report;
mod return_calc;
mod scope;
mod series;
mod stats;
pub mod text;

pub use bar::ymd_of;
pub use bar::OhlcData;
pub use insiders::clean_number;
pub use insiders::clean_spec;
pub use insiders::lower_of;
pub use insiders::normalize_name;
pub use insiders::normalize_spec;
pub use insiders::trade_of_cells;
pub use insiders::trade_views;
pub use insiders::trades_from_rows;
pub use insiders::trades_of_rows;
pub use insiders::transaction_type_of;
pub use insiders::transaction_type_spec;
pub use insiders::InsiderTrade;
pub use insiders::InsiderTradeView;
pub use report::assemble_report;
pub use report::report_window;
pub use report::Report;
pub use return_calc::total_return;
pub use return_calc::TotalReturn;
pub use scope::TemporalScope;
pub use series::last_n_spec;
pub use series::lemma_last_n_all;
pub use series::lemma_last_n_len_and_suffix;
pub use series::lemma_last_n_preserves_order;
pub use series::lemma_last_n_round_trip;
pub use series::lemma_last_n_zero;
pub use series::sorted_by_timestamp;
pub use series::OhlcVecExt;
pub use series::Series;
pub use stats::calculate_basic_stats;
pub use stats::lemma_avg_close_between_extremes;
pub use stats::lemma_min_max_attained;
pub use stats::lemma_stats_order_independent;
pub use stats::max_close;
pub use stats::min_close;
pub use stats::sum_closes;
pub use stats::sum_volumes;
pub use stats::BasicStats;
