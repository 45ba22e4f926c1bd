use vstd::prelude::*;

use crate::text::chars_of;
use crate::text::chars_to_string;
use crate::text::remove_char;
use crate::text::remove_char_spec;
use crate::text::seq_contains;
use crate::text::split_tokens;
use crate::text::str_contains;
use crate::text::trim_chars;
use crate::text::trim_spec;
use crate::text::views_of;
use crate::text::ws_tokens;

verus! {

/// One normalized insider-trading disclosure row.
///
/// `name` is in "First Last" order, `transaction_type` is `"buy"` or
/// `"sell"`, and `price` and `qty` are cleaned decimal-looking strings
/// (currency symbols and thousands separators stripped; the sign stripped
/// from the quantity).
#[derive(Debug)]
pub struct InsiderTrade {
    pub name: String,
    pub title: String,
    pub trade_date: String,
    pub transaction_type: String,
    pub price: String,
    pub qty: String,
}

/// The field contents of an `InsiderTrade`, for contracts.
pub struct InsiderTradeView {
    pub name: Seq<char>,
    pub title: Seq<char>,
    pub trade_date: Seq<char>,
    pub transaction_type: Seq<char>,
    pub price: Seq<char>,
    pub qty: Seq<char>,
}

impl View for InsiderTrade {
    type V = InsiderTradeView;

    open spec fn view(&self) -> InsiderTradeView {
        InsiderTradeView {
            name: self.name@,
            title: self.title@,
            trade_date: self.trade_date@,
            transaction_type: self.transaction_type@,
            price: self.price@,
            qty: self.qty@,
        }
    }
}

/// A raw name with exactly two blank-separated parts is put in
/// "First Last" order by swapping them; anything else is kept as given.
pub open spec fn normalize_spec(s: Seq<char>) -> Seq<char> {
    let t = ws_tokens(s);
    if t.len() == 2 {
        t[1] + seq![' '] + t[0]
    } else {
        s
    }
}

/// Reorders a scraped "Last First" name into "First Last": when the raw
/// text has exactly two blank-separated parts they are swapped, otherwise
/// the text is returned unchanged.
pub fn normalize_name(raw: &str) -> (r: String)
    ensures
        r@ == normalize_spec(raw@),
{
    let parts = split_tokens(raw);
    if parts.len() == 2 {
        let mut out: Vec<char> = Vec::new();
        let second = &parts[1];
        let first = &parts[0];
        let mut i: usize = 0;
        while i < second.len()
            invariant
                i <= second@.len(),
                out@ == second@.take(i as int),
            decreases second@.len() - i,
        {
            out.push(second[i]);
            proof {
                assert(out@ =~= second@.take(i + 1 as int));
            }
            i = i + 1;
        }
        proof {
            assert(second@.take(second@.len() as int) =~= second@);
        }
        out.push(' ');
        let mut j: usize = 0;
        while j < first.len()
            invariant
                j <= first@.len(),
                out@ == second@ + seq![' '] + first@.take(j as int),
            decreases first@.len() - j,
        {
            out.push(first[j]);
            proof {
                assert(out@ =~= second@ + seq![' '] + first@.take(j + 1 as int));
            }
            j = j + 1;
        }
        proof {
            assert(first@.take(first@.len() as int) =~= first@);
            assert(views_of(parts@)[1] == second@);
            assert(views_of(parts@)[0] == first@);
        }
        chars_to_string(out)
    } else {
        proof {
            assert(ws_tokens(raw@).len() == views_of(parts@).len());
        }
        raw.to_owned()
    }
}

/// The cleaned form of a scraped number: thousands separators and currency
/// signs removed, the rest trimmed; for a quantity the sign is removed too
/// and the text trimmed again.
pub open spec fn clean_spec(s: Seq<char>, qty: bool) -> Seq<char> {
    let a = trim_spec(remove_char_spec(remove_char_spec(s, ','), '$'));
    if qty {
        trim_spec(remove_char_spec(a, '-'))
    } else {
        a
    }
}

/// Cleans a scraped decimal-looking string: strips `,` and `$`, trims, and
/// for a quantity (`qty`) also strips `-` and trims again.
pub fn clean_number(raw: &str, qty: bool) -> (r: String)
    ensures
        r@ == clean_spec(raw@, qty),
{
    let chars = chars_of(raw);
    let no_commas = remove_char(&chars, ',');
    let no_dollar = remove_char(&no_commas, '$');
    let mut cleaned = trim_chars(&no_dollar);
    if qty {
        let no_sign = remove_char(&cleaned, '-');
        cleaned = trim_chars(&no_sign);
    }
    chars_to_string(cleaned)
}

/// The case-folded form of `s`. Folding whole strings is left to the
/// standard library and named here rather than restated.
pub uninterp spec fn lower_of(s: Seq<char>) -> Seq<char>;

/// Relies on `str::to_lowercase`: the folded text is a function of the
/// input characters alone.
#[verifier::external_body]
fn to_lowercase_str(s: &str) -> (r: String)
    ensures
        r@ == lower_of(s@),
{
    s.to_lowercase()
}

/// A raw transaction cell counts as a sale exactly when its case-folded
/// text contains "sale"; everything else is a buy.
pub open spec fn transaction_type_spec(s: Seq<char>) -> Seq<char> {
    if seq_contains(lower_of(s), "sale"@) {
        "sell"@
    } else {
        "buy"@
    }
}

/// Classifies a scraped transaction cell as `"sell"` or `"buy"`.
pub fn transaction_type_of(raw: &str) -> (r: String)
    ensures
        r@ == transaction_type_spec(raw@),
{
    let lowered = to_lowercase_str(raw);
    if str_contains(lowered.as_str(), "sale") {
        "sell".to_owned()
    } else {
        "buy".to_owned()
    }
}

/// The normalized trade a well-formed row of scraped cells stands for.
/// Cell 1 holds the name, 2 the title, 4 the trade date, 6 the raw
/// transaction text, 7 the price and 8 the quantity; the remaining cells
/// carry fields this record does not keep.
pub open spec fn trade_of_cells(cells: Seq<Seq<char>>) -> InsiderTradeView
    recommends
        cells.len() >= 10,
{
    InsiderTradeView {
        name: normalize_spec(cells[1]),
        title: cells[2],
        trade_date: cells[4],
        transaction_type: transaction_type_spec(cells[6]),
        price: clean_spec(cells[7], false),
        qty: clean_spec(cells[8], true),
    }
}

impl InsiderTrade {
    /// Builds the normalized trade from one row of scraped cell texts.
    /// A row with fewer than ten cells is malformed and yields `None`
    /// (the row is dropped, not escalated as an error).
    pub fn from_cells(cells: &Vec<String>) -> (r: Option<InsiderTrade>)
        ensures
            r is Some <==> cells@.len() >= 10,
            r matches Some(t) ==> t@ == trade_of_cells(cells.deep_view()),
    {
        if cells.len() < 10 {
            return None;
        }
        let trade = InsiderTrade {
            name: normalize_name(cells[1].as_str()),
            title: cells[2].clone(),
            trade_date: cells[4].clone(),
            transaction_type: transaction_type_of(cells[6].as_str()),
            price: clean_number(cells[7].as_str(), false),
            qty: clean_number(cells[8].as_str(), true),
        };
        proof {
            assert(cells.deep_view()[1] == cells@[1]@);
            assert(cells.deep_view()[2] == cells@[2]@);
            assert(cells.deep_view()[4] == cells@[4]@);
            assert(cells.deep_view()[6] == cells@[6]@);
            assert(cells.deep_view()[7] == cells@[7]@);
            assert(cells.deep_view()[8] == cells@[8]@);
        }
        Some(trade)
    }
}

/// The normalized trades of a row collection, in order, with malformed
/// rows (fewer than ten cells) dropped.
pub open spec fn trades_of_rows(rows: Seq<Seq<Seq<char>>>) -> Seq<InsiderTradeView>
    decreases rows.len(),
{
    if rows.len() == 0 {
        Seq::empty()
    } else if rows.last().len() >= 10 {
        trades_of_rows(rows.drop_last()).push(trade_of_cells(rows.last()))
    } else {
        trades_of_rows(rows.drop_last())
    }
}

/// The views of the produced trades.
pub open spec fn trade_views(ts: Seq<InsiderTrade>) -> Seq<InsiderTradeView> {
    Seq::new(ts.len(), |i: int| ts[i]@)
}

/// Normalizes every well-formed row of scraped cell texts, dropping the
/// malformed ones silently.
pub fn trades_from_rows(rows: &Vec<Vec<String>>) -> (r: Vec<InsiderTrade>)
    ensures
        trade_views(r@) == trades_of_rows(rows.deep_view()),
{
    let mut out: Vec<InsiderTrade> = Vec::new();
    let n = rows.len();
    let mut i: usize = 0;
    while i < n
        invariant
            i <= n,
            n == rows@.len(),
            trade_views(out@) == trades_of_rows(rows.deep_view().take(i as int)),
        decreases n - i,
    {
        proof {
            assert(rows.deep_view().take(i + 1 as int).drop_last() =~= rows.deep_view().take(
                i as int,
            ));
            assert(rows.deep_view().take(i + 1 as int).last() == rows.deep_view()[i as int]);
            assert(rows@[i as int].deep_view() == rows.deep_view()[i as int]);
        }
        let ghost old_out = out@;
        match InsiderTrade::from_cells(&rows[i]) {
            Some(t) => {
                out.push(t);
                proof {
                    assert(trade_views(out@) =~= trade_views(old_out).push(t@));
                }
            },
            None => {},
        }
        i = i + 1;
    }
    proof {
        assert(rows.deep_view().take(n as int) =~= rows.deep_view());
    }
    out
}

} // verus!
