//! Rendering a depth snapshot as a table of text.

use vstd::prelude::*;
use vstd::string::*;
use crate::decimal::{append_int, int_text, is_digit, lemma_digit_round_trip, lemma_nat_text_digits};
use crate::error::Side;
use crate::price::{price_text, Price};
use crate::snapshot::{DepthSnapshot, Level, SnapshotView};

verus! {

/// The header row.
pub open spec fn header_text() -> Seq<char> {
    "Type\tPrice\t\tSize"@
}

/// The tag that marks a row's side.
pub open spec fn side_tag(side: Side) -> Seq<char> {
    match side {
        Side::Ask => "A"@,
        Side::Bid => "B"@,
    }
}

/// One row: the tag, the price with two fraction digits, and the size.
pub open spec fn row_text(side: Side, level: Level) -> Seq<char> {
    side_tag(side) + "\t"@ + price_text(level.price) + "\t\t"@ + int_text(level.size as int)
}

/// The rows of the table: the header, the asks from last received to first,
/// then the bids as received.
pub open spec fn table_rows(snapshot: SnapshotView) -> Seq<Seq<char>> {
    seq![header_text()] + Seq::new(
        snapshot.asks.len(),
        |i: int| row_text(Side::Ask, snapshot.asks[snapshot.asks.len() - 1 - i]),
    ) + Seq::new(snapshot.bids.len(), |i: int| row_text(Side::Bid, snapshot.bids[i]))
}

/// Rows as one text, each row ended by a line feed.
pub open spec fn lines_text(lines: Seq<Seq<char>>) -> Seq<char>
    decreases lines.len(),
{
    if lines.len() == 0 {
        Seq::empty()
    } else {
        lines_text(lines.drop_last()) + lines.last() + "\n"@
    }
}

/// The whole table of a snapshot.
pub open spec fn table_text(snapshot: SnapshotView) -> Seq<char> {
    lines_text(table_rows(snapshot))
}

/// Ask rows appear in reverse of the order received and bid rows in the
/// order received, below one header row.
pub proof fn lemma_table_rows_order(snapshot: SnapshotView)
    ensures
        table_rows(snapshot).len() == 1 + snapshot.asks.len() + snapshot.bids.len(),
        table_rows(snapshot)[0] == header_text(),
        forall|i: int|
            0 <= i < snapshot.asks.len() ==> #[trigger] table_rows(snapshot)[1 + i] == row_text(
                Side::Ask,
                snapshot.asks[snapshot.asks.len() - 1 - i],
            ),
        forall|i: int|
            0 <= i < snapshot.bids.len() ==> #[trigger] table_rows(snapshot)[1
                + snapshot.asks.len() + i] == row_text(Side::Bid, snapshot.bids[i]),
{
}

/// Every price is written with a point and exactly two digits after it,
/// after a whole part of at least one digit.
pub proof fn lemma_price_text_two_places(price: Price)
    ensures
        ({
            let text = price_text(price);
            let sign: int = if price.negative { 1 } else { 0 };
            &&& text.len() >= sign + 4
            &&& text[text.len() - 3] == '.'
            &&& is_digit(text[text.len() - 2])
            &&& is_digit(text[text.len() - 1])
            &&& forall|i: int| sign <= i < text.len() - 3 ==> is_digit(#[trigger] text[i])
            &&& price.negative ==> text[0] == '-'
        }),
{
    let cents = (price.hundredths % 100) as nat;
    lemma_nat_text_digits((price.hundredths / 100) as nat);
    lemma_digit_round_trip(cents / 10);
    lemma_digit_round_trip(cents % 10);
}

/// Appends one row and its line feed.
pub fn append_row(out: &mut String, side: Side, level: &Level)
    ensures
        final(out)@ == old(out)@ + row_text(side, *level) + "\n"@,
{
    match side {
        Side::Ask => out.append("A"),
        Side::Bid => out.append("B"),
    }
    out.append("\t");
    level.price.append_to(out);
    out.append("\t\t");
    append_int(out, level.size);
    out.append("\n");
    assert(final(out)@ =~= old(out)@ + row_text(side, *level) + "\n"@);
}

/// Renders a snapshot as its table.
pub fn render(snapshot: &DepthSnapshot) -> (res: String)
    ensures
        res@ == table_text(snapshot@),
{
    let ghost rows = table_rows(snapshot@);
    let asks = &snapshot.asks;
    let bids = &snapshot.bids;
    let mut out = String::new();
    out.append("Type\tPrice\t\tSize");
    out.append("\n");
    proof {
        lemma_table_rows_order(snapshot@);
        assert(rows.take(1).drop_last() =~= Seq::<Seq<char>>::empty());
        assert(lines_text(rows.take(1).drop_last()) =~= Seq::<char>::empty());
        assert(out@ =~= lines_text(rows.take(1)));
    }
    let mut i: usize = 0;
    while i < asks.len()
        invariant
            i <= asks.len(),
            asks@ == snapshot@.asks,
            bids@ == snapshot@.bids,
            rows == table_rows(snapshot@),
            out@ == lines_text(rows.take(1 + i)),
        decreases asks.len() - i,
    {
        proof {
            lemma_table_rows_order(snapshot@);
            assert(rows.take(2 + i).drop_last() =~= rows.take(1 + i));
        }
        append_row(&mut out, Side::Ask, &asks[asks.len() - 1 - i]);
        i = i + 1;
    }
    let mut j: usize = 0;
    while j < bids.len()
        invariant
            j <= bids.len(),
            asks@ == snapshot@.asks,
            bids@ == snapshot@.bids,
            rows == table_rows(snapshot@),
            out@ == lines_text(rows.take(1 + asks.len() + j)),
        decreases bids.len() - j,
    {
        proof {
            lemma_table_rows_order(snapshot@);
            assert(rows.take(2 + asks.len() + j).drop_last() =~= rows.take(1 + asks.len() + j));
        }
        append_row(&mut out, Side::Bid, &bids[j]);
        j = j + 1;
    }
    proof {
        lemma_table_rows_order(snapshot@);
        assert(rows.take(1 + asks.len() + bids.len()) =~= rows);
    }
    out
}

} // verus!
