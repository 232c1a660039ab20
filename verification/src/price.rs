//! Prices as exact decimals with two fraction digits.

use vstd::prelude::*;
use vstd::string::*;
use crate::decimal::{
    append_nat, digit_char, digit_of, digit_str, digits_value, is_digit, lemma_digit_round_trip,
    lemma_nat_text_digits, lemma_nat_text_value, nat_text,
};

verus! {

/// A price in hundredths, with its sign as it was written.
#[derive(Clone, Copy, Debug, PartialEq, Eq, Structural)]
pub struct Price {
    pub negative: bool,
    pub hundredths: u64,
}

/// How many characters a leading sign takes: one for `-` or `+`, else none.
pub open spec fn sign_len(text: Seq<char>) -> int {
    if text.len() > 0 && (text[0] == '-' || text[0] == '+') {
        1
    } else {
        0
    }
}

/// The index at which the run of digits that starts at `from` ends.
pub open spec fn digits_end(text: Seq<char>, from: int) -> int
    decreases text.len() - from,
{
    if 0 <= from < text.len() && is_digit(text[from]) {
        digits_end(text, from + 1)
    } else {
        from
    }
}

/// The value of the fraction digit at place `k`, zero where there is none.
pub open spec fn place(fraction: Seq<char>, k: int) -> nat {
    if 0 <= k < fraction.len() {
        digit_of(fraction[k])
    } else {
        0
    }
}

/// The first two fraction digits, read as a number of hundredths.
pub open spec fn kept_places(fraction: Seq<char>) -> nat {
    place(fraction, 0) * 10 + place(fraction, 1)
}

/// Whether every fraction digit after the third is zero.
pub open spec fn tail_is_zero(fraction: Seq<char>) -> bool {
    forall|k: int| 3 <= k < fraction.len() ==> #[trigger] fraction[k] == '0'
}

/// Whether the digits dropped after the second place round the price up:
/// more than half a hundredth does, and exactly half does where the kept
/// hundredths are odd.
pub open spec fn rounds_up(fraction: Seq<char>) -> bool {
    place(fraction, 2) > 5 || (place(fraction, 2) == 5 && (!tail_is_zero(fraction)
        || kept_places(fraction) % 2 == 1))
}

/// The hundredths that a whole part and a fraction part write, rounded to the
/// nearest hundredth, ties to even.
pub open spec fn hundredths_of(whole: Seq<char>, fraction: Seq<char>) -> nat {
    digits_value(whole) * 100 + kept_places(fraction) + if rounds_up(fraction) {
        1nat
    } else {
        0nat
    }
}

/// The price that digits on both sides of the point write: there must be a
/// digit, and the hundredths must fit in 64 bits.
pub open spec fn price_from_parts(negative: bool, whole: Seq<char>, fraction: Seq<char>) -> Option<
    Price,
> {
    if whole.len() + fraction.len() > 0 && hundredths_of(whole, fraction) <= u64::MAX {
        Some(Price { negative, hundredths: hundredths_of(whole, fraction) as u64 })
    } else {
        None
    }
}

/// The price that a text writes: an optional sign, digits, and at most one
/// point among them. Anything else writes no price.
pub open spec fn price_of(text: Seq<char>) -> Option<Price> {
    let start = sign_len(text);
    let point = digits_end(text, start);
    let negative = start == 1 && text[0] == '-';
    if point == text.len() {
        price_from_parts(negative, text.subrange(start, point), Seq::empty())
    } else if text[point] == '.' && digits_end(text, point + 1) == text.len() {
        price_from_parts(
            negative,
            text.subrange(start, point),
            text.subrange(point + 1, text.len() as int),
        )
    } else {
        None
    }
}

/// The text of a price: the sign if negative, the whole part, a point and
/// exactly two fraction digits.
pub open spec fn price_text(price: Price) -> Seq<char> {
    let cents = (price.hundredths % 100) as nat;
    (if price.negative {
        seq!['-']
    } else {
        Seq::<char>::empty()
    }) + nat_text((price.hundredths / 100) as nat) + seq![
        '.',
        digit_char(cents / 10),
        digit_char(cents % 10),
    ]
}

/// A run of digits that stops at `to` is found to end there.
pub proof fn lemma_digits_end(text: Seq<char>, from: int, to: int)
    requires
        0 <= from <= to <= text.len(),
        forall|i: int| from <= i < to ==> is_digit(#[trigger] text[i]),
        to == text.len() || !is_digit(text[to]),
    ensures
        digits_end(text, from) == to,
    decreases to - from,
{
    if from < to {
        lemma_digits_end(text, from + 1, to);
    }
}

/// The text of a price reads back as that price.
pub proof fn lemma_price_text_reads_back(price: Price)
    ensures
        price_of(price_text(price)) == Some(price),
{
    let text = price_text(price);
    let units = (price.hundredths / 100) as nat;
    let cents = (price.hundredths % 100) as nat;
    let whole = nat_text(units);
    let sign: int = if price.negative { 1 } else { 0 };
    let point = sign + whole.len();
    lemma_nat_text_digits(units);
    lemma_nat_text_value(units);
    lemma_digit_round_trip(cents / 10);
    lemma_digit_round_trip(cents % 10);
    assert(text.len() == point + 3);
    assert(forall|i: int| sign <= i < point ==> text[i] == whole[i - sign]);
    assert(text[point] == '.');
    assert(text[point + 1] == digit_char(cents / 10));
    assert(text[point + 2] == digit_char(cents % 10));
    assert(is_digit(text[sign]));
    assert(sign_len(text) == sign);
    lemma_digits_end(text, sign, point);
    lemma_digits_end(text, point + 1, point + 3);
    let fraction = text.subrange(point + 1, text.len() as int);
    assert(text.subrange(sign, point) =~= whole);
    assert(fraction.len() == 2);
    assert(place(fraction, 0) == cents / 10);
    assert(place(fraction, 1) == cents % 10);
    assert(place(fraction, 2) == 0);
    assert(!rounds_up(fraction));
    assert(hundredths_of(whole, fraction) == price.hundredths);
}

impl Price {
    /// Reads a price from its decimal text.
    pub fn parse(text: &str) -> (res: Option<Price>)
        ensures
            res == price_of(text@),
    {
        let len = text.unicode_len();
        let mut negative = false;
        let mut start: usize = 0;
        if len > 0 {
            let first = text.get_char(0);
            if first == '-' {
                negative = true;
                start = 1;
            } else if first == '+' {
                start = 1;
            }
        }
        let mut i: usize = start;
        let mut whole: u64 = 0;
        let mut overflow = false;
        loop
            invariant
                len == text@.len(),
                start <= i <= len,
                digits_end(text@, start as int) == digits_end(text@, i as int),
                !overflow ==> whole == digits_value(text@.subrange(start as int, i as int)),
                overflow ==> digits_value(text@.subrange(start as int, i as int)) > u64::MAX,
            ensures
                start <= i <= len,
                digits_end(text@, start as int) == i,
                !overflow ==> whole == digits_value(text@.subrange(start as int, i as int)),
                overflow ==> digits_value(text@.subrange(start as int, i as int)) > u64::MAX,
            decreases len - i,
        {
            if i >= len {
                break ;
            }
            let c = text.get_char(i);
            if !(c >= '0' && c <= '9') {
                break ;
            }
            let d: u64 = (c as u32 - 48) as u64;
            proof {
                let longer = text@.subrange(start as int, i + 1);
                assert(longer.drop_last() =~= text@.subrange(start as int, i as int));
                assert(longer.last() == c);
                assert(d == digit_of(c));
            }
            if !overflow {
                if whole > (u64::MAX - d) / 10 {
                    overflow = true;
                } else {
                    whole = whole * 10 + d;
                }
            }
            i = i + 1;
        }
        let point = i;
        let mut d0: u64 = 0;
        let mut d1: u64 = 0;
        let mut d2: u64 = 0;
        let mut tail_nonzero = false;
        let mut fraction_len: usize = 0;
        let ghost fraction = if point < len {
            text@.subrange(point + 1, len as int)
        } else {
            Seq::<char>::empty()
        };
        if point < len {
            let c = text.get_char(point);
            if c != '.' {
                return None;
            }
            let first = point + 1;
            let mut j: usize = first;
            while j < len
                invariant
                    len == text@.len(),
                    first == point + 1,
                    first <= j <= len,
                    start == sign_len(text@),
                    point == digits_end(text@, start as int),
                    point < len,
                    fraction == text@.subrange(point + 1, len as int),
                    digits_end(text@, first as int) == digits_end(text@, j as int),
                    d0 == if j > first { place(fraction, 0) } else { 0 },
                    d1 == if j > first + 1 { place(fraction, 1) } else { 0 },
                    d2 == if j > first + 2 { place(fraction, 2) } else { 0 },
                    d0 < 10 && d1 < 10 && d2 < 10,
                    tail_nonzero <==> exists|k: int| 3 <= k < j - first && fraction[k] != '0',
                decreases len - j,
            {
                let c = text.get_char(j);
                if !(c >= '0' && c <= '9') {
                    assert(digits_end(text@, j as int) == j);
                    return None;
                }
                let d: u64 = (c as u32 - 48) as u64;
                assert(fraction[j - first] == c);
                if j == first {
                    d0 = d;
                } else if j == first + 1 {
                    d1 = d;
                } else if j == first + 2 {
                    d2 = d;
                } else if d != 0 {
                    tail_nonzero = true;
                }
                j = j + 1;
            }
            fraction_len = len - first;
        }
        proof {
            assert(fraction.len() == fraction_len);
            assert(d0 == place(fraction, 0));
            assert(d1 == place(fraction, 1));
            assert(d2 == place(fraction, 2));
            assert(tail_nonzero <==> !tail_is_zero(fraction));
        }
        if (point - start) + fraction_len == 0 {
            return None;
        }
        if overflow {
            return None;
        }
        let kept: u64 = d0 * 10 + d1;
        let round: u64 = if d2 > 5 || (d2 == 5 && (tail_nonzero || kept % 2 == 1)) {
            1
        } else {
            0
        };
        if whole > (u64::MAX - kept - round) / 100 {
            return None;
        }
        Some(Price { negative, hundredths: whole * 100 + kept + round })
    }

    /// Appends the text of the price.
    pub fn append_to(&self, out: &mut String)
        ensures
            final(out)@ == old(out)@ + price_text(*self),
    {
        proof {
            reveal_strlit("-");
            reveal_strlit(".");
        }
        if self.negative {
            out.append("-");
        }
        append_nat(out, self.hundredths / 100);
        out.append(".");
        let cents: u64 = self.hundredths % 100;
        out.append(digit_str((cents / 10) as u8));
        out.append(digit_str((cents % 10) as u8));
        assert(final(out)@ =~= old(out)@ + price_text(*self));
    }

    /// The text of the price.
    pub fn to_text(&self) -> (res: String)
        ensures
            res@ == price_text(*self),
    {
        let mut out = String::new();
        self.append_to(&mut out);
        assert(out@ =~= price_text(*self));
        out
    }
}

} // verus!
