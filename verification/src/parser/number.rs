//! Decimal numbers in the text of a scene file.
use vstd::prelude::*;

verus! {

/// The byte is one of `0` to `9`.
pub open spec fn is_digit(b: u8) -> bool {
    48 <= b <= 57
}

/// The number that the digits `text[from .. to]` spell.
pub open spec fn decimal(text: Seq<u8>, from: int, to: int) -> nat
    decreases to - from,
{
    if to <= from {
        0
    } else {
        decimal(text, from, to - 1) * 10 + (text[to - 1] - 48) as nat
    }
}

/// Where the run of digits that starts at `from` ends: the position of the
/// first byte from there on that is no digit, or the end of the text.
pub open spec fn digits_end(text: Seq<u8>, from: int) -> int
    decreases text.len() - from,
{
    if 0 <= from < text.len() && is_digit(text[from]) {
        digits_end(text, from + 1)
    } else {
        from
    }
}

/// The number at `from` and where it ends: at least one digit, and a value
/// that fits a `usize`. None where there is no such number.
pub open spec fn number_at(text: Seq<u8>, from: int) -> Option<(usize, int)> {
    let end = digits_end(text, from);
    if end > from && decimal(text, from, end) <= usize::MAX {
        Some((decimal(text, from, end) as usize, end))
    } else {
        None
    }
}

/// A longer run of digits spells no smaller a number.
pub proof fn lemma_decimal_grows(text: Seq<u8>, from: int, mid: int, to: int)
    requires
        from <= mid <= to,
    ensures
        decimal(text, from, mid) <= decimal(text, from, to),
    decreases to - mid,
{
    if mid < to {
        lemma_decimal_grows(text, from, mid, to - 1);
    }
}

/// The run of digits from `from` ends where the first byte that is no digit
/// stands, if all bytes before it are digits.
pub proof fn lemma_digits_end(text: Seq<u8>, from: int, end: int)
    requires
        0 <= from <= end <= text.len(),
        forall|k: int| from <= k < end ==> is_digit(#[trigger] text[k]),
        end == text.len() || !is_digit(text[end]),
    ensures
        digits_end(text, from) == end,
    decreases end - from,
{
    if from < end {
        lemma_digits_end(text, from + 1, end);
    }
}

/// Reads the number that starts at `from`: one digit or more. Returns the
/// number and the position behind its last digit, or nothing where no digit
/// stands at `from` or the number does not fit a `usize`.
pub fn read_number(text: &[u8], from: usize) -> (r: Option<(usize, usize)>)
    requires
        from <= text@.len(),
    ensures
        match r {
            Some((value, end)) => number_at(text@, from as int) == Some((value, end as int)) && from < end
                <= text@.len(),
            None => number_at(text@, from as int) is None,
        },
{
    let mut value: usize = 0;
    let mut i: usize = from;
    while i < text.len() && text[i] >= 48 && text[i] <= 57
        invariant
            from <= i <= text@.len(),
            forall|k: int| from <= k < i ==> is_digit(#[trigger] text@[k]),
            value == decimal(text@, from as int, i as int),
        decreases text@.len() - i,
    {
        let digit: usize = (text[i] - 48) as usize;
        let next = match value.checked_mul(10) {
            Some(v) => v.checked_add(digit),
            None => None,
        };
        match next {
            Some(v) => {
                value = v;
            },
            None => {
                proof {
                    let end = digits_end(text@, from as int);
                    lemma_digits_run(text@, from as int, i as int + 1);
                    lemma_decimal_grows(text@, from as int, i as int + 1, end);
                }
                return None;
            },
        }
        i += 1;
    }
    proof {
        lemma_digits_end(text@, from as int, i as int);
    }
    if i == from {
        None
    } else {
        Some((value, i))
    }
}

/// A run of digits from `from` to `to` ends at `to` or later.
pub proof fn lemma_digits_run(text: Seq<u8>, from: int, to: int)
    requires
        0 <= from <= to <= text.len(),
        forall|k: int| from <= k < to ==> is_digit(#[trigger] text[k]),
    ensures
        to <= digits_end(text, from) <= text.len(),
    decreases to - from,
{
    if from < to {
        lemma_digits_run(text, from + 1, to);
    } else {
        lemma_digits_end_in_text(text, from);
    }
}

/// A run of digits ends inside the text or at its end.
pub proof fn lemma_digits_end_in_text(text: Seq<u8>, from: int)
    requires
        0 <= from <= text.len(),
    ensures
        from <= digits_end(text, from) <= text.len(),
    decreases text.len() - from,
{
    if from < text.len() && is_digit(text[from]) {
        lemma_digits_end_in_text(text, from + 1);
    }
}

} // verus!
