//! Rendering of operation outcomes as display strings, including the
//! decimal rendering of positions, lengths and requested indices.

use vstd::prelude::*;

verus! {

/// The character for the decimal digit `d`.
pub open spec fn digit_char(d: int) -> char {
    if d == 0 {
        '0'
    } else if d == 1 {
        '1'
    } else if d == 2 {
        '2'
    } else if d == 3 {
        '3'
    } else if d == 4 {
        '4'
    } else if d == 5 {
        '5'
    } else if d == 6 {
        '6'
    } else if d == 7 {
        '7'
    } else if d == 8 {
        '8'
    } else {
        '9'
    }
}

/// Decimal rendering of a non-negative integer, most significant digit
/// first, without leading zeros (a single zero for 0).
pub open spec fn dec_rep(n: int) -> Seq<char>
    recommends
        n >= 0,
    decreases n,
{
    if n < 10 {
        seq![digit_char(n)]
    } else {
        dec_rep(n / 10).push(digit_char(n % 10))
    }
}

/// Decimal rendering of a signed integer: a minus sign before the digits of
/// the magnitude for negative values.
pub open spec fn int_rep(n: int) -> Seq<char> {
    if n < 0 {
        seq!['-'] + dec_rep(-n)
    } else {
        dec_rep(n)
    }
}

fn digit_str(d: u64) -> (s: &'static str)
    requires
        d < 10,
    ensures
        s@ == seq![digit_char(d as int)],
{
    let s: &'static str = if d == 0 {
        "0"
    } else if d == 1 {
        "1"
    } else if d == 2 {
        "2"
    } else if d == 3 {
        "3"
    } else if d == 4 {
        "4"
    } else if d == 5 {
        "5"
    } else if d == 6 {
        "6"
    } else if d == 7 {
        "7"
    } else if d == 8 {
        "8"
    } else {
        "9"
    };
    proof {
        reveal_strlit("0");
        reveal_strlit("1");
        reveal_strlit("2");
        reveal_strlit("3");
        reveal_strlit("4");
        reveal_strlit("5");
        reveal_strlit("6");
        reveal_strlit("7");
        reveal_strlit("8");
        reveal_strlit("9");
        assert(s@ =~= seq![digit_char(d as int)]);
    }
    s
}

/// Renders `n` in decimal.
pub fn u64_to_string(n: u64) -> (s: String)
    ensures
        s@ == dec_rep(n as int),
    decreases n,
{
    if n < 10 {
        String::from_str(digit_str(n))
    } else {
        let mut s = u64_to_string(n / 10);
        s.append(digit_str(n % 10));
        proof {
            assert(s@ =~= dec_rep(n as int));
        }
        s
    }
}

/// Renders `n` in decimal, with a leading minus sign when negative.
pub fn isize_to_string(n: isize) -> (s: String)
    ensures
        s@ == int_rep(n as int),
{
    if n >= 0 {
        u64_to_string(n as u64)
    } else {
        // `-(n + 1)` stays in range even for the smallest value; adding the
        // 1 back happens in u64, where the magnitude always fits.
        let low = -(n + 1);
        let mag: u64 = (low as u64) + 1;
        let mut s = String::from_str("-");
        let digits = u64_to_string(mag);
        s.append(digits.as_str());
        proof {
            reveal_strlit("-");
            assert(s@ =~= int_rep(n as int));
        }
        s
    }
}

/// Reply to a successful insert: the topic, the position the fact now
/// occupies, and the new length.
pub fn format_added(topic: &str, position: isize, length: isize) -> (r: String)
    ensures
        r@ == "Added "@ + topic@ + "["@ + int_rep(position as int) + "/"@ + int_rep(
            length as int,
        ) + "]."@,
{
    let mut s = String::from_str("Added ");
    s.append(topic);
    s.append("[");
    let p = isize_to_string(position);
    s.append(p.as_str());
    s.append("/");
    let l = isize_to_string(length);
    s.append(l.as_str());
    s.append("].");
    proof {
        assert(s@ =~= "Added "@ + topic@ + "["@ + int_rep(position as int) + "/"@ + int_rep(
            length as int,
        ) + "]."@);
    }
    s
}

/// Reply to a successful delete: the topic, the index as requested, and the
/// deleted entry.
pub fn format_deleted(topic: &str, index: isize, entry: &str) -> (r: String)
    ensures
        r@ == "Deleted "@ + topic@ + "["@ + int_rep(index as int) + "]: "@ + entry@ + "."@,
{
    let mut s = String::from_str("Deleted ");
    s.append(topic);
    s.append("[");
    let i = isize_to_string(index);
    s.append(i.as_str());
    s.append("]: ");
    s.append(entry);
    s.append(".");
    proof {
        assert(s@ =~= "Deleted "@ + topic@ + "["@ + int_rep(index as int) + "]: "@ + entry@
            + "."@);
    }
    s
}

/// Reply to a read that found an entry: the topic, the resolved position,
/// the length, and the entry.
pub fn format_found(topic: &str, position: isize, length: isize, entry: &str) -> (r: String)
    ensures
        r@ == topic@ + "["@ + int_rep(position as int) + "/"@ + int_rep(length as int) + "]: "@
            + entry@,
{
    let mut s = String::from_str(topic);
    s.append("[");
    let p = isize_to_string(position);
    s.append(p.as_str());
    s.append("/");
    let l = isize_to_string(length);
    s.append(l.as_str());
    s.append("]: ");
    s.append(entry);
    proof {
        assert(s@ =~= topic@ + "["@ + int_rep(position as int) + "/"@ + int_rep(length as int)
            + "]: "@ + entry@);
    }
    s
}

/// Reply to a read of a topic with no entries at all.
pub fn format_empty_topic(topic: &str) -> (r: String)
    ensures
        r@ == topic@ + "? \u{af}\\\\(\u{b0}\u{200b}_o)/\u{af}"@,
{
    let mut s = String::from_str(topic);
    s.append("? \u{af}\\\\(\u{b0}\u{200b}_o)/\u{af}");
    s
}

/// Reply to a read of a position past the end of a non-empty topic.
pub fn format_not_enough(topic: &str, length: isize) -> (r: String)
    ensures
        r@ == topic@ + " has only "@ + int_rep(length as int) + " entries."@,
{
    let mut s = String::from_str(topic);
    s.append(" has only ");
    let l = isize_to_string(length);
    s.append(l.as_str());
    s.append(" entries.");
    proof {
        assert(s@ =~= topic@ + " has only "@ + int_rep(length as int) + " entries."@);
    }
    s
}

/// Reply when the backing store could not be reached: the verb that failed
/// and the store's own message.
pub fn format_store_error(verb: &str, error: &str) -> (r: String)
    ensures
        r@ == "Couldn't "@ + verb@ + ": "@ + error@ + "."@,
{
    let mut s = String::from_str("Couldn't ");
    s.append(verb);
    s.append(": ");
    s.append(error);
    s.append(".");
    proof {
        assert(s@ =~= "Couldn't "@ + verb@ + ": "@ + error@ + "."@);
    }
    s
}

} // verus!
