//! Calendar timestamps and scratch-directory naming.
//!
//! Each benchmark run writes into a directory named by the moment the run
//! started: a four-digit year, then two-digit month, day, hour, minute and
//! second, then the nanoseconds within the second padded to nine digits,
//! all separated by dashes. The formatting is verified down to the
//! character; only reading the clock is trusted.

use vstd::prelude::*;
use vstd::string::StringExecFns;

use chrono::Datelike;
use chrono::Timelike;

verus! {

/// The decimal digit character for `d` (meaningful for `d < 10`).
pub open spec fn digit_char(d: nat) -> char {
    if d == 0 {
        '0'
    } else if d == 1 {
        '1'
    } else if d == 2 {
        '2'
    } else if d == 3 {
        '3'
    } else if d == 4 {
        '4'
    } else if d == 5 {
        '5'
    } else if d == 6 {
        '6'
    } else if d == 7 {
        '7'
    } else if d == 8 {
        '8'
    } else {
        '9'
    }
}

/// The decimal digits of `n`, left-padded with zeros to at least `width`
/// characters. A value with more digits than `width` keeps them all.
pub open spec fn padded_decimal(n: nat, width: nat) -> Seq<char>
    decreases n + width,
{
    if n < 10 && width <= 1 {
        seq![digit_char(n)]
    } else {
        padded_decimal(n / 10, if width == 0 { 0nat } else { (width - 1) as nat }) + seq![
            digit_char(n % 10),
        ]
    }
}

/// The one-character string for the decimal digit `d`.
fn digit_str(d: u32) -> (r: &'static str)
    requires
        d < 10,
    ensures
        r@ == seq![digit_char(d as nat)],
{
    let r: &'static str = if d == 0 {
        "0"
    } else if d == 1 {
        "1"
    } else if d == 2 {
        "2"
    } else if d == 3 {
        "3"
    } else if d == 4 {
        "4"
    } else if d == 5 {
        "5"
    } else if d == 6 {
        "6"
    } else if d == 7 {
        "7"
    } else if d == 8 {
        "8"
    } else {
        "9"
    };
    proof {
        reveal_strlit("0");
        reveal_strlit("1");
        reveal_strlit("2");
        reveal_strlit("3");
        reveal_strlit("4");
        reveal_strlit("5");
        reveal_strlit("6");
        reveal_strlit("7");
        reveal_strlit("8");
        reveal_strlit("9");
        assert(r@ =~= seq![digit_char(d as nat)]);
    }
    r
}

/// Append the decimal digits of `n`, zero-padded to at least `width`
/// characters, to `out`.
fn push_padded_decimal(out: &mut String, n: u32, width: u32)
    ensures
        final(out)@ == old(out)@ + padded_decimal(n as nat, width as nat),
    decreases n + width,
{
    if n < 10 && width <= 1 {
        out.append(digit_str(n));
    } else {
        let rest_width: u32 = if width == 0 {
            0
        } else {
            width - 1
        };
        push_padded_decimal(out, n / 10, rest_width);
        out.append(digit_str(n % 10));
        proof {
            assert(final(out)@ =~= old(out)@ + padded_decimal(n as nat, width as nat));
        }
    }
}

/// Ten to the given power.
spec fn pow10(w: nat) -> nat
    decreases w,
{
    if w == 0 {
        1nat
    } else {
        10 * pow10((w - 1) as nat)
    }
}

proof fn lemma_digit_char_injective(d1: nat, d2: nat)
    requires
        d1 < 10,
        d2 < 10,
        digit_char(d1) == digit_char(d2),
    ensures
        d1 == d2,
{
}

/// The padded digits of a value below `pow10(width)` fill the width
/// exactly.
proof fn lemma_padded_decimal_len_exact(n: nat, width: nat)
    requires
        1 <= width,
        n < pow10(width),
    ensures
        padded_decimal(n, width).len() == width,
    decreases width,
{
    if width == 1 {
    } else {
        assert(pow10(width) == 10 * pow10((width - 1) as nat));
        assert(n / 10 < pow10((width - 1) as nat));
        lemma_padded_decimal_len_exact(n / 10, (width - 1) as nat);
    }
}

/// A value one decimal digit wider than the width overflows it by one
/// character.
proof fn lemma_padded_decimal_len_wide(n: nat, width: nat)
    requires
        pow10(width) <= n,
        n < 10 * pow10(width),
    ensures
        padded_decimal(n, width).len() == width + 1,
    decreases width,
{
    if width == 0 {
    } else {
        assert(pow10(width) == 10 * pow10((width - 1) as nat));
        assert(pow10((width - 1) as nat) >= 1) by {
            lemma_pow10_at_least_one((width - 1) as nat);
        }
        assert(n >= 10);
        assert(n / 10 >= pow10((width - 1) as nat));
        assert(n / 10 < 10 * pow10((width - 1) as nat));
        lemma_padded_decimal_len_wide(n / 10, (width - 1) as nat);
    }
}

proof fn lemma_pow10_at_least_one(w: nat)
    ensures
        pow10(w) >= 1,
    decreases w,
{
    if w > 0 {
        lemma_pow10_at_least_one((w - 1) as nat);
    }
}

proof fn lemma_padded_decimal_nonempty(n: nat, width: nat)
    ensures
        padded_decimal(n, width).len() >= 1,
    decreases n + width,
{
    if n < 10 && width <= 1 {
    } else {
        lemma_padded_decimal_nonempty(
            n / 10,
            if width == 0 {
                0nat
            } else {
                (width - 1) as nat
            },
        );
    }
}

/// At a fixed width the padded digits determine the value.
proof fn lemma_padded_decimal_injective(n1: nat, n2: nat, width: nat)
    requires
        padded_decimal(n1, width) == padded_decimal(n2, width),
    ensures
        n1 == n2,
    decreases n1 + n2 + width,
{
    let s1 = padded_decimal(n1, width);
    let s2 = padded_decimal(n2, width);
    let w2 = if width == 0 {
        0nat
    } else {
        (width - 1) as nat
    };
    if n1 < 10 && width <= 1 && n2 < 10 {
        assert(s1 == seq![digit_char(n1)]);
        assert(s2 == seq![digit_char(n2)]);
        assert(digit_char(n1) == s1[0] && digit_char(n2) == s2[0]);
        lemma_digit_char_injective(n1, n2);
    } else if n1 < 10 && width <= 1 {
        // The other side splits off a last digit over a nonempty prefix,
        // so the lengths cannot both be one.
        lemma_padded_decimal_nonempty(n2 / 10, w2);
        assert(s2.len() >= 2);
        assert(false);
    } else if n2 < 10 && width <= 1 {
        lemma_padded_decimal_nonempty(n1 / 10, w2);
        assert(s1.len() >= 2);
        assert(false);
    } else {
        let p1 = padded_decimal(n1 / 10, w2);
        let p2 = padded_decimal(n2 / 10, w2);
        assert(p1 =~= s1.subrange(0, s1.len() - 1));
        assert(p2 =~= s2.subrange(0, s2.len() - 1));
        lemma_padded_decimal_injective(n1 / 10, n2 / 10, w2);
        assert(s1.last() == digit_char(n1 % 10));
        assert(s2.last() == digit_char(n2 % 10));
        lemma_digit_char_injective(n1 % 10, n2 % 10);
        assert(n1 == 10 * (n1 / 10) + n1 % 10);
        assert(n2 == 10 * (n2 / 10) + n2 % 10);
    }
}

/// A calendar moment in universal time, split into plain fields.
///
/// The nanosecond field ranges up to 1,999,999,999: values of a whole
/// second and above stand for a leap second.
#[derive(Clone, Copy, Debug, PartialEq, Eq, Structural)]
pub struct Timestamp {
    pub year: u32,
    pub month: u32,
    pub day: u32,
    pub hour: u32,
    pub minute: u32,
    pub second: u32,
    pub nanosecond: u32,
}

impl Timestamp {
    /// A well-formed timestamp: every field within its calendar range, and
    /// the year at most four digits wide.
    pub open spec fn wf(self) -> bool {
        &&& self.year <= 9999
        &&& 1 <= self.month <= 12
        &&& 1 <= self.day <= 31
        &&& self.hour <= 23
        &&& self.minute <= 59
        &&& self.second <= 59
        &&& self.nanosecond <= 1_999_999_999
    }

    /// Build a timestamp from raw field values. Returns the timestamp
    /// exactly when every field is within range; any out-of-range field
    /// yields nothing.
    pub fn new(
        year: i32,
        month: u32,
        day: u32,
        hour: u32,
        minute: u32,
        second: u32,
        nanosecond: u32,
    ) -> (r: Option<Timestamp>)
        ensures
            r is Some <==> {
                &&& 0 <= year <= 9999
                &&& 1 <= month <= 12
                &&& 1 <= day <= 31
                &&& hour <= 23
                &&& minute <= 59
                &&& second <= 59
                &&& nanosecond <= 1_999_999_999
            },
            r matches Some(t) ==> {
                &&& t.wf()
                &&& t.year == year
                &&& t.month == month
                &&& t.day == day
                &&& t.hour == hour
                &&& t.minute == minute
                &&& t.second == second
                &&& t.nanosecond == nanosecond
            },
    {
        if 0 <= year && year <= 9999 && 1 <= month && month <= 12 && 1 <= day && day <= 31 && hour
            <= 23 && minute <= 59 && second <= 59 && nanosecond <= 1_999_999_999 {
            Some(
                Timestamp {
                    year: year as u32,
                    month,
                    day,
                    hour,
                    minute,
                    second,
                    nanosecond,
                },
            )
        } else {
            None
        }
    }

    /// The scratch-directory name for this moment: dash-separated,
    /// zero-padded fields, nanoseconds last.
    pub open spec fn text(self) -> Seq<char> {
        padded_decimal(self.year as nat, 4) + seq!['-'] + padded_decimal(self.month as nat, 2)
            + seq!['-'] + padded_decimal(self.day as nat, 2) + seq!['-'] + padded_decimal(
            self.hour as nat,
            2,
        ) + seq!['-'] + padded_decimal(self.minute as nat, 2) + seq!['-'] + padded_decimal(
            self.second as nat,
            2,
        ) + seq!['-'] + padded_decimal(self.nanosecond as nat, 9)
    }

    /// Render the scratch-directory name, character for character as
    /// `text` gives it.
    pub fn dir_name(&self) -> (out: String)
        ensures
            out@ == self.text(),
    {
        let mut s = String::new();
        push_padded_decimal(&mut s, self.year, 4);
        s.append("-");
        push_padded_decimal(&mut s, self.month, 2);
        s.append("-");
        push_padded_decimal(&mut s, self.day, 2);
        s.append("-");
        push_padded_decimal(&mut s, self.hour, 2);
        s.append("-");
        push_padded_decimal(&mut s, self.minute, 2);
        s.append("-");
        push_padded_decimal(&mut s, self.second, 2);
        s.append("-");
        push_padded_decimal(&mut s, self.nanosecond, 9);
        proof {
            reveal_strlit("-");
            assert(s@ =~= self.text());
        }
        s
    }
}

/// Law: the scratch-directory name determines the timestamp. Two
/// well-formed timestamps with the same name are the same moment, so runs
/// started at different moments write into different scratch directories.
pub proof fn lemma_dir_name_injective(t1: Timestamp, t2: Timestamp)
    requires
        t1.wf(),
        t2.wf(),
        t1.text() == t2.text(),
    ensures
        t1 == t2,
{
    assert(pow10(0) == 1);
    assert(pow10(1) == 10);
    assert(pow10(2) == 100);
    assert(pow10(3) == 1000);
    assert(pow10(4) == 10000);
    assert(pow10(5) == 100_000);
    assert(pow10(6) == 1_000_000);
    assert(pow10(7) == 10_000_000);
    assert(pow10(8) == 100_000_000);
    assert(pow10(9) == 1_000_000_000);
    lemma_padded_decimal_len_exact(t1.year as nat, 4);
    lemma_padded_decimal_len_exact(t2.year as nat, 4);
    lemma_padded_decimal_len_exact(t1.month as nat, 2);
    lemma_padded_decimal_len_exact(t2.month as nat, 2);
    lemma_padded_decimal_len_exact(t1.day as nat, 2);
    lemma_padded_decimal_len_exact(t2.day as nat, 2);
    lemma_padded_decimal_len_exact(t1.hour as nat, 2);
    lemma_padded_decimal_len_exact(t2.hour as nat, 2);
    lemma_padded_decimal_len_exact(t1.minute as nat, 2);
    lemma_padded_decimal_len_exact(t2.minute as nat, 2);
    lemma_padded_decimal_len_exact(t1.second as nat, 2);
    lemma_padded_decimal_len_exact(t2.second as nat, 2);
    if t1.nanosecond < 1_000_000_000 {
        lemma_padded_decimal_len_exact(t1.nanosecond as nat, 9);
    } else {
        lemma_padded_decimal_len_wide(t1.nanosecond as nat, 9);
    }
    if t2.nanosecond < 1_000_000_000 {
        lemma_padded_decimal_len_exact(t2.nanosecond as nat, 9);
    } else {
        lemma_padded_decimal_len_wide(t2.nanosecond as nat, 9);
    }
    let s = t1.text();
    // The six fixed-width fields and the separators pin every position;
    // the equal total length forces the nanosecond fields to the same
    // width as well.
    assert(s.len() == 20 + padded_decimal(t1.nanosecond as nat, 9).len());
    assert(s.len() == 20 + padded_decimal(t2.nanosecond as nat, 9).len());
    assert(padded_decimal(t1.year as nat, 4) =~= s.subrange(0, 4));
    assert(padded_decimal(t2.year as nat, 4) =~= s.subrange(0, 4));
    lemma_padded_decimal_injective(t1.year as nat, t2.year as nat, 4);
    assert(padded_decimal(t1.month as nat, 2) =~= s.subrange(5, 7));
    assert(padded_decimal(t2.month as nat, 2) =~= s.subrange(5, 7));
    lemma_padded_decimal_injective(t1.month as nat, t2.month as nat, 2);
    assert(padded_decimal(t1.day as nat, 2) =~= s.subrange(8, 10));
    assert(padded_decimal(t2.day as nat, 2) =~= s.subrange(8, 10));
    lemma_padded_decimal_injective(t1.day as nat, t2.day as nat, 2);
    assert(padded_decimal(t1.hour as nat, 2) =~= s.subrange(11, 13));
    assert(padded_decimal(t2.hour as nat, 2) =~= s.subrange(11, 13));
    lemma_padded_decimal_injective(t1.hour as nat, t2.hour as nat, 2);
    assert(padded_decimal(t1.minute as nat, 2) =~= s.subrange(14, 16));
    assert(padded_decimal(t2.minute as nat, 2) =~= s.subrange(14, 16));
    lemma_padded_decimal_injective(t1.minute as nat, t2.minute as nat, 2);
    assert(padded_decimal(t1.second as nat, 2) =~= s.subrange(17, 19));
    assert(padded_decimal(t2.second as nat, 2) =~= s.subrange(17, 19));
    lemma_padded_decimal_injective(t1.second as nat, t2.second as nat, 2);
    assert(padded_decimal(t1.nanosecond as nat, 9) =~= s.subrange(20, s.len() as int));
    assert(padded_decimal(t2.nanosecond as nat, 9) =~= s.subrange(20, s.len() as int));
    lemma_padded_decimal_injective(t1.nanosecond as nat, t2.nanosecond as nat, 9);
}

/// Read the clock as universal-time calendar fields: year, month, day,
/// hour, minute, second, nanosecond.
///
/// Relies on `chrono::DateTime<Utc>: From<std::time::SystemTime>` to read
/// the current moment, and on the accessors of `chrono::Datelike` and
/// `chrono::Timelike` to split it into fields; the ranges stated here are
/// the ones their documentation gives (the nanosecond reaches above a
/// whole second only during a leap second).
#[verifier::external_body]
fn now_parts() -> (r: (i32, u32, u32, u32, u32, u32, u32))
    ensures
        1 <= r.1 <= 12,
        1 <= r.2 <= 31,
        r.3 <= 23,
        r.4 <= 59,
        r.5 <= 59,
        r.6 <= 1_999_999_999,
{
    let dt: chrono::DateTime<chrono::Utc> = std::time::SystemTime::now().into();
    (dt.year(), dt.month(), dt.day(), dt.hour(), dt.minute(), dt.second(), dt.nanosecond())
}

/// Read the clock and build a well-formed timestamp from it. Whatever
/// moment the clock reports, a returned timestamp is well formed; nothing
/// is returned only for a year outside four digits.
pub fn current_timestamp() -> (r: Option<Timestamp>)
    ensures
        r matches Some(t) ==> t.wf(),
{
    let (year, month, day, hour, minute, second, nanosecond) = now_parts();
    Timestamp::new(year, month, day, hour, minute, second, nanosecond)
}

} // verus!
