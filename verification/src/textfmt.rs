//! Plain-text building blocks: decimal rendering of numbers, space padding
//! to a column width, and the `Hh Mm Ss` play-time form. Presence strings and
//! the roster table are assembled from these.

use vstd::prelude::*;

verus! {

/// The digit character for a value below ten.
pub open spec fn spec_digit_char(d: nat) -> char {
    if d == 0 {
        '0'
    } else if d == 1 {
        '1'
    } else if d == 2 {
        '2'
    } else if d == 3 {
        '3'
    } else if d == 4 {
        '4'
    } else if d == 5 {
        '5'
    } else if d == 6 {
        '6'
    } else if d == 7 {
        '7'
    } else if d == 8 {
        '8'
    } else {
        '9'
    }
}

/// Decimal rendering of a number, most significant digit first, with no
/// leading zero except for the number zero itself.
pub open spec fn spec_decimal(n: nat) -> Seq<char>
    decreases n,
{
    if n < 10 {
        seq![spec_digit_char(n)]
    } else {
        spec_decimal(n / 10) + seq![spec_digit_char(n % 10)]
    }
}

/// Decimal rendering of a signed number: a minus sign before the magnitude
/// for negative values.
pub open spec fn spec_decimal_signed(n: int) -> Seq<char> {
    if n < 0 {
        seq!['-'] + spec_decimal((-n) as nat)
    } else {
        spec_decimal(n as nat)
    }
}

/// A run of `n` spaces.
pub open spec fn spec_spaces(n: nat) -> Seq<char>
    decreases n,
{
    if n == 0 {
        Seq::empty()
    } else {
        spec_spaces((n - 1) as nat).push(' ')
    }
}

/// `s` padded with spaces on the left up to width `w`; text longer than the
/// width is kept whole.
pub open spec fn spec_pad_left(s: Seq<char>, w: nat) -> Seq<char> {
    if s.len() >= w {
        s
    } else {
        spec_spaces((w - s.len()) as nat) + s
    }
}

/// `s` padded with spaces on the right up to width `w`; text longer than the
/// width is kept whole.
pub open spec fn spec_pad_right(s: Seq<char>, w: nat) -> Seq<char> {
    if s.len() >= w {
        s
    } else {
        s + spec_spaces((w - s.len()) as nat)
    }
}

/// A whole number of seconds in the `Hh Mm Ss` form.
pub open spec fn spec_play_time(secs: nat) -> Seq<char> {
    spec_decimal(secs / 3600) + "h "@ + spec_decimal((secs % 3600) / 60) + "m "@ + spec_decimal(
        secs % 60,
    ) + "s"@
}

fn digit_str(d: u64) -> (s: &'static str)
    requires
        d < 10,
    ensures
        s@ == seq![spec_digit_char(d as nat)],
{
    proof {
        reveal_strlit("0");
        reveal_strlit("1");
        reveal_strlit("2");
        reveal_strlit("3");
        reveal_strlit("4");
        reveal_strlit("5");
        reveal_strlit("6");
        reveal_strlit("7");
        reveal_strlit("8");
        reveal_strlit("9");
    }
    let s: &'static str = if d == 0 {
        "0"
    } else if d == 1 {
        "1"
    } else if d == 2 {
        "2"
    } else if d == 3 {
        "3"
    } else if d == 4 {
        "4"
    } else if d == 5 {
        "5"
    } else if d == 6 {
        "6"
    } else if d == 7 {
        "7"
    } else if d == 8 {
        "8"
    } else {
        "9"
    };
    proof {
        assert(s@ =~= seq![spec_digit_char(d as nat)]);
    }
    s
}

/// Renders a number in decimal.
pub fn decimal_string(n: u64) -> (s: String)
    ensures
        s@ == spec_decimal(n as nat),
    decreases n,
{
    if n < 10 {
        digit_str(n).to_owned()
    } else {
        let mut s = decimal_string(n / 10);
        s.append(digit_str(n % 10));
        proof {
            assert((n / 10) as nat == n as nat / 10);
            assert((n % 10) as nat == n as nat % 10);
        }
        s
    }
}

/// Renders a signed number in decimal.
pub fn decimal_string_signed(n: i32) -> (s: String)
    ensures
        s@ == spec_decimal_signed(n as int),
{
    if n >= 0 {
        decimal_string(n as u64)
    } else {
        let mag: u64 = (-(n as i64)) as u64;
        let mut s = String::from_str("-");
        let m = decimal_string(mag);
        s.append(m.as_str());
        proof {
            reveal_strlit("-");
            assert("-"@ =~= seq!['-']);
        }
        s
    }
}

fn spaces(n: usize) -> (s: String)
    ensures
        s@ == spec_spaces(n as nat),
{
    let mut s = String::new();
    let mut i: usize = 0;
    while i < n
        invariant
            i <= n,
            s@ == spec_spaces(i as nat),
        decreases n - i,
    {
        s.append(" ");
        i = i + 1;
        proof {
            reveal_strlit(" ");
            assert(" "@ =~= seq![' ']);
            assert(spec_spaces(i as nat) == spec_spaces((i - 1) as nat).push(' '));
            assert(s@ =~= spec_spaces(i as nat));
        }
    }
    s
}

/// Pads with spaces on the left up to width `w`.
pub fn pad_left(s: &str, w: usize) -> (r: String)
    ensures
        r@ == spec_pad_left(s@, w as nat),
{
    let len = s.unicode_len();
    if len >= w {
        s.to_owned()
    } else {
        let mut p = spaces(w - len);
        p.append(s);
        p
    }
}

/// Pads with spaces on the right up to width `w`.
pub fn pad_right(s: &str, w: usize) -> (r: String)
    ensures
        r@ == spec_pad_right(s@, w as nat),
{
    let len = s.unicode_len();
    if len >= w {
        s.to_owned()
    } else {
        let mut p = s.to_owned();
        let sp = spaces(w - len);
        p.append(sp.as_str());
        p
    }
}

/// Renders a whole number of seconds as `Hh Mm Ss`.
pub fn play_time_string(secs: u64) -> (s: String)
    ensures
        s@ == spec_play_time(secs as nat),
{
    let h = secs / 3600;
    let m = (secs % 3600) / 60;
    let sec = secs % 60;
    let mut s = decimal_string(h);
    s.append("h ");
    let ms = decimal_string(m);
    s.append(ms.as_str());
    s.append("m ");
    let ss = decimal_string(sec);
    s.append(ss.as_str());
    s.append("s");
    proof {
        assert(h as nat == secs as nat / 3600);
        assert(m as nat == (secs as nat % 3600) / 60);
        assert(sec as nat == secs as nat % 60);
    }
    s
}

} // verus!
