//! Parsing of human-readable duration strings, as used for the poll-interval
//! field of the configuration file.
//!
//! A duration string is one or more items, each a run of decimal digits
//! followed by a unit name (for example `"30s"` or `"1m 30s"`); items may be
//! separated by spaces or tabs. The value of the string is the sum of the
//! item values, in milliseconds. A string with no item, a number without a
//! unit, an unknown unit, or a total that does not fit in a `u64` does not
//! parse.
//!
//! The grammar is deliberately narrower than the wider human-readable
//! duration conventions: numbers are whole, and the finest unit is the
//! millisecond — the model of a poll interval here. Fractional values
//! (`"1.5h"`), sub-millisecond units and the month and year units (whose
//! length is a calendar convention, not a poll interval) are rejected, so
//! such an interval fails the configuration load openly instead of being
//! rounded in silence.

use vstd::prelude::*;

verus! {

pub open spec fn is_space_char(c: char) -> bool {
    c == ' ' || c == '\t'
}

pub open spec fn is_digit_char(c: char) -> bool {
    '0' as int <= c as int <= '9' as int
}

pub open spec fn is_alpha_char(c: char) -> bool {
    ('a' as int <= c as int <= 'z' as int) || ('A' as int <= c as int <= 'Z' as int)
}

pub open spec fn digit_value(c: char) -> nat
    recommends
        is_digit_char(c),
{
    (c as int - '0' as int) as nat
}

/// First position at or after `i` that does not hold a space character.
pub open spec fn skip_spaces(s: Seq<char>, i: int) -> int
    decreases s.len() - i,
{
    if 0 <= i < s.len() && is_space_char(s[i]) {
        skip_spaces(s, i + 1)
    } else {
        i
    }
}

/// First position at or after `i` that does not hold a decimal digit.
pub open spec fn scan_digits(s: Seq<char>, i: int) -> int
    decreases s.len() - i,
{
    if 0 <= i < s.len() && is_digit_char(s[i]) {
        scan_digits(s, i + 1)
    } else {
        i
    }
}

/// First position at or after `i` that does not hold a letter.
pub open spec fn scan_alphas(s: Seq<char>, i: int) -> int
    decreases s.len() - i,
{
    if 0 <= i < s.len() && is_alpha_char(s[i]) {
        scan_alphas(s, i + 1)
    } else {
        i
    }
}

/// Value of the digit run `s[i..j]`, read as a decimal number.
pub open spec fn digits_value(s: Seq<char>, i: int, j: int) -> nat
    decreases j - i,
{
    if i < j {
        digits_value(s, i, j - 1) * 10 + digit_value(s[j - 1])
    } else {
        0
    }
}

/// Milliseconds per one of the accepted unit names, `None` for any other
/// letter run.
pub open spec fn unit_factor_ms(u: Seq<char>) -> Option<nat> {
    if u == "ms"@ || u == "msec"@ || u == "millis"@ {
        Some(1nat)
    } else if u == "s"@ || u == "sec"@ || u == "secs"@ || u == "second"@ || u == "seconds"@ {
        Some(1000nat)
    } else if u == "m"@ || u == "min"@ || u == "mins"@ || u == "minute"@ || u == "minutes"@ {
        Some(60000nat)
    } else if u == "h"@ || u == "hr"@ || u == "hrs"@ || u == "hour"@ || u == "hours"@ {
        Some(3600000nat)
    } else if u == "d"@ || u == "day"@ || u == "days"@ {
        Some(86400000nat)
    } else if u == "w"@ || u == "wk"@ || u == "wks"@ || u == "week"@ || u == "weeks"@ {
        Some(604800000nat)
    } else {
        None
    }
}

/// One item at position `j`: a non-empty digit run, then a non-empty letter
/// run naming a unit. Yields the item's value in milliseconds and the
/// position after the unit.
pub open spec fn parse_item(s: Seq<char>, j: int) -> Option<(nat, int)> {
    let de = scan_digits(s, j);
    if de == j {
        None
    } else {
        let ue = scan_alphas(s, de);
        if ue == de {
            None
        } else {
            match unit_factor_ms(s.subrange(de, ue)) {
                Some(f) => Some((digits_value(s, j, de) * f, ue)),
                None => None,
            }
        }
    }
}

#[via_fn]
proof fn parse_from_decreases(s: Seq<char>, i: int, acc: nat) {
    if 0 <= i <= s.len() {
        lemma_skip_spaces(s, i);
        let j = skip_spaces(s, i);
        if j != s.len() {
            lemma_scan_digits(s, j);
            let de = scan_digits(s, j);
            if de != j {
                lemma_scan_alphas(s, de);
            }
        }
    }
}

/// Items from position `i` on, each added to `acc`; the whole parse fails if
/// an item is malformed or a partial sum would exceed `u64::MAX`.
pub open spec fn parse_from(s: Seq<char>, i: int, acc: nat) -> Option<nat>
    decreases s.len() - i,
    via parse_from_decreases
{
    if !(0 <= i <= s.len()) {
        None
    } else {
        let j = skip_spaces(s, i);
        if j == s.len() {
            Some(acc)
        } else {
            match parse_item(s, j) {
                None => None,
                Some((v, e)) => {
                    if acc + v > u64::MAX {
                        None
                    } else {
                        parse_from(s, e, (acc + v) as nat)
                    }
                },
            }
        }
    }
}

/// The value, in milliseconds, of a duration string, or `None` where the
/// string holds no item, a malformed item, or a total beyond `u64::MAX`.
pub open spec fn spec_parse_duration_ms(s: Seq<char>) -> Option<nat> {
    if skip_spaces(s, 0) == s.len() {
        None
    } else {
        parse_from(s, 0, 0)
    }
}

pub proof fn lemma_skip_spaces(s: Seq<char>, i: int)
    requires
        0 <= i <= s.len(),
    ensures
        i <= skip_spaces(s, i) <= s.len(),
        skip_spaces(s, i) < s.len() ==> !is_space_char(s[skip_spaces(s, i)]),
    decreases s.len() - i,
{
    if i < s.len() && is_space_char(s[i]) {
        lemma_skip_spaces(s, i + 1);
    }
}

pub proof fn lemma_scan_digits(s: Seq<char>, i: int)
    requires
        0 <= i <= s.len(),
    ensures
        i <= scan_digits(s, i) <= s.len(),
        scan_digits(s, i) < s.len() ==> !is_digit_char(s[scan_digits(s, i)]),
    decreases s.len() - i,
{
    if i < s.len() && is_digit_char(s[i]) {
        lemma_scan_digits(s, i + 1);
    }
}

pub proof fn lemma_scan_alphas(s: Seq<char>, i: int)
    requires
        0 <= i <= s.len(),
    ensures
        i <= scan_alphas(s, i) <= s.len(),
        scan_alphas(s, i) < s.len() ==> !is_alpha_char(s[scan_alphas(s, i)]),
    decreases s.len() - i,
{
    if i < s.len() && is_alpha_char(s[i]) {
        lemma_scan_alphas(s, i + 1);
    }
}

/// A successful parse never exceeds `u64::MAX`: partial sums are checked
/// before they are carried forward.
pub proof fn lemma_parse_from_bounded(s: Seq<char>, i: int, acc: nat)
    requires
        acc <= u64::MAX,
        parse_from(s, i, acc) is Some,
    ensures
        parse_from(s, i, acc)->Some_0 <= u64::MAX,
    decreases s.len() - i,
{
    if 0 <= i <= s.len() {
        let j = skip_spaces(s, i);
        if j != s.len() {
            match parse_item(s, j) {
                None => {},
                Some((v, e)) => {
                    if acc + v <= u64::MAX {
                        lemma_skip_spaces(s, i);
                        lemma_scan_digits(s, j);
                        lemma_scan_alphas(s, scan_digits(s, j));
                        lemma_parse_from_bounded(s, e, (acc + v) as nat);
                    }
                },
            }
        }
    }
}

/// The scaffolded poll interval: the string `"30s"` is thirty seconds.
pub proof fn lemma_parse_30s()
    ensures
        spec_parse_duration_ms("30s"@) == Some(30000nat),
{
    reveal_strlit("30s");
    reveal_strlit("ms");
    reveal_strlit("msec");
    reveal_strlit("millis");
    reveal_strlit("s");
    let s = "30s"@;
    assert(skip_spaces(s, 0) == 0);
    assert(scan_digits(s, 2) == 2);
    assert(scan_digits(s, 1) == 2);
    assert(scan_digits(s, 0) == 2);
    assert(digits_value(s, 0, 0) == 0);
    assert(digits_value(s, 0, 1) == 3);
    assert(digits_value(s, 0, 2) == 30);
    assert(scan_alphas(s, 3) == 3);
    assert(scan_alphas(s, 2) == 3);
    let u = s.subrange(2, 3);
    assert(u =~= seq!['s']);
    assert("s"@ =~= seq!['s']);
    assert(u != "ms"@ && u != "msec"@ && u != "millis"@);
    assert(unit_factor_ms(u) == Some(1000nat));
    assert(parse_item(s, 0) == Some((30000nat, 3int)));
    assert(skip_spaces(s, 3) == 3);
    assert(parse_from(s, 3, 30000nat) == Some(30000nat));
    assert(parse_from(s, 0, 0) == Some(30000nat));
}

fn is_space_exec(c: char) -> (b: bool)
    ensures
        b == is_space_char(c),
{
    c == ' ' || c == '\t'
}

fn is_digit_exec(c: char) -> (b: bool)
    ensures
        b == is_digit_char(c),
{
    let u = c as u32;
    48 <= u && u <= 57
}

fn is_alpha_exec(c: char) -> (b: bool)
    ensures
        b == is_alpha_char(c),
{
    let u = c as u32;
    (97 <= u && u <= 122) || (65 <= u && u <= 90)
}

fn skip_spaces_exec(s: &str, i: usize, n: usize) -> (j: usize)
    requires
        n == s@.len(),
        i <= n,
    ensures
        j as int == skip_spaces(s@, i as int),
        i <= j <= n,
{
    let mut cur: usize = i;
    loop
        invariant
            n == s@.len(),
            i <= cur <= n,
            skip_spaces(s@, i as int) == skip_spaces(s@, cur as int),
        ensures
            cur == n || !is_space_char(s@[cur as int]),
        decreases n - cur,
    {
        if cur < n {
            let c = s.get_char(cur);
            if is_space_exec(c) {
                cur = cur + 1;
                continue;
            }
        }
        break;
    }
    cur
}

fn scan_alphas_exec(s: &str, i: usize, n: usize) -> (j: usize)
    requires
        n == s@.len(),
        i <= n,
    ensures
        j as int == scan_alphas(s@, i as int),
        i <= j <= n,
{
    let mut cur: usize = i;
    loop
        invariant
            n == s@.len(),
            i <= cur <= n,
            scan_alphas(s@, i as int) == scan_alphas(s@, cur as int),
        ensures
            cur == n || !is_alpha_char(s@[cur as int]),
        decreases n - cur,
    {
        if cur < n {
            let c = s.get_char(cur);
            if is_alpha_exec(c) {
                cur = cur + 1;
                continue;
            }
        }
        break;
    }
    cur
}

/// Scans the digit run beginning at `i`; yields its end, its value, and
/// whether the value exceeds `u64::MAX`.
fn scan_digits_exec(s: &str, i: usize, n: usize) -> (r: (usize, u64, bool))
    requires
        n == s@.len(),
        i <= n,
    ensures
        r.0 as int == scan_digits(s@, i as int),
        i <= r.0 <= n,
        !r.2 ==> r.1 as nat == digits_value(s@, i as int, r.0 as int),
        r.2 ==> digits_value(s@, i as int, r.0 as int) > u64::MAX,
{
    let mut cur: usize = i;
    let mut val: u64 = 0;
    let mut ovf: bool = false;
    loop
        invariant
            n == s@.len(),
            i <= cur <= n,
            scan_digits(s@, i as int) == scan_digits(s@, cur as int),
            !ovf ==> val as nat == digits_value(s@, i as int, cur as int),
            ovf ==> digits_value(s@, i as int, cur as int) > u64::MAX,
        ensures
            cur == n || !is_digit_char(s@[cur as int]),
        decreases n - cur,
    {
        if cur < n {
            let c = s.get_char(cur);
            if is_digit_exec(c) {
                let d: u64 = (c as u32 as u64) - 48;
                assert(d as nat == digit_value(c));
                if !ovf {
                    match val.checked_mul(10) {
                        Some(v10) => {
                            match v10.checked_add(d) {
                                Some(v) => {
                                    val = v;
                                },
                                None => {
                                    ovf = true;
                                },
                            }
                        },
                        None => {
                            proof {
                                assert(val * 10 + d > u64::MAX) by (nonlinear_arith)
                                    requires
                                        val * 10 > u64::MAX,
                                        d >= 0,
                                ;
                            }
                            ovf = true;
                        },
                    }
                } else {
                    proof {
                        let old_v = digits_value(s@, i as int, cur as int);
                        assert(old_v * 10 + digit_value(c) > u64::MAX) by (nonlinear_arith)
                            requires
                                old_v > u64::MAX,
                                digit_value(c) >= 0,
                        ;
                    }
                }
                cur = cur + 1;
                continue;
            }
        }
        break;
    }
    (cur, val, ovf)
}

fn unit_factor_exec(u: &str) -> (r: Option<u64>)
    ensures
        match unit_factor_ms(u@) {
            Some(f) => r == Some(f as u64) && 1 <= f <= 604800000,
            None => r is None,
        },
{
    let s = u.to_owned();
    if s == String::from_str("ms") || s == String::from_str("msec") || s == String::from_str(
        "millis",
    ) {
        Some(1)
    } else if s == String::from_str("s") || s == String::from_str("sec") || s == String::from_str(
        "secs",
    ) || s == String::from_str("second") || s == String::from_str("seconds") {
        Some(1000)
    } else if s == String::from_str("m") || s == String::from_str("min") || s == String::from_str(
        "mins",
    ) || s == String::from_str("minute") || s == String::from_str("minutes") {
        Some(60000)
    } else if s == String::from_str("h") || s == String::from_str("hr") || s == String::from_str(
        "hrs",
    ) || s == String::from_str("hour") || s == String::from_str("hours") {
        Some(3600000)
    } else if s == String::from_str("d") || s == String::from_str("day") || s == String::from_str(
        "days",
    ) {
        Some(86400000)
    } else if s == String::from_str("w") || s == String::from_str("wk") || s == String::from_str(
        "wks",
    ) || s == String::from_str("week") || s == String::from_str("weeks") {
        Some(604800000)
    } else {
        None
    }
}

/// Parses a duration string to milliseconds, `None` where it is not a valid
/// duration or its total does not fit in a `u64`.
pub fn parse_duration_ms(s: &str) -> (r: Option<u64>)
    ensures
        match spec_parse_duration_ms(s@) {
            Some(v) => r == Some(v as u64),
            None => r is None,
        },
{
    let n = s.unicode_len();
    let j0 = skip_spaces_exec(s, 0, n);
    if j0 == n {
        return None;
    }
    let mut i: usize = 0;
    let mut acc: u64 = 0;
    loop
        invariant
            n == s@.len(),
            i <= n,
            skip_spaces(s@, 0) != s@.len(),
            parse_from(s@, 0, 0) == parse_from(s@, i as int, acc as nat),
        decreases n - i,
    {
        let j = skip_spaces_exec(s, i, n);
        if j == n {
            proof {
                lemma_parse_from_bounded(s@, i as int, acc as nat);
            }
            return Some(acc);
        }
        let (de, dval, dovf) = scan_digits_exec(s, j, n);
        if de == j {
            return None;
        }
        let ue = scan_alphas_exec(s, de, n);
        if ue == de {
            return None;
        }
        let unit = s.substring_char(de, ue);
        let f = match unit_factor_exec(unit) {
            None => {
                assert(unit@ == s@.subrange(de as int, ue as int));
                return None;
            },
            Some(f) => f,
        };
        assert(unit_factor_ms(s@.subrange(de as int, ue as int)) == Some(f as nat));
        if dovf {
            proof {
                let dv = digits_value(s@, j as int, de as int);
                assert(dv * f > u64::MAX) by (nonlinear_arith)
                    requires
                        dv > u64::MAX,
                        f >= 1,
                ;
            }
            return None;
        }
        let v = match dval.checked_mul(f) {
            None => {
                return None;
            },
            Some(v) => v,
        };
        let acc2 = match acc.checked_add(v) {
            None => {
                return None;
            },
            Some(a) => a,
        };
        proof {
            assert(parse_item(s@, j as int) == Some((v as nat, ue as int)));
            assert(parse_from(s@, i as int, acc as nat) == parse_from(
                s@,
                ue as int,
                acc2 as nat,
            ));
        }
        i = ue;
        acc = acc2;
    }
}

} // verus!

