use vstd::prelude::*;
use vstd::arithmetic::div_mod::lemma_div_decreases;
use crate::components::DurationComponents;

verus! {

/// The decimal digit character for a value of 0 through 9.
pub open spec fn spec_digit(d: nat) -> char {
    if d == 0 {
        '0'
    } else if d == 1 {
        '1'
    } else if d == 2 {
        '2'
    } else if d == 3 {
        '3'
    } else if d == 4 {
        '4'
    } else if d == 5 {
        '5'
    } else if d == 6 {
        '6'
    } else if d == 7 {
        '7'
    } else if d == 8 {
        '8'
    } else {
        '9'
    }
}

/// The decimal rendering of `n`: no leading zeros, and a single `0` for zero.
pub open spec fn spec_u64_str(n: nat) -> Seq<char>
    decreases n,
    via spec_u64_str_decreases
{
    if n < 10 {
        seq![spec_digit(n)]
    } else {
        spec_u64_str(n / 10).push(spec_digit(n % 10))
    }
}

#[via_fn]
proof fn spec_u64_str_decreases(n: nat) {
    if n >= 10 {
        lemma_div_decreases(n as int, 10);
    }
}

/// A millisecond count rendered as exactly three digits, padded with zeros on
/// the left while it is under one thousand.
pub open spec fn spec_ms_padded(ms: nat) -> Seq<char> {
    if ms < 10 {
        seq!['0', '0'] + spec_u64_str(ms)
    } else if ms < 100 {
        seq!['0'] + spec_u64_str(ms)
    } else {
        spec_u64_str(ms)
    }
}

/// The trailing seconds token: bare seconds when there are no milliseconds,
/// and seconds with a three-digit decimal fraction otherwise.
pub open spec fn spec_seconds_field(secs: nat, ms: nat) -> Seq<char> {
    if ms == 0 {
        spec_u64_str(secs) + seq!['s']
    } else {
        spec_u64_str(secs) + seq!['.'] + spec_ms_padded(ms) + seq!['s']
    }
}

/// A unit token followed by a space: the count, its tag letter, then a blank.
pub open spec fn spec_unit_field(n: nat, tag: char) -> Seq<char> {
    spec_u64_str(n) + seq![tag, ' ']
}

/// The rendering of a decomposed duration: units are printed from the largest
/// non-zero one down to the seconds token, except that whole minutes with
/// nothing below them stand alone.
pub open spec fn spec_format_components(c: DurationComponents) -> Seq<char> {
    let tail = spec_seconds_field(c.seconds as nat, c.milliseconds as nat);
    if c.weeks > 0 {
        spec_unit_field(c.weeks as nat, 'w') + spec_unit_field(c.remaining_days as nat, 'd')
            + spec_unit_field(c.remaining_hours as nat, 'h') + spec_unit_field(
            c.minutes as nat,
            'm',
        ) + tail
    } else if c.remaining_days > 0 {
        spec_unit_field(c.remaining_days as nat, 'd') + spec_unit_field(
            c.remaining_hours as nat,
            'h',
        ) + spec_unit_field(c.minutes as nat, 'm') + tail
    } else if c.remaining_hours > 0 {
        spec_unit_field(c.remaining_hours as nat, 'h') + spec_unit_field(c.minutes as nat, 'm')
            + tail
    } else if c.minutes > 0 && (c.seconds > 0 || c.milliseconds > 0) {
        spec_unit_field(c.minutes as nat, 'm') + tail
    } else if c.minutes > 0 {
        spec_u64_str(c.minutes as nat) + seq!['m']
    } else {
        tail
    }
}

/// The single-character string for one decimal digit.
fn digit_str(d: u64) -> (r: &'static str)
    requires
        d < 10,
    ensures
        r@ == seq![spec_digit(d as nat)],
{
    if d == 0 {
        proof {
            reveal_strlit("0");
            assert("0"@ =~= seq![spec_digit(0)]);
        }
        "0"
    } else if d == 1 {
        proof {
            reveal_strlit("1");
            assert("1"@ =~= seq![spec_digit(1)]);
        }
        "1"
    } else if d == 2 {
        proof {
            reveal_strlit("2");
            assert("2"@ =~= seq![spec_digit(2)]);
        }
        "2"
    } else if d == 3 {
        proof {
            reveal_strlit("3");
            assert("3"@ =~= seq![spec_digit(3)]);
        }
        "3"
    } else if d == 4 {
        proof {
            reveal_strlit("4");
            assert("4"@ =~= seq![spec_digit(4)]);
        }
        "4"
    } else if d == 5 {
        proof {
            reveal_strlit("5");
            assert("5"@ =~= seq![spec_digit(5)]);
        }
        "5"
    } else if d == 6 {
        proof {
            reveal_strlit("6");
            assert("6"@ =~= seq![spec_digit(6)]);
        }
        "6"
    } else if d == 7 {
        proof {
            reveal_strlit("7");
            assert("7"@ =~= seq![spec_digit(7)]);
        }
        "7"
    } else if d == 8 {
        proof {
            reveal_strlit("8");
            assert("8"@ =~= seq![spec_digit(8)]);
        }
        "8"
    } else {
        proof {
            reveal_strlit("9");
            assert("9"@ =~= seq![spec_digit(9)]);
        }
        "9"
    }
}

/// Renders `n` in decimal.
fn u64_string(n: u64) -> (s: String)
    ensures
        s@ == spec_u64_str(n as nat),
    decreases n,
{
    if n < 10 {
        let mut s = String::new();
        s.append(digit_str(n));
        proof {
            assert(s@ =~= spec_u64_str(n as nat));
        }
        s
    } else {
        proof {
            lemma_div_decreases(n as int, 10);
        }
        let mut s = u64_string(n / 10);
        s.append(digit_str(n % 10));
        proof {
            assert(s@ =~= spec_u64_str(n as nat));
        }
        s
    }
}

/// Renders the trailing seconds token from the seconds and milliseconds left
/// after the larger units were removed.
fn seconds_field(secs: u64, ms: u32) -> (s: String)
    ensures
        s@ == spec_seconds_field(secs as nat, ms as nat),
{
    let mut s = u64_string(secs);
    if ms == 0 {
        s.append("s");
        proof {
            reveal_strlit("s");
            assert(s@ =~= spec_seconds_field(secs as nat, ms as nat));
        }
    } else {
        s.append(".");
        if ms < 10 {
            s.append("00");
        } else if ms < 100 {
            s.append("0");
        }
        let digits = u64_string(ms as u64);
        s.append(digits.as_str());
        s.append("s");
        proof {
            reveal_strlit(".");
            reveal_strlit("00");
            reveal_strlit("0");
            reveal_strlit("s");
            assert(s@ =~= spec_seconds_field(secs as nat, ms as nat));
        }
    }
    s
}

/// Appends one unit token: the count in decimal, then the given tag text.
fn append_unit(s: &mut String, value: u64, tag: &str)
    ensures
        final(s)@ == old(s)@ + spec_u64_str(value as nat) + tag@,
{
    let digits = u64_string(value);
    s.append(digits.as_str());
    s.append(tag);
}

/// Renders a decomposed duration, printing the units from the largest
/// non-zero one down to the seconds token; whole minutes with zero seconds
/// and zero milliseconds stand alone.
pub fn format_duration_format(components: &DurationComponents) -> (r: String)
    ensures
        r@ == spec_format_components(*components),
{
    let tail = seconds_field(components.seconds, components.milliseconds);
    let mut s = String::new();
    if components.weeks > 0 {
        append_unit(&mut s, components.weeks, "w ");
        append_unit(&mut s, components.remaining_days, "d ");
        append_unit(&mut s, components.remaining_hours, "h ");
        append_unit(&mut s, components.minutes, "m ");
        s.append(tail.as_str());
        proof {
            reveal_strlit("w ");
            reveal_strlit("d ");
            reveal_strlit("h ");
            reveal_strlit("m ");
            assert("w "@ =~= seq!['w', ' ']);
            assert("d "@ =~= seq!['d', ' ']);
            assert("h "@ =~= seq!['h', ' ']);
            assert("m "@ =~= seq!['m', ' ']);
            assert(s@ =~= spec_format_components(*components));
        }
    } else if components.remaining_days > 0 {
        append_unit(&mut s, components.remaining_days, "d ");
        append_unit(&mut s, components.remaining_hours, "h ");
        append_unit(&mut s, components.minutes, "m ");
        s.append(tail.as_str());
        proof {
            reveal_strlit("d ");
            reveal_strlit("h ");
            reveal_strlit("m ");
            assert("d "@ =~= seq!['d', ' ']);
            assert("h "@ =~= seq!['h', ' ']);
            assert("m "@ =~= seq!['m', ' ']);
            assert(s@ =~= spec_format_components(*components));
        }
    } else if components.remaining_hours > 0 {
        append_unit(&mut s, components.remaining_hours, "h ");
        append_unit(&mut s, components.minutes, "m ");
        s.append(tail.as_str());
        proof {
            reveal_strlit("h ");
            reveal_strlit("m ");
            assert("h "@ =~= seq!['h', ' ']);
            assert("m "@ =~= seq!['m', ' ']);
            assert(s@ =~= spec_format_components(*components));
        }
    } else if components.minutes > 0 && (components.seconds > 0 || components.milliseconds > 0) {
        append_unit(&mut s, components.minutes, "m ");
        s.append(tail.as_str());
        proof {
            reveal_strlit("m ");
            assert("m "@ =~= seq!['m', ' ']);
            assert(s@ =~= spec_format_components(*components));
        }
    } else if components.minutes > 0 {
        append_unit(&mut s, components.minutes, "m");
        proof {
            reveal_strlit("m");
            assert("m"@ =~= seq!['m']);
            assert(s@ =~= spec_format_components(*components));
        }
    } else {
        s.append(tail.as_str());
        proof {
            assert(s@ =~= spec_format_components(*components));
        }
    }
    s
}

/// Rendering is deterministic: equal component values give the same text.
pub proof fn lemma_format_deterministic(c1: DurationComponents, c2: DurationComponents)
    requires
        c1 == c2,
    ensures
        spec_format_components(c1) == spec_format_components(c2),
{
}

/// Every decimal rendering holds at least one character.
pub proof fn lemma_u64_str_nonempty(n: nat)
    ensures
        spec_u64_str(n).len() >= 1,
    decreases n,
{
    if n >= 10 {
        lemma_div_decreases(n as int, 10);
        lemma_u64_str_nonempty(n / 10);
    }
}

/// No duration renders as the empty string.
pub proof fn lemma_format_nonempty(c: DurationComponents)
    ensures
        spec_format_components(c).len() > 0,
{
    lemma_u64_str_nonempty(c.seconds as nat);
    lemma_u64_str_nonempty(c.minutes as nat);
    if c.weeks > 0 {
        lemma_u64_str_nonempty(c.weeks as nat);
    }
    if c.remaining_days > 0 {
        lemma_u64_str_nonempty(c.remaining_days as nat);
    }
    if c.remaining_hours > 0 {
        lemma_u64_str_nonempty(c.remaining_hours as nat);
    }
}

} // verus!
