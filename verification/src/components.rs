use vstd::prelude::*;
use vstd::arithmetic::div_mod::{
    lemma_div_denominator, lemma_fundamental_div_mod, lemma_fundamental_div_mod_converse_div,
    lemma_mod_breakdown, lemma_mod_division_less_than_divisor,
};

verus! {

/// A duration split into calendar-like units that do not overlap: every field
/// but `weeks` is the remainder left after the larger units were removed.
#[derive(Debug, Clone, Copy, PartialEq, Eq, Structural)]
pub struct DurationComponents {
    pub weeks: u64,
    pub remaining_days: u64,
    pub remaining_hours: u64,
    pub minutes: u64,
    pub seconds: u64,
    pub milliseconds: u32,
}

/// The mathematical decomposition of a duration of `total_seconds` whole
/// seconds and `subsec_millis` leftover milliseconds.
pub open spec fn spec_decompose(total_seconds: u64, subsec_millis: u32) -> DurationComponents {
    DurationComponents {
        weeks: total_seconds / 604800,
        remaining_days: (total_seconds / 86400) % 7,
        remaining_hours: (total_seconds / 3600) % 24,
        minutes: (total_seconds / 60) % 60,
        seconds: total_seconds % 60,
        milliseconds: subsec_millis,
    }
}

/// The whole seconds that a decomposition stands for, read back from its fields.
pub open spec fn spec_total_seconds(c: DurationComponents) -> int {
    c.weeks * 604800 + c.remaining_days * 86400 + c.remaining_hours * 3600 + c.minutes * 60
        + c.seconds
}

/// Every field below `weeks` stays under the size of the next larger unit.
pub open spec fn duration_components_wf(c: DurationComponents) -> bool {
    &&& c.remaining_days < 7
    &&& c.remaining_hours < 24
    &&& c.minutes < 60
    &&& c.seconds < 60
    &&& c.milliseconds < 1000
}

/// The arithmetic behind the decomposition: cascaded divisions agree with
/// division by the combined unit sizes, and the fields rebuild the input.
proof fn lemma_decompose_arith(x: int)
    requires
        0 <= x,
    ensures
        x / 3600 / 24 == x / 86400,
        x / 86400 / 7 == x / 604800,
        (x % 3600) / 60 == (x / 60) % 60,
        x / 604800 * 604800 + ((x / 86400) % 7) * 86400 + ((x / 3600) % 24) * 3600 + ((x / 60)
            % 60) * 60 + x % 60 == x,
{
    lemma_div_denominator(x, 3600, 24);
    lemma_div_denominator(x, 86400, 7);
    lemma_div_denominator(x, 60, 60);
    lemma_mod_division_less_than_divisor(x, 60);
    lemma_mod_breakdown(x, 60, 60);
    lemma_fundamental_div_mod_converse_div(x % 3600, 60, (x / 60) % 60, x % 60);
    lemma_fundamental_div_mod(x, 60);
    lemma_fundamental_div_mod(x / 60, 60);
    lemma_fundamental_div_mod(x / 3600, 24);
    lemma_fundamental_div_mod(x / 86400, 7);
    assert(x == 3600 * (x / 3600) + 60 * ((x / 60) % 60) + x % 60);
    assert(x / 3600 == 24 * (x / 86400) + (x / 3600) % 24);
    assert(x / 86400 == 7 * (x / 604800) + (x / 86400) % 7);
}

/// Rebuilding a decomposed duration gives back exactly the seconds and
/// milliseconds that went in.
pub proof fn lemma_decompose_reconstructs(total_seconds: u64, subsec_millis: u32)
    ensures
        spec_total_seconds(spec_decompose(total_seconds, subsec_millis)) == total_seconds,
        spec_decompose(total_seconds, subsec_millis).milliseconds == subsec_millis,
{
    lemma_decompose_arith(total_seconds as int);
}

/// Every decomposition keeps its fields inside the unit ranges, provided the
/// millisecond remainder it was given is itself under one second.
pub proof fn lemma_decompose_in_range(total_seconds: u64, subsec_millis: u32)
    requires
        subsec_millis < 1000,
    ensures
        duration_components_wf(spec_decompose(total_seconds, subsec_millis)),
{
    let x = total_seconds as int;
    lemma_mod_division_less_than_divisor(x / 86400, 7);
    lemma_mod_division_less_than_divisor(x / 3600, 24);
    lemma_mod_division_less_than_divisor(x / 60, 60);
    lemma_mod_division_less_than_divisor(x, 60);
}

/// Splits a duration of `total_seconds` whole seconds and `subsec_millis`
/// leftover milliseconds into weeks, days, hours, minutes, seconds and
/// milliseconds, with no overlap between the units.
pub fn format_duration_calculate(total_seconds: u64, subsec_millis: u32) -> (c:
    DurationComponents)
    requires
        subsec_millis < 1000,
    ensures
        c == spec_decompose(total_seconds, subsec_millis),
        duration_components_wf(c),
        spec_total_seconds(c) == total_seconds,
        c.milliseconds == subsec_millis,
{
    let hours: u64 = total_seconds / 3600;
    let days: u64 = hours / 24;
    let weeks: u64 = days / 7;
    let remaining_days: u64 = days % 7;
    let remaining_hours: u64 = hours % 24;
    let minutes: u64 = (total_seconds % 3600) / 60;
    let seconds: u64 = total_seconds % 60;
    proof {
        lemma_decompose_arith(total_seconds as int);
        lemma_decompose_reconstructs(total_seconds, subsec_millis);
        lemma_decompose_in_range(total_seconds, subsec_millis);
    }
    DurationComponents {
        weeks,
        remaining_days,
        remaining_hours,
        minutes,
        seconds,
        milliseconds: subsec_millis,
    }
}

} // verus!
