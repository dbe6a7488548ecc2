mod clock;
mod components;
mod render;

pub use components::DurationComponents;
pub use components::duration_components_wf;
pub use components::format_duration_calculate;
pub use components::lemma_decompose_in_range;
pub use components::lemma_decompose_reconstructs;
pub use components::spec_decompose;
pub use components::spec_total_seconds;
pub use render::format_duration_format;
pub use render::lemma_format_deterministic;
pub use render::lemma_format_nonempty;
pub use render::spec_format_components;
pub use render::spec_seconds_field;
pub use render::spec_u64_str;

use vstd::prelude::*;

verus! {

/// The text for a duration of `total_seconds` whole seconds and
/// `subsec_millis` leftover milliseconds: its decomposition, rendered.
pub open spec fn spec_format_duration(total_seconds: u64, subsec_millis: u32) -> Seq<char> {
    render::spec_format_components(components::spec_decompose(total_seconds, subsec_millis))
}

/// Formats a duration of `total_seconds` whole seconds and `subsec_millis`
/// leftover milliseconds as human-readable text, such as `2m 5s` or `0.500s`:
/// units from the largest non-zero one down to a seconds token that carries
/// the milliseconds as a three-digit decimal fraction, except that whole
/// minutes with nothing below them stand alone, as in `1m`.
pub fn format_duration(total_seconds: u64, subsec_millis: u32) -> (r: String)
    requires
        subsec_millis < 1000,
    ensures
        r@ == spec_format_duration(total_seconds, subsec_millis),
        r@.len() > 0,
{
    let c = components::format_duration_calculate(total_seconds, subsec_millis);
    proof {
        render::lemma_format_nonempty(c);
    }
    render::format_duration_format(&c)
}

/// Runs `action` once, measures how long it took on the monotonic clock, and
/// returns that time formatted as `format_duration` would format it.
pub fn measure_elapsed_time<F>(action: F) -> (r: String) where F: FnOnce()
    requires
        call_requires(action, ()),
    ensures
        call_ensures(action, (), ()),
        exists|total_seconds: u64, subsec_millis: u32|
            subsec_millis < 1000 && r@ == spec_format_duration(total_seconds, subsec_millis),
        r@.len() > 0,
{
    let start = clock::monotonic_now();
    action();
    let (total_seconds, subsec_millis) = clock::elapsed_parts(&start);
    format_duration(total_seconds, subsec_millis)
}

} // verus!
