//! The block of statistics that follows the output of the child.
//!
//! The numbers arrive as decimal text, so that this module lays out the block
//! and leaves the rounding of the figures to whoever prints them.

use vstd::prelude::*;
use vstd::string::StringExecFns;

verus! {

/// The three durations of a report, each as decimal text in seconds.
pub struct Durations {
    pub real_time: String,
    pub user_time: String,
    pub sys_time: String,
}

/// The line of the peak memory: an empty line, then the label, a tab, the
/// figure and its unit.
pub open spec fn spec_peak_line(peak: Seq<char>) -> Seq<char> {
    "\npeak\t"@ + peak + "MiB\n"@
}

/// The lines of the three durations, each a label, a tab, the figure and `s`,
/// and an empty line after them.
pub open spec fn spec_times_block(
    real_time: Seq<char>,
    user_time: Seq<char>,
    sys_time: Seq<char>,
) -> Seq<char> {
    "real\t"@ + real_time + "s\nuser\t"@ + user_time + "s\nsys\t"@ + sys_time + "s\n\n"@
}

/// The whole block: the peak, then the durations where there are any.
pub open spec fn spec_render(peak: Seq<char>, durations: Option<Durations>) -> Seq<char> {
    match durations {
        Some(d) => spec_peak_line(peak) + spec_times_block(d.real_time@, d.user_time@, d.sys_time@),
        None => spec_peak_line(peak),
    }
}

/// Lays out the block of statistics. `peak` is the peak memory as text;
/// `durations` is absent where the timing could not be had, and then the
/// block has no line for any of them.
pub fn render(peak: &str, durations: &Option<Durations>) -> (text: String)
    ensures
        text@ == spec_render(peak@, *durations),
{
    let mut text = String::from_str("\npeak\t");
    text.append(peak);
    text.append("MiB\n");
    match durations {
        Some(d) => {
            text.append("real\t");
            text.append(d.real_time.as_str());
            text.append("s\nuser\t");
            text.append(d.user_time.as_str());
            text.append("s\nsys\t");
            text.append(d.sys_time.as_str());
            text.append("s\n\n");
            assert(text@ == spec_peak_line(peak@) + spec_times_block(d.real_time@, d.user_time@, d.sys_time@));
        },
        None => {},
    }
    text
}

} // verus!
