//! Run times: the mean of a list of run times, and the text shown for a run time.
//!
//! Writing a duration out in words such as `1h 52m` is left to humantime.

use crate::text::{opt_text, present_or, text_or};
use vstd::prelude::*;
use vstd::string::*;

verus! {

/// What humantime's `format_duration` writes for a duration of that many whole seconds.
pub uninterp spec fn duration_text(seconds: int) -> Seq<char>;

/// The text shown in place of a run time that is not known.
pub open spec fn unknown() -> Seq<char> {
    "Unknown"@
}

/// The sum of a list of run times.
pub open spec fn total(values: Seq<u32>) -> int
    decreases values.len(),
{
    if values.len() == 0 {
        0
    } else {
        total(values.drop_last()) + values.last()
    }
}

/// The arithmetic mean of a list of run times, rounded down to a whole number. The
/// list is meant to hold at least one run time.
pub open spec fn mean(values: Seq<u32>) -> int {
    total(values) / (values.len() as int)
}

/// What is written for a run time in minutes that may be missing.
pub open spec fn written_runtime(minutes: Option<int>) -> Option<Seq<char>> {
    match minutes {
        Some(m) => Some(duration_text(m * 60)),
        None => None,
    }
}

/// The text shown for a run time that may have been written out: what was written, or
/// `Unknown` where nothing was.
pub open spec fn shown_runtime(written: Option<Seq<char>>) -> Seq<char> {
    present_or(written, unknown())
}

/// The mean run time of a list, or nothing for an empty list.
pub open spec fn mean_of(values: Seq<u32>) -> Option<int> {
    if values.len() == 0 {
        None
    } else {
        Some(mean(values))
    }
}

/// humantime's `format_duration` on a `Duration` of whole seconds, written out to a
/// string.
#[verifier::external_body]
fn format_seconds(seconds: u64) -> (text: String)
    ensures
        text@ == duration_text(seconds as int),
{
    humantime::format_duration(std::time::Duration::from_secs(seconds)).to_string()
}

proof fn lemma_total_bounds(values: Seq<u32>)
    ensures
        0 <= total(values) <= values.len() * 0xffff_ffff,
    decreases values.len(),
{
    if values.len() > 0 {
        lemma_total_bounds(values.drop_last());
    }
}

/// The arithmetic mean of the run times, rounded down to a whole number.
pub fn average(values: &Vec<u32>) -> (whole: u32)
    requires
        values.len() > 0,
    ensures
        whole == mean(values@),
{
    let n: usize = values.len();
    let mut sum: u128 = 0;
    let mut i: usize = 0;
    proof {
        assert(values@.take(0) =~= Seq::<u32>::empty());
    }
    while i < n
        invariant
            n == values.len(),
            i <= n,
            sum == total(values@.take(i as int)),
        decreases n - i,
    {
        proof {
            assert(values@.take(i + 1).drop_last() =~= values@.take(i as int));
            lemma_total_bounds(values@.take(i as int));
            assert(i * 0xffff_ffff <= 0xffff_ffff_ffff_ffff * 0xffff_ffff) by (nonlinear_arith)
                requires
                    i <= 0xffff_ffff_ffff_ffff,
            ;
        }
        sum = sum + values[i] as u128;
        i = i + 1;
    }
    proof {
        assert(values@.take(n as int) =~= values@);
        lemma_total_bounds(values@);
        assert(total(values@) / (n as int) <= 0xffff_ffff) by (nonlinear_arith)
            requires
                0 <= total(values@) <= n * 0xffff_ffff,
                n > 0,
        ;
    }
    let whole: u128 = sum / (n as u128);
    whole as u32
}

/// Writes a run time of so many minutes in words.
pub fn minutes_text(minutes: u32) -> (text: String)
    ensures
        text@ == duration_text(minutes * 60),
{
    let seconds: u64 = minutes as u64 * 60;
    format_seconds(seconds)
}

/// Writes a run time in minutes, if there is one.
pub fn write_runtime(minutes: Option<u32>) -> (written: Option<String>)
    ensures
        opt_text(written) == written_runtime(
            match minutes {
                Some(m) => Some(m as int),
                None => None,
            },
        ),
{
    match minutes {
        Some(m) => Some(minutes_text(m)),
        None => None,
    }
}

/// Writes the mean of a list of run times in minutes, if the list holds any.
pub fn write_mean_runtime(values: &Vec<u32>) -> (written: Option<String>)
    ensures
        opt_text(written) == written_runtime(mean_of(values@)),
{
    if values.len() == 0 {
        None
    } else {
        Some(minutes_text(average(values)))
    }
}

/// The text to show for a run time that may have been written out.
pub fn runtime_or_unknown(written: Option<String>) -> (text: String)
    ensures
        text@ == shown_runtime(opt_text(written)),
{
    text_or(written, "Unknown")
}

} // verus!
