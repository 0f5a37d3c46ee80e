//! The line that reports a phase: its name, after "Today is a " unless
//! asked for short, or its glyph.
use crate::age::{calculate_lunar_age, lunar_age_of, SYNODIC_MONTH_NANOS};
use crate::clock::time_since_nm;
use crate::phase::{classify_age, phase_of_age, table_end, MoonPhase};
use vstd::prelude::*;
use vstd::string::StringExecFns;

verus! {

/// How the phase is shown.
#[derive(PartialEq, Eq, Structural, Clone, Copy, Debug)]
pub struct DisplayOptions {
    /// Show the glyph in place of the text.
    pub emoji: bool,
    /// Leave out the leading "Today is a " before the text.
    pub short_text: bool,
}

/// The line that shows `phase`: the glyph where `emoji` is set (whatever
/// `short_text` says), else the name, after "Today is a " unless
/// `short_text` is set.
pub open spec fn spec_phase_line(phase: MoonPhase, options: DisplayOptions) -> Seq<char> {
    if options.emoji {
        phase.spec_glyph()
    } else if options.short_text {
        phase.spec_name()
    } else {
        "Today is a "@ + phase.spec_name()
    }
}

/// The line shown for a moment `elapsed_seconds` after the reference new
/// moon.
pub open spec fn spec_report(elapsed_seconds: int, options: DisplayOptions) -> Seq<char> {
    spec_phase_line(phase_of_age(lunar_age_of(elapsed_seconds)), options)
}

/// The line that shows `phase` as `options` ask.
pub fn phase_line(phase: MoonPhase, options: DisplayOptions) -> (r: String)
    ensures
        r@ == spec_phase_line(phase, options),
{
    if options.emoji {
        String::from_str(phase.glyph())
    } else if options.short_text {
        String::from_str(phase.name())
    } else {
        let mut line = String::from_str("Today is a ");
        line.append(phase.name());
        line
    }
}

/// The name of the phase of the age `age_nanos`; `None` at or beyond the
/// end of the phase table.
pub fn lunar_phase_text(age_nanos: u64) -> (r: Option<String>)
    ensures
        r is Some <==> age_nanos < table_end(),
        r matches Some(s) ==> s@ == phase_of_age(age_nanos as int).spec_name(),
{
    match classify_age(age_nanos) {
        Some(p) => Some(String::from_str(p.name())),
        None => None,
    }
}

/// The glyph of the phase of the age `age_nanos`; `None` at or beyond the
/// end of the phase table.
pub fn lunar_phase_emoji(age_nanos: u64) -> (r: Option<String>)
    ensures
        r is Some <==> age_nanos < table_end(),
        r matches Some(s) ==> s@ == phase_of_age(age_nanos as int).spec_glyph(),
{
    match classify_age(age_nanos) {
        Some(p) => Some(String::from_str(p.glyph())),
        None => None,
    }
}

/// The phase of the Moon `elapsed_seconds` after the reference new moon.
pub fn phase_at(elapsed_seconds: i64) -> (r: MoonPhase)
    ensures
        r == phase_of_age(lunar_age_of(elapsed_seconds as int)),
{
    let age = calculate_lunar_age(elapsed_seconds);
    assert(SYNODIC_MONTH_NANOS < table_end());
    match classify_age(age) {
        Some(p) => p,
        // not reached: every age within the month lies within the table
        None => MoonPhase::NewMoon,
    }
}

/// The line shown for a moment `elapsed_seconds` after the reference new
/// moon.
pub fn report_line(elapsed_seconds: i64, options: DisplayOptions) -> (r: String)
    ensures
        r@ == spec_report(elapsed_seconds as int, options),
{
    phase_line(phase_at(elapsed_seconds), options)
}

/// The line shown for now, as the system clock gives the time: the line of
/// some moment, whichever the clock reported.
pub fn todays_report(options: DisplayOptions) -> (r: String)
    ensures
        exists|e: int| r@ == #[trigger] spec_report(e, options),
{
    let elapsed = time_since_nm();
    report_line(elapsed, options)
}

} // verus!
