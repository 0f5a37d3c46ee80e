//! The phase classifier: a lunar age mapped to one of eight named phases by
//! one ordered lookup over a table of adjacent half-open intervals.
use crate::age::NANOS_PER_DAY_E11;
use vstd::prelude::*;

verus! {

/// The eight named phases of the Moon.
#[derive(PartialEq, Eq, Structural, Clone, Copy, Debug)]
pub enum MoonPhase {
    NewMoon,
    WaxingCrescent,
    FirstQuarter,
    WaxingGibbous,
    FullMoon,
    WaningGibbous,
    LastQuarter,
    WaningCrescent,
}

/// Number of intervals in the phase table.
pub const PHASE_INTERVALS: usize = 9;

/// The bounds of the phase table, in 10^-11 day: interval `i` covers the
/// ages from bound `i` (included) to bound `i + 1` (excluded).
pub open spec fn phase_bound_e11(i: int) -> int {
    if i == 0 {
        0
    } else if i == 1 {
        100_000_000_000
    } else if i == 2 {
        638_264_692_644
    } else if i == 3 {
        838_264_692_644
    } else if i == 4 {
        1_376_529_385_288
    } else if i == 5 {
        1_576_529_385_288
    } else if i == 6 {
        2_114_794_077_932
    } else if i == 7 {
        2_314_794_077_932
    } else if i == 8 {
        2_853_058_770_576
    } else {
        3_000_000_000_000
    }
}

/// Bound `i` of the phase table, in nanoseconds.
pub open spec fn phase_bound(i: int) -> int {
    phase_bound_e11(i) * NANOS_PER_DAY_E11
}

/// The phase named by interval `i` of the table. The new moon closes the
/// cycle as well as opening it.
pub open spec fn interval_phase(i: int) -> MoonPhase {
    if i == 0 {
        MoonPhase::NewMoon
    } else if i == 1 {
        MoonPhase::WaxingCrescent
    } else if i == 2 {
        MoonPhase::FirstQuarter
    } else if i == 3 {
        MoonPhase::WaxingGibbous
    } else if i == 4 {
        MoonPhase::FullMoon
    } else if i == 5 {
        MoonPhase::WaningGibbous
    } else if i == 6 {
        MoonPhase::LastQuarter
    } else if i == 7 {
        MoonPhase::WaningCrescent
    } else {
        MoonPhase::NewMoon
    }
}

/// Whether the age `age_nanos` lies in interval `i` of the table.
pub open spec fn in_interval(age_nanos: int, i: int) -> bool {
    0 <= i < PHASE_INTERVALS && phase_bound(i) <= age_nanos < phase_bound(i + 1)
}

/// The phase of an age within the table: that of the one interval holding
/// it.
pub open spec fn phase_of_age(age_nanos: int) -> MoonPhase {
    interval_phase(choose|i: int| in_interval(age_nanos, i))
}

/// The end of the table, 30 days, in nanoseconds.
pub open spec fn table_end() -> int {
    phase_bound(PHASE_INTERVALS as int)
}

/// The bounds of the table strictly increase.
proof fn lemma_bounds_increase()
    ensures
        forall|i: int, j: int|
            #![trigger phase_bound(i), phase_bound(j)]
            0 <= i < j <= PHASE_INTERVALS ==> phase_bound(i) < phase_bound(j),
{
}

/// No age lies in two intervals of the table.
proof fn lemma_intervals_disjoint()
    ensures
        forall|a: int, i: int, j: int|
            #![trigger in_interval(a, i), in_interval(a, j)]
            in_interval(a, i) && in_interval(a, j) ==> i == j,
{
    lemma_bounds_increase();
    assert forall|a: int, i: int, j: int|
        #![trigger in_interval(a, i), in_interval(a, j)]
        in_interval(a, i) && in_interval(a, j) implies i == j by {
        if i < j {
            assert(phase_bound(i + 1) <= phase_bound(j));
        } else if j < i {
            assert(phase_bound(j + 1) <= phase_bound(i));
        }
    }
}

/// The intervals of the table partition the ages from zero up to its end,
/// 30 days: each such age lies in exactly one interval.
pub proof fn lemma_intervals_partition(age_nanos: int)
    requires
        0 <= age_nanos < table_end(),
    ensures
        exists|i: int| #[trigger] in_interval(age_nanos, i),
        forall|i: int, j: int|
            #![trigger in_interval(age_nanos, i), in_interval(age_nanos, j)]
            in_interval(age_nanos, i) && in_interval(age_nanos, j) ==> i == j,
{
    lemma_intervals_disjoint();
    let a = age_nanos;
    if a < phase_bound(1) {
        assert(in_interval(a, 0));
    } else if a < phase_bound(2) {
        assert(in_interval(a, 1));
    } else if a < phase_bound(3) {
        assert(in_interval(a, 2));
    } else if a < phase_bound(4) {
        assert(in_interval(a, 3));
    } else if a < phase_bound(5) {
        assert(in_interval(a, 4));
    } else if a < phase_bound(6) {
        assert(in_interval(a, 5));
    } else if a < phase_bound(7) {
        assert(in_interval(a, 6));
    } else if a < phase_bound(8) {
        assert(in_interval(a, 7));
    } else {
        assert(in_interval(a, 8));
    }
}

/// Each bound of the table belongs to the interval that it opens, never to
/// the one that it closes.
pub proof fn lemma_bound_opens_interval(i: int)
    requires
        0 <= i < PHASE_INTERVALS,
    ensures
        in_interval(phase_bound(i), i),
        i > 0 ==> !in_interval(phase_bound(i), i - 1),
{
    lemma_bounds_increase();
    assert(phase_bound(i) < phase_bound(i + 1));
}

/// Bound `i` of the phase table, in nanoseconds.
fn phase_bound_nanos(i: usize) -> (b: u64)
    requires
        i <= PHASE_INTERVALS,
    ensures
        b as int == phase_bound(i as int),
{
    let e11: u64 = match i {
        0 => 0,
        1 => 100_000_000_000,
        2 => 638_264_692_644,
        3 => 838_264_692_644,
        4 => 1_376_529_385_288,
        5 => 1_576_529_385_288,
        6 => 2_114_794_077_932,
        7 => 2_314_794_077_932,
        8 => 2_853_058_770_576,
        _ => 3_000_000_000_000,
    };
    e11 * NANOS_PER_DAY_E11
}

/// The phase named by interval `i` of the table.
fn phase_of_interval(i: usize) -> (p: MoonPhase)
    requires
        i < PHASE_INTERVALS,
    ensures
        p == interval_phase(i as int),
{
    match i {
        0 => MoonPhase::NewMoon,
        1 => MoonPhase::WaxingCrescent,
        2 => MoonPhase::FirstQuarter,
        3 => MoonPhase::WaxingGibbous,
        4 => MoonPhase::FullMoon,
        5 => MoonPhase::WaningGibbous,
        6 => MoonPhase::LastQuarter,
        7 => MoonPhase::WaningCrescent,
        _ => MoonPhase::NewMoon,
    }
}

impl MoonPhase {
    /// The text name of the phase.
    pub open spec fn spec_name(self) -> Seq<char> {
        match self {
            MoonPhase::NewMoon => "New Moon"@,
            MoonPhase::WaxingCrescent => "Waxing Crescent"@,
            MoonPhase::FirstQuarter => "First Quarter"@,
            MoonPhase::WaxingGibbous => "Waxing Gibbous"@,
            MoonPhase::FullMoon => "Full Moon"@,
            MoonPhase::WaningGibbous => "Waning Gibbous"@,
            MoonPhase::LastQuarter => "Last Quarter"@,
            MoonPhase::WaningCrescent => "Waning Crescent"@,
        }
    }

    /// The pictorial glyph of the phase.
    pub open spec fn spec_glyph(self) -> Seq<char> {
        match self {
            MoonPhase::NewMoon => "🌑"@,
            MoonPhase::WaxingCrescent => "🌒"@,
            MoonPhase::FirstQuarter => "🌓"@,
            MoonPhase::WaxingGibbous => "🌔"@,
            MoonPhase::FullMoon => "🌕"@,
            MoonPhase::WaningGibbous => "🌖"@,
            MoonPhase::LastQuarter => "🌗"@,
            MoonPhase::WaningCrescent => "🌘"@,
        }
    }

    /// The text name of the phase.
    pub fn name(&self) -> (r: &'static str)
        ensures
            r@ == self.spec_name(),
    {
        match self {
            MoonPhase::NewMoon => "New Moon",
            MoonPhase::WaxingCrescent => "Waxing Crescent",
            MoonPhase::FirstQuarter => "First Quarter",
            MoonPhase::WaxingGibbous => "Waxing Gibbous",
            MoonPhase::FullMoon => "Full Moon",
            MoonPhase::WaningGibbous => "Waning Gibbous",
            MoonPhase::LastQuarter => "Last Quarter",
            MoonPhase::WaningCrescent => "Waning Crescent",
        }
    }

    /// The pictorial glyph of the phase.
    pub fn glyph(&self) -> (r: &'static str)
        ensures
            r@ == self.spec_glyph(),
    {
        match self {
            MoonPhase::NewMoon => "🌑",
            MoonPhase::WaxingCrescent => "🌒",
            MoonPhase::FirstQuarter => "🌓",
            MoonPhase::WaxingGibbous => "🌔",
            MoonPhase::FullMoon => "🌕",
            MoonPhase::WaningGibbous => "🌖",
            MoonPhase::LastQuarter => "🌗",
            MoonPhase::WaningCrescent => "🌘",
        }
    }
}

/// The phase of a lunar age given in nanoseconds, found by walking the
/// table in order; `None` for an age at or beyond the end of the table,
/// 30 days.
pub fn classify_age(age_nanos: u64) -> (r: Option<MoonPhase>)
    ensures
        r is Some <==> age_nanos < table_end(),
        age_nanos < table_end() ==> r == Some(phase_of_age(age_nanos as int)),
        r matches Some(p) ==> exists|i: int|
            #![trigger in_interval(age_nanos as int, i)]
            in_interval(age_nanos as int, i) && p == interval_phase(i),
        forall|i: int|
            #![trigger in_interval(age_nanos as int, i)]
            in_interval(age_nanos as int, i) ==> r == Some(interval_phase(i)),
{
    let mut i: usize = 0;
    while i < PHASE_INTERVALS
        invariant
            i <= PHASE_INTERVALS,
            phase_bound(i as int) <= age_nanos,
        decreases PHASE_INTERVALS - i,
    {
        if age_nanos < phase_bound_nanos(i + 1) {
            let p = phase_of_interval(i);
            assert(in_interval(age_nanos as int, i as int));
            proof {
                lemma_intervals_disjoint();
                lemma_intervals_partition(age_nanos as int);
            }
            return Some(p);
        }
        i = i + 1;
    }
    proof {
        lemma_bounds_increase();
    }
    None
}

} // verus!
