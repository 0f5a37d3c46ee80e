use lunar_phase::age::{calculate_lunar_age, NANOS_PER_DAY, NANOS_PER_DAY_E11, SYNODIC_MONTH_NANOS};
use lunar_phase::phase::{classify_age, MoonPhase, PHASE_INTERVALS};
use lunar_phase::report::{
    lunar_phase_emoji, lunar_phase_text, phase_at, phase_line, report_line, todays_report,
    DisplayOptions,
};

const BOUNDS_E11: [u64; 10] = [
    0,
    100_000_000_000,
    638_264_692_644,
    838_264_692_644,
    1_376_529_385_288,
    1_576_529_385_288,
    2_114_794_077_932,
    2_314_794_077_932,
    2_853_058_770_576,
    3_000_000_000_000,
];

const TABLE: [MoonPhase; 9] = [
    MoonPhase::NewMoon,
    MoonPhase::WaxingCrescent,
    MoonPhase::FirstQuarter,
    MoonPhase::WaxingGibbous,
    MoonPhase::FullMoon,
    MoonPhase::WaningGibbous,
    MoonPhase::LastQuarter,
    MoonPhase::WaningCrescent,
    MoonPhase::NewMoon,
];

fn opts(emoji: bool, short_text: bool) -> DisplayOptions {
    DisplayOptions { emoji, short_text }
}

#[test]
fn each_bound_opens_its_interval() {
    assert_eq!(PHASE_INTERVALS, 9);
    for i in 0..9 {
        let lo = BOUNDS_E11[i] * NANOS_PER_DAY_E11;
        let hi = BOUNDS_E11[i + 1] * NANOS_PER_DAY_E11;
        assert_eq!(classify_age(lo), Some(TABLE[i]));
        assert_eq!(classify_age(hi - 1), Some(TABLE[i]));
        assert_eq!(classify_age((lo + hi) / 2), Some(TABLE[i]));
    }
}

#[test]
fn bound_does_not_belong_to_previous_interval() {
    assert_eq!(classify_age(NANOS_PER_DAY - 1), Some(MoonPhase::NewMoon));
    assert_eq!(classify_age(NANOS_PER_DAY), Some(MoonPhase::WaxingCrescent));
    assert_eq!(classify_age(551_460_694_444_416 - 1), Some(MoonPhase::WaxingCrescent));
    assert_eq!(classify_age(551_460_694_444_416), Some(MoonPhase::FirstQuarter));
    assert_eq!(classify_age(SYNODIC_MONTH_NANOS - NANOS_PER_DAY), Some(MoonPhase::NewMoon));
    assert_eq!(classify_age(SYNODIC_MONTH_NANOS - NANOS_PER_DAY - 1), Some(MoonPhase::WaningCrescent));
}

#[test]
fn ages_beyond_table_have_no_phase() {
    assert_eq!(classify_age(30 * NANOS_PER_DAY - 1), Some(MoonPhase::NewMoon));
    assert_eq!(classify_age(30 * NANOS_PER_DAY), None);
    assert_eq!(classify_age(u64::MAX), None);
    assert_eq!(lunar_phase_text(30 * NANOS_PER_DAY), None);
    assert_eq!(lunar_phase_emoji(30 * NANOS_PER_DAY), None);
}

#[test]
fn phase_names_and_glyphs() {
    let expected = [
        (MoonPhase::NewMoon, "New Moon", "\u{1F311}"),
        (MoonPhase::WaxingCrescent, "Waxing Crescent", "\u{1F312}"),
        (MoonPhase::FirstQuarter, "First Quarter", "\u{1F313}"),
        (MoonPhase::WaxingGibbous, "Waxing Gibbous", "\u{1F314}"),
        (MoonPhase::FullMoon, "Full Moon", "\u{1F315}"),
        (MoonPhase::WaningGibbous, "Waning Gibbous", "\u{1F316}"),
        (MoonPhase::LastQuarter, "Last Quarter", "\u{1F317}"),
        (MoonPhase::WaningCrescent, "Waning Crescent", "\u{1F318}"),
    ];
    for (p, name, glyph) in expected {
        assert_eq!(p.name(), name);
        assert_eq!(p.glyph(), glyph);
    }
}

#[test]
fn text_and_emoji_of_ages() {
    assert_eq!(lunar_phase_text(0), Some("New Moon".to_string()));
    assert_eq!(lunar_phase_emoji(0), Some("\u{1F311}".to_string()));
    let full = 14 * NANOS_PER_DAY;
    assert_eq!(lunar_phase_text(full), Some("Full Moon".to_string()));
    assert_eq!(lunar_phase_emoji(full), Some("\u{1F315}".to_string()));
}

#[test]
fn concrete_phases_of_elapsed_seconds() {
    assert_eq!(phase_at(0), MoonPhase::NewMoon);
    assert_eq!(phase_at(637_860), MoonPhase::FirstQuarter);
    assert_eq!(phase_at(1_275_721), MoonPhase::FullMoon);
    assert_eq!(phase_at(-1), MoonPhase::NewMoon);
    assert_eq!(classify_age(calculate_lunar_age(-1)), Some(MoonPhase::NewMoon));
    assert_eq!(phase_at(-2 * 86_400), MoonPhase::WaningCrescent);
}

#[test]
fn line_without_flags() {
    assert_eq!(report_line(0, opts(false, false)), "Today is a New Moon");
    assert_eq!(report_line(1_275_721, opts(false, false)), "Today is a Full Moon");
}

#[test]
fn line_with_short_text() {
    assert_eq!(report_line(0, opts(false, true)), "New Moon");
    assert_eq!(phase_line(MoonPhase::LastQuarter, opts(false, true)), "Last Quarter");
}

#[test]
fn line_with_emoji_ignores_short_text() {
    assert_eq!(report_line(0, opts(true, false)), "\u{1F311}");
    assert_eq!(report_line(0, opts(true, true)), "\u{1F311}");
    assert_eq!(phase_line(MoonPhase::FullMoon, opts(true, true)), "\u{1F315}");
}

#[test]
fn todays_line_names_a_phase() {
    let line = todays_report(opts(false, false));
    assert!(line.starts_with("Today is a "));
    let names = [
        "New Moon",
        "Waxing Crescent",
        "First Quarter",
        "Waxing Gibbous",
        "Full Moon",
        "Waning Gibbous",
        "Last Quarter",
        "Waning Crescent",
    ];
    assert!(names.iter().any(|n| line == format!("Today is a {}", n)));
}
