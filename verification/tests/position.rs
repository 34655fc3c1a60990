use human_repr::HumanDuration;
use now_playing::duration::{render_position, ticks_to_seconds, TICKS_PER_SECOND};
use now_playing::media::MediaInfo;

#[test]
fn ticks_per_second_is_ten_million() {
    assert_eq!(TICKS_PER_SECOND, 10_000_000);
}

#[test]
fn ticks_to_seconds_divides_by_ten_million() {
    assert_eq!(ticks_to_seconds(900_000_000), 90);
    assert_eq!(ticks_to_seconds(10_000_000), 1);
    assert_eq!(ticks_to_seconds(0), 0);
}

#[test]
fn ticks_to_seconds_drops_the_part_of_a_second() {
    assert_eq!(ticks_to_seconds(9_999_999), 0);
    assert_eq!(ticks_to_seconds(19_999_999), 1);
    assert_eq!(ticks_to_seconds(20_000_000), 2);
}

#[test]
fn ticks_to_seconds_rounds_negative_ticks_toward_zero() {
    assert_eq!(ticks_to_seconds(-1), 0);
    assert_eq!(ticks_to_seconds(-9_999_999), 0);
    assert_eq!(ticks_to_seconds(-10_000_000), -1);
    assert_eq!(ticks_to_seconds(-15_000_000), -1);
}

#[test]
fn ticks_to_seconds_at_the_ends_of_the_range() {
    assert_eq!(ticks_to_seconds(i64::MAX), 922_337_203_685);
    assert_eq!(ticks_to_seconds(i64::MIN), -922_337_203_685);
}

#[test]
fn render_position_of_ninety_seconds() {
    assert_eq!(render_position(900_000_000), "1:30");
}

#[test]
fn render_position_of_zero_is_the_zero_text() {
    assert_eq!(render_position(0), "0ns");
    assert_eq!(render_position(9_999_999), "0ns");
    assert_eq!(render_position(-9_999_999), "0ns");
}

#[test]
fn render_position_of_a_second_or_more_is_not_the_zero_text() {
    let samples: [i64; 8] = [
        10_000_000,
        -10_000_000,
        19_999_999,
        900_000_000,
        -900_000_000,
        36_000_000_000,
        i64::MAX,
        i64::MIN,
    ];
    for ticks in samples {
        assert_ne!(render_position(ticks), "0ns");
    }
}

#[test]
fn render_position_in_seconds_minutes_and_hours() {
    assert_eq!(render_position(10_000_000), "1s");
    assert_eq!(render_position(590_000_000), "59s");
    assert_eq!(render_position(600_000_000), "1:00");
    assert_eq!(render_position(6_000_000_000), "10:00");
    assert_eq!(render_position(36_000_000_000), "1:00:00");
    assert_eq!(render_position(1_000_000_000_000), "27:46:40");
}

#[test]
fn render_position_of_negative_ticks() {
    assert_eq!(render_position(-10_000_000), "-1s");
}

#[test]
fn render_position_agrees_with_human_repr() {
    let samples: [i64; 8] = [0, 1, 10_000_000, 123_456_789, 900_000_000, 86_400_0000000, -50_000_000, i64::MAX];
    for ticks in samples {
        let seconds: i64 = ticks / 10_000_000;
        assert_eq!(render_position(ticks), seconds.human_duration().to_string());
    }
}

#[test]
fn from_reading_renders_the_position() {
    let info = MediaInfo::from_reading("Song".to_string(), "Band".to_string(), 900_000_000);
    assert_eq!(info.title, "Song");
    assert_eq!(info.artist, "Band");
    assert_eq!(info.position, "1:30");
    assert_eq!(info.to_text(), "Song - Band (1:30)");
    assert_eq!(info.display("%t - %a [%p]".to_string()), "Song - Band [1:30]");
}

#[test]
fn from_reading_at_a_second_or_more_shows_the_position() {
    let info = MediaInfo::from_reading("Song".to_string(), String::new(), 10_000_000);
    assert_eq!(info.to_text(), "Song (1s)");
    let info = MediaInfo::from_reading("Song".to_string(), String::new(), -10_000_000);
    assert_eq!(info.to_text(), "Song (-1s)");
}

#[test]
fn from_reading_at_position_zero_hides_the_position() {
    let info = MediaInfo::from_reading("Song".to_string(), "Band".to_string(), 0);
    assert_eq!(info.position, "0ns");
    assert_eq!(info.to_text(), "Song - Band");
    let early = MediaInfo::from_reading("Song".to_string(), String::new(), 5_000_000);
    assert_eq!(early.to_text(), "Song");
}
