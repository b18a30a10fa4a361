use media_player::ieee::Double;
use media_player::time_code::{format_progress, format_time};

fn shown(x: f64) -> String {
    format_time(Double { bits: x.to_bits() })
}

#[test]
fn times_below_an_hour() {
    assert_eq!(shown(0.0), "00:00");
    assert_eq!(shown(9.99), "00:09");
    assert_eq!(shown(75.9), "01:15");
    assert_eq!(shown(3599.999), "59:59");
}

#[test]
fn times_with_hours() {
    assert_eq!(shown(3600.0), "01:00:00");
    assert_eq!(shown(3661.5), "01:01:01");
    assert_eq!(shown(360000.0), "100:00:00");
    assert_eq!(shown(f64::INFINITY), "5124095576030431:00:15");
}

#[test]
fn no_time_shows_as_the_beginning() {
    assert_eq!(shown(f64::NAN), "00:00");
    assert_eq!(shown(-1.0), "00:00");
    assert_eq!(shown(-0.0), "00:00");
    assert_eq!(shown(f64::NEG_INFINITY), "00:00");
}

#[test]
fn progress_shows_both_times() {
    let text = format_progress(
        Double { bits: 61.0f64.to_bits() },
        Double { bits: 7322.0f64.to_bits() },
    );
    assert_eq!(text, "01:01 / 02:02:02");
}

#[test]
fn whole_seconds_are_shown_differently() {
    let mut seen: Vec<String> = Vec::new();
    for second in 3500..3800 {
        let text = shown(second as f64);
        assert!(!seen.contains(&text));
        seen.push(text);
    }
}
