use pybadge_high::sound::PwmSound;
use pybadge_high::time::{Hertz, Nanoseconds};

#[test]
fn set_freq_440_gives_880_toggles_per_second() {
    let mut s = PwmSound::new();
    assert!(!s.is_enabled());
    assert_eq!(s.configured_half_period(), None);
    let half = s.set_freq(Hertz(440));
    assert_eq!(half, Nanoseconds(1_136_363));
    assert_eq!(half.frequency(), Hertz(880));
    assert!(!s.is_enabled());
    s.enable();
    assert!(s.is_enabled());
    assert_eq!(s.configured_half_period(), Some(Nanoseconds(1_136_363)));
}

#[test]
fn disable_then_enable_keeps_frequency() {
    let mut s = PwmSound::new();
    s.set_freq(Hertz(440));
    s.enable();
    s.disable();
    assert!(!s.is_enabled());
    assert_eq!(s.configured_half_period(), Some(Nanoseconds(1_136_363)));
    s.enable();
    assert!(s.is_enabled());
    assert_eq!(s.configured_half_period(), Some(Nanoseconds(1_136_363)));
}

#[test]
fn set_freq_while_enabled_keeps_it_enabled() {
    let mut s = PwmSound::new();
    s.enable();
    let half = s.set_freq(Hertz(1000));
    assert_eq!(half, Nanoseconds(500_000));
    assert!(s.is_enabled());
}

#[test]
fn toggle_rate_is_twice_the_tone_up_to_15_khz() {
    for f in 1..=15_000u32 {
        let half = PwmSound::new().set_freq(Hertz(f));
        assert_eq!(half.frequency(), Hertz(2 * f));
    }
}

#[test]
fn very_high_frequency_rounds_down() {
    let half = PwmSound::new().set_freq(Hertz(1_000_000_000));
    assert_eq!(half, Nanoseconds(0));
    let half = PwmSound::new().set_freq(Hertz(3));
    assert_eq!(half, Nanoseconds(166_666_666));
}
