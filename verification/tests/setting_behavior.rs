use hotkey_chime::setting::{SharedSetting, VolumeCell, read_or_default, write_or_keep};
use hotkey_chime::volume::{Volume, DEFAULT_VOLUME, VOLUME_SCALE};

#[test]
fn write_then_read_returns_exact_value() {
    let mut cell = VolumeCell::new(Volume::default());
    for raw in [0u16, 1, 250, 500, 999, 1000] {
        cell.write(Volume::new(raw));
        assert_eq!(cell.read().permille(), raw);
    }
}

#[test]
fn shared_setting_round_trips_in_range_values() {
    let setting = SharedSetting::starting_at_default();
    for raw in [0i64, 137, 500, 800, 1000] {
        setting.write(Volume::clamped(raw));
        assert_eq!(setting.read().permille() as i64, raw);
    }
}

#[test]
fn apply_clamps_below_range_to_silence() {
    let setting = SharedSetting::starting_at_default();
    let stored = setting.apply(-300);
    assert_eq!(stored.permille(), 0);
    assert_eq!(setting.read().permille(), 0);
}

#[test]
fn apply_clamps_above_range_to_full_gain() {
    let setting = SharedSetting::starting_at_default();
    let stored = setting.apply(1500);
    assert_eq!(stored.permille(), VOLUME_SCALE);
    assert_eq!(setting.read().permille(), VOLUME_SCALE);
}

#[test]
fn apply_keeps_in_range_values_exact() {
    let setting = SharedSetting::starting_at_default();
    for raw in [0i64, 1, 499, 500, 501, 1000] {
        let stored = setting.apply(raw);
        assert_eq!(stored.permille() as i64, raw);
        assert_eq!(setting.read().permille() as i64, raw);
    }
}

#[test]
fn clamp_boundaries_are_exact() {
    assert_eq!(Volume::clamped(-1).permille(), 0);
    assert_eq!(Volume::clamped(0).permille(), 0);
    assert_eq!(Volume::clamped(1000).permille(), 1000);
    assert_eq!(Volume::clamped(1001).permille(), 1000);
    assert_eq!(Volume::clamped(i64::MIN).permille(), 0);
    assert_eq!(Volume::clamped(i64::MAX).permille(), VOLUME_SCALE);
}

#[test]
fn default_volume_is_half_gain() {
    assert_eq!(Volume::default().permille(), DEFAULT_VOLUME);
    let setting = SharedSetting::starting_at_default();
    assert_eq!(setting.read().permille(), DEFAULT_VOLUME);
}

#[test]
fn display_percent_rounds_to_whole_percent() {
    assert_eq!(Volume::new(0).display_percent(), 0);
    assert_eq!(Volume::new(500).display_percent(), 50);
    assert_eq!(Volume::new(804).display_percent(), 80);
    assert_eq!(Volume::new(805).display_percent(), 81);
    assert_eq!(Volume::new(1000).display_percent(), 100);
}

#[test]
fn interleaved_reads_observe_whole_values() {
    let setting = SharedSetting::starting_at_default();
    let mut last: u16 = DEFAULT_VOLUME;
    let mut x: u32 = 1;
    for _ in 0..200 {
        x = x.wrapping_mul(1664525).wrapping_add(1013904223);
        if x % 3 == 0 {
            let raw = (x % 2000) as i64 - 500;
            last = setting.apply(raw).permille();
        } else {
            let seen = setting.read().permille();
            // Never a torn or out-of-range value: always exactly the value
            // the latest completed write stored.
            assert!(seen <= VOLUME_SCALE);
            assert_eq!(seen, last);
        }
    }
}

#[test]
fn read_fallback_substitutes_default_on_lock_failure() {
    let observed = read_or_default(Some(Volume::new(800)));
    assert_eq!(observed.permille(), 800);
    let fallback = read_or_default(None);
    assert_eq!(fallback.permille(), DEFAULT_VOLUME);
}

#[test]
fn write_fallback_keeps_old_value_on_lock_failure() {
    let mut cell = VolumeCell::new(Volume::new(300));
    let saved = write_or_keep(&mut cell, false, Volume::new(900));
    assert!(!saved);
    assert_eq!(cell.read().permille(), 300);
    let saved = write_or_keep(&mut cell, true, Volume::new(900));
    assert!(saved);
    assert_eq!(cell.read().permille(), 900);
}
