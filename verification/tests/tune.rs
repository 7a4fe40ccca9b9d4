use compute_channel::tune::{
    anchor, anchor_base, load_autotune_level, select_level, try_load_autotune_level,
    AutotuneLevel, LevelError, DEFAULT_LEVEL,
};

#[test]
fn full_level_keeps_the_size() {
    assert_eq!(anchor(AutotuneLevel::Full, 37, Some(16), Some(64), 64), 37);
    assert_eq!(anchor(AutotuneLevel::Full, 0, None, None, 1), 0);
}

#[test]
fn anchor_is_the_power_within_the_bounds() {
    assert_eq!(anchor(AutotuneLevel::Medium, 37, None, None, 64), 64);
    assert_eq!(anchor(AutotuneLevel::Medium, 37, Some(48), None, 64), 48);
    assert_eq!(anchor(AutotuneLevel::Medium, 37, Some(128), None, 64), 64);
    assert_eq!(anchor(AutotuneLevel::More, 3, None, Some(8), 4), 8);
    assert_eq!(anchor(AutotuneLevel::Minimal, 3, Some(100), Some(2), 7), 7);
}

#[test]
fn lower_bound_wins_where_the_bounds_cross() {
    assert_eq!(anchor(AutotuneLevel::Medium, 5, Some(4), Some(16), 8), 16);
}

#[test]
fn levels_are_the_numbers_zero_to_three() {
    assert_eq!(AutotuneLevel::from_level(0), Some(AutotuneLevel::Minimal));
    assert_eq!(AutotuneLevel::from_level(1), Some(AutotuneLevel::Medium));
    assert_eq!(AutotuneLevel::from_level(2), Some(AutotuneLevel::More));
    assert_eq!(AutotuneLevel::from_level(3), Some(AutotuneLevel::Full));
    assert_eq!(AutotuneLevel::from_level(4), None);
    assert_eq!(AutotuneLevel::from_level(u32::MAX), None);
}

#[test]
fn each_level_scales_the_base_by_its_fraction() {
    assert_eq!(AutotuneLevel::Minimal.scale(), Some((5, 4)));
    assert_eq!(AutotuneLevel::Medium.scale(), Some((1, 1)));
    assert_eq!(AutotuneLevel::More.scale(), Some((3, 4)));
    assert_eq!(AutotuneLevel::Full.scale(), None);
}

#[test]
fn base_defaults_to_two() {
    assert_eq!(anchor_base(None), 2);
    assert_eq!(anchor_base(Some(10)), 10);
}

#[test]
fn level_defaults_to_one_where_nothing_is_configured() {
    assert_eq!(DEFAULT_LEVEL, 1);
    assert_eq!(load_autotune_level(None), 1);
    assert_eq!(try_load_autotune_level(None), Some(1));
    assert_eq!(select_level(None), Ok(1));
}

#[test]
fn configured_level_is_parsed_as_a_number() {
    assert_eq!(load_autotune_level(Some("2")), 2);
    assert_eq!(load_autotune_level(Some("0")), 0);
    assert_eq!(load_autotune_level(Some("17")), 17);
    assert_eq!(try_load_autotune_level(Some("3")), Some(3));
    assert_eq!(try_load_autotune_level(Some("4294967295")), Some(u32::MAX));
    assert_eq!(select_level(Some(Some(3))), Ok(3));
}

#[test]
fn configured_text_that_is_no_number_is_refused() {
    assert_eq!(try_load_autotune_level(Some("high")), None);
    assert_eq!(try_load_autotune_level(Some("")), None);
    assert_eq!(try_load_autotune_level(Some("-1")), None);
    assert_eq!(try_load_autotune_level(Some("1.5")), None);
    assert_eq!(try_load_autotune_level(Some("4294967296")), None);
    assert_eq!(select_level(Some(None)), Err(LevelError::NotAnInteger));
}
