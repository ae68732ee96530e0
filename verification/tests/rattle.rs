use xmas_rattler::rattlercontrol::{PinLevel, RattleControl};

#[test]
fn starts_solid_on() {
    let (mut snake, level) = RattleControl::new();
    assert_eq!(level, PinLevel::High);
    for _ in 0..10 {
        assert_eq!(snake.next_maybe_rattle(), None);
    }
    assert_eq!(snake.set_distance_as_inches(None), None);
    assert_eq!(snake.set_distance_as_inches(Some(37)), None);
    assert_eq!(snake.set_distance_as_inches(Some(255)), None);
}

#[test]
fn right_at_the_table_is_solid() {
    let (mut snake, _) = RattleControl::new();
    assert_eq!(snake.set_distance_as_inches(Some(3)), Some(PinLevel::High));
    assert_eq!(snake.set_distance_as_inches(Some(0)), None);
    assert_eq!(snake.set_distance_as_inches(Some(5)), None);
    for _ in 0..10 {
        assert_eq!(snake.next_maybe_rattle(), None);
    }
}

#[test]
fn close_flips_every_tick() {
    let (mut snake, _) = RattleControl::new();
    assert_eq!(snake.set_distance_as_inches(Some(10)), None);
    assert_eq!(snake.next_maybe_rattle(), Some(PinLevel::High));
    assert_eq!(snake.next_maybe_rattle(), Some(PinLevel::Low));
    assert_eq!(snake.next_maybe_rattle(), Some(PinLevel::High));
    assert_eq!(snake.set_distance_as_inches(Some(6)), None);
    assert_eq!(snake.set_distance_as_inches(Some(15)), None);
    assert_eq!(snake.next_maybe_rattle(), Some(PinLevel::Low));
}

#[test]
fn approaching_flips_every_fifth_tick() {
    let (mut snake, _) = RattleControl::new();
    assert_eq!(snake.set_distance_as_inches(Some(20)), None);
    let mut levels = Vec::new();
    for _ in 0..10 {
        levels.push(snake.next_maybe_rattle());
    }
    assert_eq!(
        levels,
        vec![None, None, None, None, Some(PinLevel::High), None, None, None, None, Some(PinLevel::Low)]
    );
}

#[test]
fn same_band_keeps_the_rhythm() {
    let (mut snake, _) = RattleControl::new();
    snake.set_distance_as_inches(Some(16));
    assert_eq!(snake.next_maybe_rattle(), None);
    assert_eq!(snake.next_maybe_rattle(), None);
    assert_eq!(snake.set_distance_as_inches(Some(36)), None);
    assert_eq!(snake.next_maybe_rattle(), None);
    assert_eq!(snake.next_maybe_rattle(), None);
    assert_eq!(snake.next_maybe_rattle(), Some(PinLevel::High));
}

#[test]
fn band_change_restarts_the_count() {
    let (mut snake, _) = RattleControl::new();
    snake.set_distance_as_inches(Some(30));
    assert_eq!(snake.next_maybe_rattle(), None);
    assert_eq!(snake.next_maybe_rattle(), None);
    assert_eq!(snake.set_distance_as_inches(Some(8)), None);
    assert_eq!(snake.next_maybe_rattle(), Some(PinLevel::High));
    assert_eq!(snake.set_distance_as_inches(None), Some(PinLevel::High));
    assert_eq!(snake.next_maybe_rattle(), None);
}

#[test]
fn flashing_from_any_count_flips_once_per_period() {
    let (mut snake, _) = RattleControl::new();
    snake.set_distance_as_inches(Some(25));
    assert_eq!(snake.next_maybe_rattle(), None);
    assert_eq!(snake.next_maybe_rattle(), None);
    // The count is at 2 of 5: the next five ticks flip once, at the third.
    let levels: Vec<_> = (0..5).map(|_| snake.next_maybe_rattle()).collect();
    assert_eq!(levels, vec![None, None, Some(PinLevel::High), None, None]);
    let levels: Vec<_> = (0..5).map(|_| snake.next_maybe_rattle()).collect();
    assert_eq!(levels, vec![None, None, Some(PinLevel::Low), None, None]);
}
