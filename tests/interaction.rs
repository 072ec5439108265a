use globe_view::state::{saturating_sum, Intent, InteractionState, Margins, PayloadError, StateStore};

fn margins() -> Margins {
    Margins { bottom: 10, top: 20, left: 30, right: 40 }
}

#[test]
fn new_store_starts_at_rest() {
    let store = StateStore::new(margins());
    let s = store.read();
    assert!(!s.pointer_down);
    assert_eq!((s.pointer_x, s.pointer_y), (0, 0));
    assert_eq!((s.rotation_x, s.rotation_y), (0, 0));
    assert_eq!(s.scroll_accum, 0);
    assert_eq!((s.height, s.width), (0, 0));
    assert_eq!(s.time, 0);
    assert!(!s.playback_paused);
    assert_eq!(s.margins, margins());
}

#[test]
fn press_move_release_sequence() {
    let mut store = StateStore::new(margins());
    store.apply(Intent::Press { x: 10, y: 10 });
    store.apply(Intent::Move { x: 15, y: 10 });
    let after_drag = store.read();
    assert_eq!(after_drag.rotation_y, 5);
    assert_eq!(after_drag.rotation_x, 0);
    store.apply(Intent::Release);
    store.apply(Intent::Move { x: 100, y: 100 });
    let s = store.read();
    assert_eq!((s.rotation_x, s.rotation_y), (0, 5));
    assert_eq!((s.pointer_x, s.pointer_y), (100, 100));
    assert!(!s.pointer_down);
}

#[test]
fn vertical_drag_turns_about_horizontal_axis() {
    let mut store = StateStore::new(margins());
    store.apply(Intent::Press { x: 0, y: 50 });
    store.apply(Intent::Move { x: -3, y: 20 });
    let s = store.read();
    assert_eq!(s.rotation_x, -30);
    assert_eq!(s.rotation_y, -3);
}

#[test]
fn release_twice_is_idempotent() {
    let mut store = StateStore::new(margins());
    store.apply(Intent::Press { x: 1, y: 2 });
    store.apply(Intent::Move { x: 4, y: 8 });
    store.apply(Intent::Release);
    let once = store.read();
    store.apply(Intent::Release);
    let twice = store.read();
    assert!(!twice.pointer_down);
    assert_eq!(once, twice);
    assert_eq!((twice.rotation_x, twice.rotation_y), (6, 3));
    assert_eq!((twice.pointer_x, twice.pointer_y), (4, 8));
}

#[test]
fn double_press_moves_anchor_only() {
    let mut store = StateStore::new(margins());
    store.apply(Intent::Press { x: 10, y: 10 });
    store.apply(Intent::Press { x: 40, y: 40 });
    let s = store.read();
    assert_eq!((s.pointer_x, s.pointer_y), (40, 40));
    assert_eq!((s.rotation_x, s.rotation_y), (0, 0));
    store.apply(Intent::Move { x: 41, y: 42 });
    let s = store.read();
    assert_eq!((s.rotation_x, s.rotation_y), (2, 1));
}

#[test]
fn scroll_accumulates_regardless_of_pointer() {
    let mut store = StateStore::new(margins());
    store.apply(Intent::Wheel { delta: 5000 });
    store.apply(Intent::Press { x: 3, y: 3 });
    store.apply(Intent::Wheel { delta: -2000 });
    store.apply(Intent::Release);
    store.apply(Intent::Wheel { delta: 1000 });
    assert_eq!(store.read().scroll_accum, 4000);
}

#[test]
fn scroll_saturates_at_bounds() {
    let mut store = StateStore::new(margins());
    store.apply(Intent::Wheel { delta: i64::MAX });
    store.apply(Intent::Wheel { delta: 10 });
    assert_eq!(store.read().scroll_accum, i64::MAX);
    store.apply(Intent::Wheel { delta: i64::MIN });
    store.apply(Intent::Wheel { delta: i64::MIN });
    assert_eq!(store.read().scroll_accum, i64::MIN);
}

#[test]
fn saturating_sum_values() {
    assert_eq!(saturating_sum(2, 3), 5);
    assert_eq!(saturating_sum(-7, 3), -4);
    assert_eq!(saturating_sum(i64::MAX, 1), i64::MAX);
    assert_eq!(saturating_sum(i64::MIN, -1), i64::MIN);
}

#[test]
fn snapshot_is_whole_state_between_applies() {
    let mut store = StateStore::new(margins());
    store.apply(Intent::Press { x: 5, y: 6 });
    let before = store.read();
    store.apply(Intent::Frame { time: 1600, height: 480, width: 640 });
    let after = store.read();
    let expected = InteractionState { time: 1600, height: 480, width: 640, ..before };
    assert_eq!(after, expected);
    assert_eq!(before.time, 0);
    assert_eq!((before.height, before.width), (0, 0));
    assert_eq!(after.margins, margins());
}

#[test]
fn pause_and_reset_touch_playback_only() {
    let mut store = StateStore::new(margins());
    store.apply(Intent::Frame { time: 250, height: 10, width: 20 });
    store.apply(Intent::Pause { paused: true });
    let paused = store.read();
    assert!(paused.playback_paused);
    assert_eq!(paused.time, 250);
    store.apply(Intent::Reset);
    let reset = store.read();
    assert!(!reset.playback_paused);
    assert_eq!(reset.time, 250);
    assert_eq!((reset.height, reset.width), (10, 20));
}

#[test]
fn pause_detail_missing_is_reported() {
    let mut store = StateStore::new(margins());
    store.apply(Intent::Wheel { delta: 9 });
    let before = store.read();
    assert_eq!(store.apply_pause_detail(None), Err(PayloadError::MissingDetail));
    assert_eq!(store.read(), before);
    assert_eq!(store.apply_pause_detail(Some(true)), Ok(()));
    assert!(store.read().playback_paused);
    assert_eq!(store.apply_pause_detail(Some(false)), Ok(()));
    assert!(!store.read().playback_paused);
}

#[test]
fn fractional_wheel_deltas_are_kept() {
    let mut store = StateStore::new(margins());
    store.apply(Intent::Wheel { delta: 250 });
    store.apply(Intent::Wheel { delta: 125 });
    store.apply(Intent::Wheel { delta: -50 });
    assert_eq!(store.read().scroll_accum, 325);
}

#[test]
fn reset_leaves_clock_and_pointer_alone() {
    let mut store = StateStore::new(margins());
    store.apply(Intent::Frame { time: 900, height: 3, width: 4 });
    store.apply(Intent::Press { x: 7, y: 8 });
    store.apply(Intent::Pause { paused: true });
    let before = store.read();
    store.apply(Intent::Reset);
    let after = store.read();
    assert_eq!(after, InteractionState { playback_paused: false, ..before });
}
