use rust_plays::driver::Key;
use rust_plays::input_combiner::{InputCombiner, Output};

#[test]
fn step_empty() {
    let mut combiner = InputCombiner::new();
    assert_eq!(combiner.step(), Default::default());
}

#[test]
fn step_single_mouse_move() {
    let mut combiner = InputCombiner::new();

    combiner
        .channel("chan")
        .mouse_move_relative(&mut combiner, 1, -1, true, false);

    assert_eq!(
        combiner.step(),
        Output {
            mouse_delta_x: 1,
            mouse_delta_y: -1,
            mouse_left_button_down: true,
            mouse_right_button_down: false,
        }
    );

    assert_eq!(
        combiner.step(),
        Output {
            mouse_delta_x: 0,
            mouse_delta_y: 0,
            mouse_left_button_down: true,
            mouse_right_button_down: false,
        }
    );
}

#[test]
fn step_two_clients_mean() {
    let mut combiner = InputCombiner::new();
    let first = combiner.channel("first");
    let second = combiner.channel("second");
    first.mouse_move_relative(&mut combiner, 2, 0, false, false);
    second.mouse_move_relative(&mut combiner, 0, 2, false, false);
    let out = combiner.step();
    assert_eq!(out.mouse_delta_x, 1);
    assert_eq!(out.mouse_delta_y, 1);
}

#[test]
fn step_two_clients_mean_swapped_order() {
    let mut combiner = InputCombiner::new();
    let first = combiner.channel("first");
    let second = combiner.channel("second");
    second.mouse_move_relative(&mut combiner, 0, 2, false, false);
    first.mouse_move_relative(&mut combiner, 2, 0, false, false);
    let out = combiner.step();
    assert_eq!(out.mouse_delta_x, 1);
    assert_eq!(out.mouse_delta_y, 1);
}

#[test]
fn deltas_accumulate_between_ticks() {
    let mut combiner = InputCombiner::new();
    let chan = combiner.channel("chan");
    chan.mouse_move_relative(&mut combiner, 1, 1, false, false);
    chan.mouse_move_relative(&mut combiner, 2, 3, false, true);
    let out = combiner.step();
    assert_eq!(
        out,
        Output {
            mouse_delta_x: 3,
            mouse_delta_y: 4,
            mouse_left_button_down: false,
            mouse_right_button_down: true,
        }
    );
}

#[test]
fn same_id_aliases_same_channel() {
    let mut combiner = InputCombiner::new();
    combiner
        .channel("chan")
        .mouse_move_relative(&mut combiner, 5, 0, false, false);
    combiner
        .channel("chan")
        .mouse_move_relative(&mut combiner, 5, 0, true, false);
    let out = combiner.step();
    assert_eq!(out.mouse_delta_x, 10);
    assert!(out.mouse_left_button_down);
}

#[test]
fn mean_truncates_toward_zero() {
    let mut combiner = InputCombiner::new();
    let first = combiner.channel("first");
    let second = combiner.channel("second");
    first.mouse_move_relative(&mut combiner, -3, 3, false, false);
    second.mouse_move_relative(&mut combiner, 0, 0, false, false);
    let out = combiner.step();
    // -3 / 2 and 3 / 2 both round toward zero.
    assert_eq!(out.mouse_delta_x, -1);
    assert_eq!(out.mouse_delta_y, 1);
}

#[test]
fn button_majority_tie_resolves_down() {
    let mut combiner = InputCombiner::new();
    let first = combiner.channel("first");
    let second = combiner.channel("second");
    first.mouse_move_relative(&mut combiner, 0, 0, true, false);
    second.mouse_move_relative(&mut combiner, 0, 0, false, true);
    let out = combiner.step();
    assert!(out.mouse_left_button_down);
    assert!(out.mouse_right_button_down);
}

#[test]
fn accumulated_deltas_saturate_at_i32_range() {
    let mut combiner = InputCombiner::new();
    let chan = combiner.channel("chan");
    chan.mouse_move_relative(&mut combiner, i32::MAX, i32::MIN, false, false);
    chan.mouse_move_relative(&mut combiner, i32::MAX, i32::MIN, false, false);
    let out = combiner.step();
    assert_eq!(out.mouse_delta_x, i32::MAX);
    assert_eq!(out.mouse_delta_y, i32::MIN);
}

#[test]
fn key_events_pass_through_unrecorded() {
    let mut combiner = InputCombiner::new();
    let mut chan = combiner.channel("chan");
    chan.key_down(Key::Return);
    chan.key_up(Key::Return);
    assert_eq!(combiner.step(), Default::default());
}
