// The weights here are integer weight units: a batch that was once phrased
// with fractional weights against total 1 is phrased with whole units
// against total 2, which names exactly the same proportions.
use rust_plays::weighted_average::{WeightedBool, WeightedMean};

#[test]
fn mean_empty_set() {
    let mean = WeightedMean::new(0);
    assert_eq!(mean.compute(), 0);
}

#[test]
fn mean_single_value() {
    let mut mean = WeightedMean::new(1);
    mean.add(42, 1);
    assert_eq!(mean.compute(), 42);
}

#[test]
fn mean_multiple_values() {
    let mut mean = WeightedMean::new(4);
    mean.add(0, 2);
    mean.add(4, 1);
    mean.add(8, 1);
    assert_eq!(mean.compute(), 3);
}

#[test]
fn mean_ignores_additions_without_total() {
    let mut mean = WeightedMean::new(0);
    mean.add(42, 1);
    mean.add(-17, 3);
    assert_eq!(mean.compute(), 0);
}

#[test]
fn mean_rounds_toward_zero() {
    let mut mean = WeightedMean::new(2);
    mean.add(-3, 1);
    assert_eq!(mean.compute(), -1);

    let mut mean2 = WeightedMean::new(2);
    mean2.add(3, 1);
    assert_eq!(mean2.compute(), 1);
}

#[test]
fn bool_empty_set() {
    let vote = WeightedBool::new(0);
    assert_eq!(vote.compute(), false);
}

#[test]
fn bool_true() {
    let mut vote = WeightedBool::new(1);
    vote.add(true, 1);
    assert_eq!(vote.compute(), true);
}

#[test]
fn bool_false() {
    let mut vote = WeightedBool::new(1);
    vote.add(false, 1);
    assert_eq!(vote.compute(), false);
}

#[test]
fn bool_true_false() {
    let mut vote = WeightedBool::new(2);
    vote.add(true, 1);
    vote.add(false, 1);
    assert_eq!(vote.compute(), true);
}

#[test]
fn bool_false_false() {
    let mut vote = WeightedBool::new(2);
    vote.add(false, 1);
    vote.add(false, 1);
    assert_eq!(vote.compute(), false);
}

#[test]
fn bool_true_true() {
    let mut vote = WeightedBool::new(2);
    vote.add(true, 1);
    vote.add(true, 1);
    assert_eq!(vote.compute(), true);
}

#[test]
fn bool_ignores_additions_without_total() {
    let mut vote = WeightedBool::new(0);
    vote.add(true, 5);
    assert_eq!(vote.compute(), false);
}
