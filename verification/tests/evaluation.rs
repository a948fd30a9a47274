//! The canonical evaluation scenarios and the edge cases of single-value
//! evaluation.

use over_engineered_fizzbuzz::{compute_fizzbuzz, FizzBuzz, Param};

#[test]
fn default_rules_one() {
    let fb = FizzBuzz::default();
    assert_eq!(fb.compute(1), "1");
}

#[test]
fn default_rules_two() {
    let fb = FizzBuzz::default();
    assert_eq!(fb.compute(2), "2");
}

#[test]
fn default_rules_three() {
    let fb = FizzBuzz::default();
    assert_eq!(fb.compute(3), "Fizz");
}

#[test]
fn default_rules_five() {
    let fb = FizzBuzz::default();
    assert_eq!(fb.compute(5), "Buzz");
}

#[test]
fn default_rules_fifteen() {
    let fb = FizzBuzz::default();
    assert_eq!(fb.compute(15), "FizzBuzz");
}

#[test]
fn free_function_matches_method() {
    let fb = FizzBuzz::default();
    assert_eq!(compute_fizzbuzz(&fb, 1), "1");
    assert_eq!(compute_fizzbuzz(&fb, 2), "2");
    assert_eq!(compute_fizzbuzz(&fb, 3), "Fizz");
    assert_eq!(compute_fizzbuzz(&fb, 5), "Buzz");
    assert_eq!(compute_fizzbuzz(&fb, 15), "FizzBuzz");
}

#[test]
fn appended_rules_all_fire() {
    let mut fb = FizzBuzz::default();
    fb = fb.with_pair_added("Kazz", 7);
    fb.append_pair("Vezz", 11);
    assert_eq!(fb.compute(3 * 5 * 7 * 11), "FizzBuzzKazzVezz");
}

#[test]
fn empty_rule_set_always_falls_back() {
    let fb = FizzBuzz::empty();
    assert_eq!(fb.compute(15), "15");
    assert_eq!(fb.compute(0), "0");
    assert_eq!(fb.compute(-7), "-7");
}

#[test]
fn divisor_one_fires_on_everything() {
    let fb = FizzBuzz::from_pairs(vec![("All", 1)]);
    assert_eq!(fb.compute(1), "All");
    assert_eq!(fb.compute(42), "All");
    assert_eq!(fb.compute(-9), "All");
    assert_eq!(fb.compute(0), "All");
}

#[test]
fn duplicate_labels_concatenate_in_order() {
    let fb = FizzBuzz::from_pairs(vec![("Echo", 2), ("Echo", 3)]);
    assert_eq!(fb.compute(6), "EchoEcho");
    assert_eq!(fb.compute(2), "Echo");
    assert_eq!(fb.compute(7), "7");
}

#[test]
fn negative_inputs_and_divisors() {
    let fb = FizzBuzz::default();
    assert_eq!(fb.compute(-3), "Fizz");
    assert_eq!(fb.compute(-15), "FizzBuzz");
    assert_eq!(fb.compute(-1), "-1");

    let fb = FizzBuzz::from_pairs(vec![("Neg", -4)]);
    assert_eq!(fb.compute(8), "Neg");
    assert_eq!(fb.compute(-8), "Neg");
    assert_eq!(fb.compute(6), "6");
}

#[test]
fn extreme_inputs_fall_back_to_decimal() {
    let fb = FizzBuzz::default();
    assert_eq!(fb.compute(i32::MIN), "-2147483648");
    assert_eq!(fb.compute(i32::MAX), "2147483647");
    assert_eq!(fb.compute(0), "FizzBuzz");
}

#[test]
fn zero_matches_every_rule() {
    let fb = FizzBuzz::from_pairs(vec![("A", 2), ("B", 9)]);
    assert_eq!(fb.compute(0), "AB");
}

#[test]
fn param_new_and_tuple_round_trip() {
    let p = Param::new("Kazz", 7);
    let (label, divisor) = p.tuple();
    assert_eq!(label, "Kazz");
    assert_eq!(divisor, 7);
}

#[test]
fn params_snapshot_keeps_order() {
    let fb = FizzBuzz::default();
    assert_eq!(fb.params(), vec![("Fizz".to_string(), 3), ("Buzz".to_string(), 5)]);

    let fb = FizzBuzz::empty();
    assert_eq!(fb.params(), vec![]);
}

#[test]
fn append_keeps_earlier_rules() {
    let mut fb = FizzBuzz::empty();
    fb.append(Param::new("Fizz", 3));
    fb.append(Param::new("Buzz", 5));
    assert_eq!(fb.params(), vec![("Fizz".to_string(), 3), ("Buzz".to_string(), 5)]);
    assert_eq!(fb.compute(15), "FizzBuzz");
}
