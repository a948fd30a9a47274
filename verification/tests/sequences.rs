//! Eager sequence evaluation and the lazy adapter.

use over_engineered_fizzbuzz::{
    FizzBuzz, FizzBuzzIter, FizzBuzzed, IntSource, RangeSource, VecSource,
};

#[test]
fn compute_iter_over_range() {
    let fb = FizzBuzz::default();
    let out = fb.compute_iter(RangeSource::new(1, 6));
    assert_eq!(out, vec!["1", "2", "Fizz", "4", "Buzz"]);
}

#[test]
fn compute_iter_over_vec() {
    let fb = FizzBuzz::default();
    let out = fb.compute_iter(VecSource::new(vec![1, 2, 3, 4, 5]));
    assert_eq!(out, vec!["1", "2", "Fizz", "4", "Buzz"]);
}

#[test]
fn compute_iter_keeps_length_and_order() {
    let fb = FizzBuzz::default();
    let inputs = vec![15, -3, 0, 7, 10];
    let out = fb.compute_iter(VecSource::new(inputs.clone()));
    assert_eq!(out.len(), inputs.len());
    for (k, x) in inputs.iter().enumerate() {
        assert_eq!(out[k], fb.compute(*x));
    }
}

#[test]
fn compute_iter_of_empty_source_is_empty() {
    let fb = FizzBuzz::default();
    let out = fb.compute_iter(RangeSource::new(5, 5));
    assert!(out.is_empty());
}

#[test]
fn lazy_adapter_produces_same_labels() {
    let mut it = FizzBuzzIter::new(FizzBuzz::default(), RangeSource::new(1, 6));
    let mut out: Vec<String> = Vec::new();
    while let Some(s) = it.next() {
        out.push(s);
    }
    assert_eq!(out, vec!["1", "2", "Fizz", "4", "Buzz"]);
}

#[test]
fn lazy_adapter_exhaustion_is_final() {
    let mut it = FizzBuzzIter::new(FizzBuzz::default(), VecSource::new(vec![3, 5]));
    assert_eq!(it.next(), Some("Fizz".to_string()));
    assert_eq!(it.next(), Some("Buzz".to_string()));
    assert_eq!(it.next(), None);
    assert_eq!(it.next(), None);
    assert_eq!(it.next(), None);
}

#[test]
fn fizzbuzz_adaptation_uses_default_rules() {
    let mut it = RangeSource::new(1, 6).fizzbuzz();
    let mut out: Vec<String> = Vec::new();
    while let Some(s) = it.next() {
        out.push(s);
    }
    assert_eq!(out, vec!["1", "2", "Fizz", "4", "Buzz"]);
}

#[test]
fn fizzbuzz_custom_uses_given_rules() {
    let fb = FizzBuzz::from_pairs(vec![("Carl", 3), ("Wheezer", 4)]);
    let mut it = RangeSource::new(1, 6).fizzbuzz_custom(fb);
    let mut out: Vec<String> = Vec::new();
    while let Some(s) = it.next() {
        out.push(s);
    }
    assert_eq!(out, vec!["1", "2", "Carl", "Wheezer", "5"]);
}

#[test]
fn sources_pull_in_order() {
    let mut r = RangeSource::new(-2, 1);
    assert_eq!(r.pull(), Some(-2));
    assert_eq!(r.pull(), Some(-1));
    assert_eq!(r.pull(), Some(0));
    assert_eq!(r.pull(), None);
    assert_eq!(r.pull(), None);

    let mut v = VecSource::new(vec![9, 8]);
    assert_eq!(v.pull(), Some(9));
    assert_eq!(v.pull(), Some(8));
    assert_eq!(v.pull(), None);
    assert_eq!(v.pull(), None);
}
