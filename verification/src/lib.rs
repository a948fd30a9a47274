//! A rule-driven FizzBuzz engine.
//!
//! A [`FizzBuzz`] value holds an ordered list of rules, each a label together
//! with a divisor.  Evaluating an integer concatenates, in rule order, the
//! labels of every rule whose divisor evenly divides it; when no rule matches,
//! the integer's decimal representation is returned instead.  A
//! [`FizzBuzzIter`] applies a rule set lazily over any pull-based integer
//! source.

pub mod digits;
pub mod divisibility;
pub mod laws;
pub mod lazy;
pub mod rules;
pub mod source;

pub use lazy::{FizzBuzzIter, FizzBuzzed};

pub use digits::decimal_string;
pub use divisibility::divisible_by;
pub use rules::{compute_fizzbuzz, FizzBuzz, Param};
pub use source::{IntSource, RangeSource, VecSource};
