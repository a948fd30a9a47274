//! The lazy adapter: applies a rule set's evaluation over a pull-based
//! integer source, one value at a time.

use crate::rules::default_rules;
use crate::rules::fizzbuzz_spec;
use crate::rules::rules_wf;
use crate::rules::FizzBuzz;
use crate::source::IntSource;
use vstd::prelude::*;

verus! {

/// A lazy sequence of evaluated labels: one rule set over one integer
/// source, a single-pass forward-only cursor.
#[derive(Debug)]
pub struct FizzBuzzIter<I> {
    fb: FizzBuzz,
    iter: I,
}

impl<I: IntSource> FizzBuzzIter<I> {
    /// The rules this adapter evaluates with.
    pub closed spec fn rules_view(&self) -> Seq<(Seq<char>, int)> {
        self.fb@
    }

    /// The integers still to be pulled from the underlying source.
    pub closed spec fn source_view(&self) -> Seq<i32> {
        self.iter.remaining()
    }

    /// Binds a rule set and an integer source together.
    pub fn new(fb: FizzBuzz, iter: I) -> (r: FizzBuzzIter<I>)
        ensures
            r.rules_view() == fb@,
            r.source_view() == iter.remaining(),
    {
        FizzBuzzIter { fb, iter }
    }

    /// Produces the evaluation of the next source value, or nothing once
    /// the source is exhausted; an exhausted adapter stays exhausted.
    pub fn next(&mut self) -> (r: Option<String>)
        requires
            rules_wf(old(self).rules_view()),
        ensures
            final(self).rules_view() == old(self).rules_view(),
            old(self).source_view().len() == 0 ==> r is None,
            old(self).source_view().len() == 0 ==> final(self).source_view() == old(self).source_view(),
            old(self).source_view().len() > 0 ==> (r matches Some(s) && s@ == fizzbuzz_spec(
                old(self).rules_view(),
                old(self).source_view()[0] as int,
            )),
            old(self).source_view().len() > 0 ==> final(self).source_view() == old(self).source_view().skip(1),
    {
        match self.iter.pull() {
            Some(x) => Some(self.fb.compute(x)),
            None => None,
        }
    }
}

/// Offers the lazy adaptation on any integer source: with a rule set of
/// the caller's choice, or with the two canonical rules.
pub trait FizzBuzzed: IntSource + Sized {
    /// Wraps this source with the canonical rules.
    fn fizzbuzz(self) -> (r: FizzBuzzIter<Self>)
        ensures
            r.rules_view() == default_rules(),
            r.source_view() == self.remaining(),
    ;

    /// Wraps this source with the given rules.
    fn fizzbuzz_custom(self, fb: FizzBuzz) -> (r: FizzBuzzIter<Self>)
        ensures
            r.rules_view() == fb@,
            r.source_view() == self.remaining(),
    ;
}

impl<I: IntSource> FizzBuzzed for I {
    fn fizzbuzz(self) -> (r: FizzBuzzIter<I>) {
        self.fizzbuzz_custom(FizzBuzz::default())
    }

    fn fizzbuzz_custom(self, fb: FizzBuzz) -> (r: FizzBuzzIter<I>) {
        FizzBuzzIter::new(fb, self)
    }
}

} // verus!
