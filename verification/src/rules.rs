//! The rule set: an ordered list of (label, divisor) pairs and the
//! evaluation of a single integer against it.

use crate::digits::dec_rep;
use crate::digits::decimal_string;
use crate::divisibility::divides;
use crate::divisibility::divisible_by;
use crate::source::IntSource;
use vstd::prelude::*;

verus! {

/// One rule: a label and the divisor that makes it fire.
#[derive(Clone, Debug)]
pub struct Param {
    pub string: String,
    pub value: i32,
}

impl View for Param {
    type V = (Seq<char>, int);

    open spec fn view(&self) -> (Seq<char>, int) {
        (self.string@, self.value as int)
    }
}

impl Param {
    /// Builds a rule from a label and a divisor.
    pub fn new(string: &str, value: i32) -> (r: Param)
        ensures
            r@ == (string@, value as int),
    {
        Param { string: String::from_str(string), value }
    }

    /// Takes the rule apart into its label and divisor.
    pub fn tuple(self) -> (r: (String, i32))
        ensures
            (r.0@, r.1 as int) == self@,
    {
        (self.string, self.value)
    }
}

/// All divisors of the given rules are non-zero, the precondition under
/// which evaluation is defined.
pub open spec fn rules_wf(rules: Seq<(Seq<char>, int)>) -> bool {
    forall|i: int| 0 <= i < rules.len() ==> (#[trigger] rules[i]).1 != 0
}

/// The concatenation, in rule order, of the labels of every rule whose
/// divisor evenly divides `x`.
pub open spec fn matched_labels(rules: Seq<(Seq<char>, int)>, x: int) -> Seq<char>
    decreases rules.len(),
{
    if rules.len() == 0 {
        Seq::empty()
    } else {
        matched_labels(rules.drop_last(), x) + (if divides(rules.last().1, x) {
            rules.last().0
        } else {
            Seq::<char>::empty()
        })
    }
}

/// What evaluating `x` against `rules` returns: the matched labels, or the
/// decimal representation of `x` when no label was contributed.
pub open spec fn fizzbuzz_spec(rules: Seq<(Seq<char>, int)>, x: int) -> Seq<char> {
    if matched_labels(rules, x).len() == 0 {
        dec_rep(x)
    } else {
        matched_labels(rules, x)
    }
}

/// An ordered rule set together with its evaluation operations.
#[derive(Clone, Debug)]
pub struct FizzBuzz {
    params: Vec<Param>,
}

impl View for FizzBuzz {
    type V = Seq<(Seq<char>, int)>;

    closed spec fn view(&self) -> Seq<(Seq<char>, int)> {
        self.params@.map_values(|p: Param| p@)
    }
}

impl FizzBuzz {
    /// All stored divisors are non-zero.
    pub open spec fn wf(&self) -> bool {
        rules_wf(self@)
    }

    /// Returns a rule set with no rules at all; every input then falls back
    /// to its decimal representation.
    pub fn empty() -> (r: FizzBuzz)
        ensures
            r@ == Seq::<(Seq<char>, int)>::empty(),
            r.wf(),
    {
        let r = FizzBuzz { params: Vec::new() };
        proof {
            assert(r@ =~= Seq::<(Seq<char>, int)>::empty());
        }
        r
    }

    /// Builds a rule set from (label, divisor) pairs, keeping their order.
    pub fn from_pairs(pairs: Vec<(&str, i32)>) -> (r: FizzBuzz)
        ensures
            r@.len() == pairs@.len(),
            forall|k: int|
                0 <= k < pairs@.len() ==> r@[k] == ((#[trigger] pairs@[k]).0@, pairs@[k].1 as int),
    {
        let mut params: Vec<Param> = Vec::new();
        let n = pairs.len();
        let mut i: usize = 0;
        while i < n
            invariant
                n == pairs@.len(),
                i <= n,
                params@.len() == i,
                forall|k: int|
                    0 <= k < i ==> (#[trigger] params@[k])@ == (pairs@[k].0@, pairs@[k].1 as int),
            decreases n - i,
        {
            let (s, v) = pairs[i];
            params.push(Param::new(s, v));
            i = i + 1;
        }
        FizzBuzz { params }
    }

    /// Appends one rule at the end of the ordered list.
    pub fn append(&mut self, rule: Param)
        ensures
            final(self)@ == old(self)@.push(rule@),
    {
        let ghost r = rule@;
        self.params.push(rule);
        proof {
            assert(self@ =~= old(self)@.push(r));
        }
    }

    /// Appends one rule, given as a label and a divisor.
    pub fn append_pair(&mut self, label: &str, divisor: i32)
        ensures
            final(self)@ == old(self)@.push((label@, divisor as int)),
    {
        self.append(Param::new(label, divisor));
    }

    /// Returns a new rule set: this one with one more rule at the end.  The
    /// receiver is consumed, so nothing is duplicated.
    pub fn with_rule_added(self, rule: Param) -> (r: FizzBuzz)
        ensures
            r@ == self@.push(rule@),
    {
        let mut r = self;
        r.append(rule);
        r
    }

    /// Returns a new rule set: this one with one more (label, divisor) rule
    /// at the end.
    pub fn with_pair_added(self, label: &str, divisor: i32) -> (r: FizzBuzz)
        ensures
            r@ == self@.push((label@, divisor as int)),
    {
        self.with_rule_added(Param::new(label, divisor))
    }

    /// A read-only snapshot of the rules, in order.
    pub fn params(&self) -> (r: Vec<(String, i32)>)
        ensures
            r@.len() == self@.len(),
            forall|k: int|
                0 <= k < self@.len() ==> ((#[trigger] r@[k]).0@, r@[k].1 as int) == self@[k],
    {
        let mut r: Vec<(String, i32)> = Vec::new();
        let n = self.params.len();
        let mut i: usize = 0;
        while i < n
            invariant
                n == self.params@.len(),
                i <= n,
                r@.len() == i,
                forall|k: int|
                    0 <= k < i ==> ((#[trigger] r@[k]).0@, r@[k].1 as int) == self@[k],
            decreases n - i,
        {
            let p = &self.params[i];
            r.push((p.string.clone(), p.value));
            i = i + 1;
        }
        r
    }

    /// Evaluates every integer a source produces, eagerly, keeping order:
    /// the `k`-th output is the evaluation of the `k`-th input.
    pub fn compute_iter<I: IntSource>(&self, iter: I) -> (r: Vec<String>)
        requires
            self.wf(),
        ensures
            r@.len() == iter.remaining().len(),
            forall|k: int|
                0 <= k < r@.len() ==> (#[trigger] r@[k])@ == fizzbuzz_spec(
                    self@,
                    iter.remaining()[k] as int,
                ),
    {
        let ghost orig: Seq<i32> = iter.remaining();
        let mut it = iter;
        let mut out: Vec<String> = Vec::new();
        loop
            invariant
                self.wf(),
                out@.len() <= orig.len(),
                it.remaining() == orig.skip(out@.len() as int),
                forall|k: int|
                    0 <= k < out@.len() ==> (#[trigger] out@[k])@ == fizzbuzz_spec(
                        self@,
                        orig[k] as int,
                    ),
            ensures
                out@.len() == orig.len(),
                forall|k: int|
                    0 <= k < out@.len() ==> (#[trigger] out@[k])@ == fizzbuzz_spec(
                        self@,
                        orig[k] as int,
                    ),
            decreases it.remaining().len(),
        {
            let ghost before: Seq<i32> = it.remaining();
            match it.pull() {
                Some(x) => {
                    proof {
                        assert(before[0] == orig[out@.len() as int]);
                        assert(it.remaining() =~= orig.skip(out@.len() as int + 1));
                    }
                    out.push(self.compute(x));
                },
                None => {
                    break;
                },
            }
        }
        out
    }

    /// Evaluates one integer against the rules.
    pub fn compute(&self, a: i32) -> (r: String)
        requires
            self.wf(),
        ensures
            r@ == fizzbuzz_spec(self@, a as int),
    {
        compute_fizzbuzz(self, a)
    }
}

impl Default for FizzBuzz {
    /// The two canonical rules, in order: "Fizz" fires on multiples of 3,
    /// "Buzz" on multiples of 5.
    fn default() -> (r: FizzBuzz)
        ensures
            r@ == default_rules(),
            r.wf(),
    {
        let mut params: Vec<Param> = Vec::new();
        params.push(Param::new("Fizz", 3));
        params.push(Param::new("Buzz", 5));
        let r = FizzBuzz { params };
        proof {
            assert(r@ =~= default_rules());
        }
        r
    }
}

/// The canonical rule list: ("Fizz", 3) then ("Buzz", 5).
pub open spec fn default_rules() -> Seq<(Seq<char>, int)> {
    seq![("Fizz"@, 3int), ("Buzz"@, 5int)]
}

/// Evaluates `var` against all rules of `fb` in order: the labels of the
/// rules whose divisors evenly divide `var`, concatenated, or the decimal
/// string of `var` when none contributed.
pub fn compute_fizzbuzz(fb: &FizzBuzz, var: i32) -> (r: String)
    requires
        fb.wf(),
    ensures
        r@ == fizzbuzz_spec(fb@, var as int),
{
    let mut canvas = String::new();
    let n = fb.params.len();
    let mut i: usize = 0;
    while i < n
        invariant
            fb.wf(),
            n == fb.params@.len(),
            i <= n,
            canvas@ == matched_labels(fb@.take(i as int), var as int),
        decreases n - i,
    {
        let p = &fb.params[i];
        proof {
            assert(fb@[i as int] == p@);
            assert(fb@.take(i + 1).drop_last() =~= fb@.take(i as int));
            assert(fb@.take(i + 1).last() == fb@[i as int]);
        }
        if divisible_by(var, p.value) {
            canvas.append(p.string.as_str());
        }
        i = i + 1;
    }
    proof {
        assert(fb@.take(n as int) =~= fb@);
    }
    if canvas.as_str().is_empty() {
        decimal_string(var)
    } else {
        canvas
    }
}

} // verus!
