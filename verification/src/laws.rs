//! General properties of rule evaluation, stated and proved once over the
//! mathematical model that the executable contracts use.

use crate::digits::dec_rep;
use crate::divisibility::divides;
use crate::rules::fizzbuzz_spec;
use crate::rules::matched_labels;
use vstd::prelude::*;

verus! {

/// When no rule's divisor divides `x`, no label is contributed.
proof fn lemma_no_match_empty(rules: Seq<(Seq<char>, int)>, x: int)
    requires
        forall|i: int| 0 <= i < rules.len() ==> !divides((#[trigger] rules[i]).1, x),
    ensures
        matched_labels(rules, x).len() == 0,
    decreases rules.len(),
{
    if rules.len() > 0 {
        let prefix = rules.drop_last();
        assert(forall|i: int| 0 <= i < prefix.len() ==> prefix[i] == rules[i]);
        lemma_no_match_empty(prefix, x);
        assert(!divides(rules[rules.len() - 1].1, x));
    }
}

/// An integer that no configured divisor divides evaluates to its decimal
/// representation.
pub proof fn lemma_fallback_when_no_divisor(rules: Seq<(Seq<char>, int)>, x: int)
    requires
        forall|i: int| 0 <= i < rules.len() ==> !divides((#[trigger] rules[i]).1, x),
    ensures
        fizzbuzz_spec(rules, x) == dec_rep(x),
{
    lemma_no_match_empty(rules, x);
}

/// When rule `i`'s divisor divides `x`, the contributed labels split into
/// the contributions of the rules before `i`, then rule `i`'s own label,
/// then the contributions of the rules after `i`: the label appears as a
/// contiguous block, in rule order.
pub proof fn lemma_matched_label_position(rules: Seq<(Seq<char>, int)>, x: int, i: int)
    requires
        0 <= i < rules.len(),
        divides(rules[i].1, x),
    ensures
        matched_labels(rules, x) == matched_labels(rules.take(i), x) + rules[i].0
            + matched_labels(rules.skip(i + 1), x),
        matched_labels(rules, x).subrange(
            matched_labels(rules.take(i), x).len() as int,
            matched_labels(rules.take(i), x).len() as int + rules[i].0.len(),
        ) == rules[i].0,
    decreases rules.len(),
{
    let pre = matched_labels(rules.take(i), x);
    let post = matched_labels(rules.skip(i + 1), x);
    if i == rules.len() - 1 {
        assert(rules.drop_last() =~= rules.take(i));
        assert(rules.skip(i + 1) =~= Seq::<(Seq<char>, int)>::empty());
        assert(rules.last() == rules[i]);
        assert(matched_labels(rules, x) =~= pre + rules[i].0 + post);
    } else {
        let prefix = rules.drop_last();
        assert(prefix[i] == rules[i]);
        lemma_matched_label_position(prefix, x, i);
        assert(prefix.take(i) =~= rules.take(i));
        assert(prefix.skip(i + 1) =~= rules.skip(i + 1).drop_last());
        assert(rules.skip(i + 1).len() > 0);
        assert(rules.skip(i + 1).last() == rules.last());
        assert(matched_labels(rules, x) =~= pre + rules[i].0 + post);
    }
    assert(matched_labels(rules, x).subrange(
        pre.len() as int,
        pre.len() as int + rules[i].0.len(),
    ) =~= rules[i].0);
}

/// When any label at all is contributed, the evaluation result is exactly
/// the contributed labels; together with [`lemma_matched_label_position`],
/// a matching rule's label therefore stands contiguously in the result.
pub proof fn lemma_result_is_matched_labels(rules: Seq<(Seq<char>, int)>, x: int)
    requires
        matched_labels(rules, x).len() > 0,
    ensures
        fizzbuzz_spec(rules, x) == matched_labels(rules, x),
{
}

/// Evaluation is deterministic: any two results of evaluating the same
/// input against the same rules are equal.
pub proof fn lemma_compute_deterministic(
    rules: Seq<(Seq<char>, int)>,
    x: int,
    r1: Seq<char>,
    r2: Seq<char>,
)
    requires
        r1 == fizzbuzz_spec(rules, x),
        r2 == fizzbuzz_spec(rules, x),
    ensures
        r1 == r2,
{
}

/// Appending a rule whose divisor does not divide `x` leaves the result
/// for `x` unchanged; appending one whose divisor does divide `x` only
/// adds its label after the labels already contributed, removing nothing.
pub proof fn lemma_append_rule(rules: Seq<(Seq<char>, int)>, label: Seq<char>, d: int, x: int)
    ensures
        !divides(d, x) ==> fizzbuzz_spec(rules.push((label, d)), x) == fizzbuzz_spec(rules, x),
        divides(d, x) ==> matched_labels(rules.push((label, d)), x) == matched_labels(rules, x)
            + label,
{
    let r2 = rules.push((label, d));
    assert(r2.drop_last() =~= rules);
    assert(r2.last() == (label, d));
    if !divides(d, x) {
        assert(matched_labels(r2, x) =~= matched_labels(rules, x));
    }
}

} // verus!
