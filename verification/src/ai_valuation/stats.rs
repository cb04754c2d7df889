//! Aggregates over a list of predictions: the ensemble confidence, the
//! consensus score and the explanation text.

use vstd::prelude::*;
use crate::ai_valuation::text::{decimal, push_decimal};
use crate::ai_valuation::types::AIPrediction;
use vstd::arithmetic::div_mod::{lemma_div_by_multiple, lemma_fundamental_div_mod, lemma_mod_pos_bound};

verus! {

/// The sum of `term` over `s`.
pub open spec fn sum_by<T>(s: Seq<T>, term: spec_fn(T) -> int) -> int
    decreases s.len(),
{
    if s.len() == 0 {
        0
    } else {
        sum_by(s.drop_last(), term) + term(s.last())
    }
}

/// With nonnegative terms, the sum over a prefix is at most the sum over
/// the whole sequence.
pub proof fn lemma_sum_by_prefix<T>(s: Seq<T>, term: spec_fn(T) -> int, i: int)
    requires
        0 <= i <= s.len(),
        forall|k: int| 0 <= k < s.len() ==> term(#[trigger] s[k]) >= 0,
    ensures
        0 <= sum_by(s.take(i), term) <= sum_by(s, term),
    decreases s.len(),
{
    if s.len() == 0 {
        assert(s.take(i) =~= s);
    } else if i == s.len() {
        assert(s.take(i) =~= s);
        lemma_sum_by_prefix(s.drop_last(), term, i - 1);
        assert(term(s[s.len() - 1]) >= 0);
    } else {
        assert(s.take(i) =~= s.drop_last().take(i));
        assert forall|k: int| 0 <= k < s.drop_last().len() implies term(#[trigger] s.drop_last()[k]) >= 0 by {
            assert(s.drop_last()[k] == s[k]);
        }
        lemma_sum_by_prefix(s.drop_last(), term, i);
        assert(term(s[s.len() - 1]) >= 0);
    }
}

/// The sum over the first `i + 1` elements is the sum over the first `i`
/// plus the `i`-th term.
pub proof fn lemma_sum_by_step<T>(s: Seq<T>, term: spec_fn(T) -> int, i: int)
    requires
        0 <= i < s.len(),
    ensures
        sum_by(s.take(i + 1), term) == sum_by(s.take(i), term) + term(s[i]),
{
    assert(s.take(i + 1).drop_last() =~= s.take(i));
}

/// A prediction's value as a term.
pub open spec fn value_term() -> spec_fn(AIPrediction) -> int {
    |p: AIPrediction| p.predicted_value as int
}

/// A prediction's confidence as a term.
pub open spec fn confidence_term() -> spec_fn(AIPrediction) -> int {
    |p: AIPrediction| p.confidence_score as int
}

/// The distance of `v` from `mean`.
pub open spec fn distance(v: int, mean: int) -> int {
    if v > mean { v - mean } else { mean - v }
}

/// A prediction's squared distance from `mean`, divided by `mean`.
pub open spec fn deviation_term(mean: int) -> spec_fn(AIPrediction) -> int {
    |p: AIPrediction| (distance(p.predicted_value as int, mean) * distance(p.predicted_value as int, mean)) / mean
}

/// The mean predicted value, rounded down.
pub open spec fn mean_value(ps: Seq<AIPrediction>) -> int {
    sum_by(ps, value_term()) / ps.len() as int
}

/// The average confidence of `ps`, rounded down; zero for none.
pub open spec fn ensemble_confidence(ps: Seq<AIPrediction>) -> int {
    if ps.len() == 0 {
        0
    } else {
        sum_by(ps, confidence_term()) / ps.len() as int
    }
}

/// How closely the predicted values agree, 0 to 10000: 10000 less their
/// coefficient of variation (in hundredths of a percent), floored at zero;
/// 10000 for fewer than two predictions.
pub open spec fn consensus_score(ps: Seq<AIPrediction>) -> int {
    if ps.len() < 2 {
        10000
    } else {
        let mean = mean_value(ps);
        let variance = sum_by(ps, deviation_term(mean)) / ps.len() as int;
        let cv = if mean > 0 { (variance * 10000) / mean } else { 10000 };
        if cv > 10000 { 0 } else { 10000 - cv }
    }
}

/// The arithmetic of the consensus score of `ps` stays in range, and the
/// mean it divides by is positive.
pub open spec fn consensus_fits(ps: Seq<AIPrediction>) -> bool {
    ps.len() >= 2 ==> {
        let mean = mean_value(ps);
        &&& sum_by(ps, value_term()) <= u128::MAX
        &&& mean > 0
        &&& forall|k: int|
            0 <= k < ps.len() ==> distance(#[trigger] ps[k].predicted_value as int, mean) * distance(
                ps[k].predicted_value as int,
                mean,
            ) <= u128::MAX
        &&& sum_by(ps, deviation_term(mean)) <= u128::MAX
        &&& (sum_by(ps, deviation_term(mean)) / ps.len() as int) * 10000 <= u128::MAX
    }
}

/// The sum of the predicted values of `predictions`, when it fits.
pub fn checked_value_total(predictions: &Vec<AIPrediction>) -> (r: Option<u128>)
    ensures
        r is Some <==> sum_by(predictions@, value_term()) <= u128::MAX,
        r matches Some(t) ==> t == sum_by(predictions@, value_term()),
{
    let ghost ps = predictions@;
    let mut total: u128 = 0;
    let mut k: usize = 0;
    while k < predictions.len()
        invariant
            predictions@ == ps,
            k <= ps.len(),
            total == sum_by(ps.take(k as int), value_term()),
        decreases ps.len() - k,
    {
        proof {
            lemma_sum_by_step(ps, value_term(), k as int);
        }
        total = match total.checked_add(predictions[k].predicted_value) {
            Some(x) => x,
            None => {
                proof {
                    lemma_sum_by_prefix(ps, value_term(), k + 1);
                }
                return None;
            },
        };
        k = k + 1;
    }
    proof {
        assert(ps.take(ps.len() as int) =~= ps);
    }
    Some(total)
}

/// Whether the consensus score of `predictions` can be computed: its
/// arithmetic stays in range and the mean it divides by is positive.
pub fn consensus_in_range(predictions: &Vec<AIPrediction>) -> (b: bool)
    ensures
        b == consensus_fits(predictions@),
{
    let n = predictions.len();
    if n < 2 {
        return true;
    }
    let ghost ps = predictions@;
    let mut sum: u128 = 0;
    let mut i: usize = 0;
    while i < n
        invariant
            ps == predictions@,
            n == ps.len(),
            i <= n,
            sum == sum_by(ps.take(i as int), value_term()),
        decreases n - i,
    {
        proof {
            lemma_sum_by_step(ps, value_term(), i as int);
        }
        sum = match sum.checked_add(predictions[i].predicted_value) {
            Some(x) => x,
            None => {
                proof {
                    lemma_sum_by_prefix(ps, value_term(), i + 1);
                }
                return false;
            },
        };
        i = i + 1;
    }
    proof {
        assert(ps.take(n as int) =~= ps);
    }
    let mean = sum / n as u128;
    if mean == 0 {
        return false;
    }
    let ghost dev = deviation_term(mean as int);
    let mut var_sum: u128 = 0;
    let mut j: usize = 0;
    while j < n
        invariant
            ps == predictions@,
            n == ps.len(),
            n >= 2,
            mean == mean_value(ps),
            mean > 0,
            sum_by(ps, value_term()) <= u128::MAX,
            dev == deviation_term(mean as int),
            j <= n,
            forall|k: int| 0 <= k < j ==> distance(#[trigger] ps[k].predicted_value as int, mean as int) * distance(
                ps[k].predicted_value as int,
                mean as int,
            ) <= u128::MAX,
            var_sum == sum_by(ps.take(j as int), dev),
        decreases n - j,
    {
        let v = predictions[j].predicted_value;
        let diff = if v > mean { v - mean } else { mean - v };
        let square = match diff.checked_mul(diff) {
            Some(x) => x,
            None => return false,
        };
        proof {
            assert(diff == distance(ps[j as int].predicted_value as int, mean as int));
            lemma_sum_by_step(ps, dev, j as int);
            assert forall|k: int| 0 <= k < ps.len() implies dev(#[trigger] ps[k]) >= 0 by {
                let d = distance(ps[k].predicted_value as int, mean as int);
                assert(d * d >= 0) by (nonlinear_arith);
                assert((d * d) / (mean as int) >= 0) by (nonlinear_arith)
                    requires
                        d * d >= 0,
                        mean > 0,
                ;
            }
        }
        var_sum = match var_sum.checked_add(square / mean) {
            Some(x) => x,
            None => {
                proof {
                    lemma_sum_by_prefix(ps, dev, j + 1);
                }
                return false;
            },
        };
        j = j + 1;
    }
    proof {
        assert(ps.take(n as int) =~= ps);
    }
    (var_sum / n as u128).checked_mul(10000).is_some()
}

/// The average confidence of `predictions`, rounded down; zero for none.
pub fn calculate_ensemble_confidence(predictions: &Vec<AIPrediction>) -> (r: u32)
    requires
        predictions@.len() <= u32::MAX,
        sum_by(predictions@, confidence_term()) <= u32::MAX,
    ensures
        r == ensemble_confidence(predictions@),
{
    let n = predictions.len();
    if n == 0 {
        return 0;
    }
    let mut total: u32 = 0;
    let mut i: usize = 0;
    while i < n
        invariant
            n == predictions@.len(),
            i <= n,
            total == sum_by(predictions@.take(i as int), confidence_term()),
            sum_by(predictions@, confidence_term()) <= u32::MAX,
        decreases n - i,
    {
        proof {
            lemma_sum_by_step(predictions@, confidence_term(), i as int);
            lemma_sum_by_prefix(predictions@, confidence_term(), i + 1);
        }
        total = total + predictions[i].confidence_score;
        i = i + 1;
    }
    proof {
        assert(predictions@.take(n as int) =~= predictions@);
    }
    total / n as u32
}

/// The consensus score of `predictions`.
pub fn calculate_consensus_score(predictions: &Vec<AIPrediction>) -> (r: u32)
    requires
        consensus_fits(predictions@),
    ensures
        r == consensus_score(predictions@),
{
    let n = predictions.len();
    if n < 2 {
        return 10000;
    }
    let ghost ps = predictions@;
    let mut sum: u128 = 0;
    let mut i: usize = 0;
    while i < n
        invariant
            ps == predictions@,
            n == ps.len(),
            n >= 2,
            consensus_fits(ps),
            i <= n,
            sum == sum_by(ps.take(i as int), value_term()),
        decreases n - i,
    {
        proof {
            lemma_sum_by_step(ps, value_term(), i as int);
            lemma_sum_by_prefix(ps, value_term(), i + 1);
        }
        sum = sum + predictions[i].predicted_value;
        i = i + 1;
    }
    proof {
        assert(ps.take(n as int) =~= ps);
    }
    let mean = sum / n as u128;
    let ghost dev = deviation_term(mean as int);
    let mut var_sum: u128 = 0;
    let mut j: usize = 0;
    while j < n
        invariant
            ps == predictions@,
            n == ps.len(),
            n >= 2,
            consensus_fits(ps),
            mean == mean_value(ps),
            mean > 0,
            dev == deviation_term(mean as int),
            j <= n,
            var_sum == sum_by(ps.take(j as int), dev),
        decreases n - j,
    {
        let v = predictions[j].predicted_value;
        let diff = if v > mean { v - mean } else { mean - v };
        proof {
            assert(diff == distance(ps[j as int].predicted_value as int, mean as int));
            assert(diff * diff <= u128::MAX);
            assert forall|k: int| 0 <= k < ps.len() implies dev(#[trigger] ps[k]) >= 0 by {
                let d = distance(ps[k].predicted_value as int, mean as int);
                assert(d * d >= 0) by (nonlinear_arith);
                assert((d * d) / (mean as int) >= 0) by (nonlinear_arith)
                    requires
                        d * d >= 0,
                        mean > 0,
                ;
            }
            lemma_sum_by_step(ps, dev, j as int);
            lemma_sum_by_prefix(ps, dev, j + 1);
        }
        var_sum = var_sum + (diff * diff) / mean;
        j = j + 1;
    }
    proof {
        assert(ps.take(n as int) =~= ps);
    }
    let variance = var_sum / n as u128;
    let cv = if mean > 0 { (variance * 10000) / mean } else { 10000 };
    if cv > 10000 {
        0
    } else {
        10000 - cv as u32
    }
}

/// The explanation of an ensemble valuation of `final_value` from `ps`.
pub open spec fn explanation_text(ps: Seq<AIPrediction>, final_value: u128) -> Seq<char> {
    if ps.len() == 0 {
        "No predictions available"@
    } else {
        let avg = ensemble_confidence(ps);
        "Ensemble valuation of $"@ + decimal(final_value as nat) + " based on "@ + decimal(ps.len()) + " models with "@
            + decimal((avg / 100) as nat)
            + "% average confidence. Key factors: location quality, property size, market conditions, and comparable sales data."@
    }
}

/// A plain-language explanation of an ensemble valuation of `final_value`
/// from `predictions`.
pub fn generate_explanation(predictions: &Vec<AIPrediction>, final_value: u128) -> (s: String)
    requires
        predictions@.len() <= u32::MAX,
        sum_by(predictions@, confidence_term()) <= u32::MAX,
    ensures
        s@ == explanation_text(predictions@, final_value),
{
    if predictions.len() == 0 {
        return "No predictions available".to_owned();
    }
    let model_count = predictions.len();
    let avg_confidence = calculate_ensemble_confidence(predictions);
    let mut s = String::new();
    s.append("Ensemble valuation of $");
    push_decimal(&mut s, final_value);
    s.append(" based on ");
    push_decimal(&mut s, model_count as u128);
    s.append(" models with ");
    push_decimal(&mut s, (avg_confidence / 100) as u128);
    s.append("% average confidence. Key factors: location quality, property size, market conditions, and comparable sales data.",
    );
    proof {
        assert(s@ =~= explanation_text(predictions@, final_value));
    }
    s
}

/// With every term between `lo` and `hi`, the sum lies between `lo` and
/// `hi` times the number of terms.
pub proof fn lemma_sum_by_between<T>(s: Seq<T>, term: spec_fn(T) -> int, lo: int, hi: int)
    requires
        forall|k: int| 0 <= k < s.len() ==> lo <= #[trigger] term(s[k]) <= hi,
    ensures
        s.len() * lo <= sum_by(s, term) <= s.len() * hi,
    decreases s.len(),
{
    if s.len() > 0 {
        let r = s.drop_last();
        assert forall|k: int| 0 <= k < r.len() implies lo <= #[trigger] term(r[k]) <= hi by {
            assert(r[k] == s[k]);
        }
        lemma_sum_by_between(r, term, lo, hi);
        assert(lo <= term(s[s.len() - 1]) <= hi);
        assert(r.len() * lo + lo == s.len() * lo) by (nonlinear_arith)
            requires
                r.len() + 1 == s.len(),
        ;
        assert(r.len() * hi + hi == s.len() * hi) by (nonlinear_arith)
            requires
                r.len() + 1 == s.len(),
        ;
    }
}

/// The ensemble confidence is the average confidence of the contributing
/// predictions, rounded down: `n` times it is at most their total, and less
/// than `n` more than it; so it lies between the lowest and the highest
/// confidence among them, and equals the confidence they share when they
/// all have the same.
pub proof fn lemma_ensemble_confidence_is_average(ps: Seq<AIPrediction>, lo: int, hi: int)
    requires
        ps.len() > 0,
        forall|i: int| 0 <= i < ps.len() ==> lo <= #[trigger] ps[i].confidence_score <= hi,
    ensures
        ps.len() * ensemble_confidence(ps) <= sum_by(ps, confidence_term()) < ps.len() * (
        ensemble_confidence(ps) + 1),
        lo <= ensemble_confidence(ps) <= hi,
{
    let n = ps.len() as int;
    let total = sum_by(ps, confidence_term());
    assert forall|k: int| 0 <= k < ps.len() implies lo <= #[trigger] confidence_term()(ps[k]) <= hi by {
        assert(lo <= ps[k].confidence_score <= hi);
    }
    lemma_sum_by_between(ps, confidence_term(), lo, hi);
    assert forall|k: int| 0 <= k < ps.len() implies 0 <= #[trigger] confidence_term()(ps[k]) by {}
    lemma_sum_by_between(ps, confidence_term(), 0, u32::MAX as int);
    let e = total / n;
    lemma_fundamental_div_mod(total, n);
    lemma_mod_pos_bound(total, n);
    assert(total == n * e + total % n);
    assert(n * (e + 1) == n * e + n) by (nonlinear_arith);
    assert(n * e <= total < n * (e + 1));
    if e < lo {
        assert(n * (e + 1) <= n * lo) by (nonlinear_arith)
            requires
                n > 0,
                e + 1 <= lo,
        ;
    }
    if e > hi {
        assert(n * e >= n * (hi + 1)) by (nonlinear_arith)
            requires
                n > 0,
                e >= hi + 1,
        ;
        assert(n * (hi + 1) == n * hi + n) by (nonlinear_arith);
    }
}

/// Predictions that all agree on a positive value are in full consensus:
/// their mean is that value, they deviate from it by nothing, and the
/// consensus score is 10000.
pub proof fn lemma_agreement_is_full_consensus(ps: Seq<AIPrediction>, v: int)
    requires
        ps.len() > 0,
        v > 0,
        forall|i: int| 0 <= i < ps.len() ==> #[trigger] ps[i].predicted_value == v,
    ensures
        mean_value(ps) == v,
        consensus_score(ps) == 10000,
{
    let n = ps.len() as int;
    assert forall|k: int| 0 <= k < ps.len() implies v <= #[trigger] value_term()(ps[k]) <= v by {
        assert(ps[k].predicted_value == v);
    }
    lemma_sum_by_between(ps, value_term(), v, v);
    lemma_div_by_multiple(v, n);
    assert(n * v == v * n) by (nonlinear_arith);
    assert(mean_value(ps) == v);
    assert forall|k: int| 0 <= k < ps.len() implies 0 <= #[trigger] deviation_term(v)(ps[k]) <= 0 by {
        assert(ps[k].predicted_value == v);
        assert(distance(v, v) == 0);
    }
    lemma_sum_by_between(ps, deviation_term(v), 0, 0);
    assert(n * 0 == 0) by (nonlinear_arith);
}

} // verus!
