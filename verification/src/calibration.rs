//! Calibration of the conviction threshold on a labelled corpus: a sweep of
//! candidate thresholds in steps of 0.05 LLR that keeps the false-positive
//! rate within 1 % while catching as many transcodes as possible. Scores are
//! in hundredths of LLR, the resolution at which the engine rounds them.
use vstd::prelude::*;

verus! {

/// How many scores reach the threshold.
pub open spec fn count_at_least(s: Seq<i64>, t: int) -> nat
    decreases s.len(),
{
    if s.len() == 0 {
        0
    } else {
        count_at_least(s.drop_last(), t) + (if s.last() >= t { 1nat } else { 0nat })
    }
}

pub open spec fn seq_min(s: Seq<i64>) -> int
    decreases s.len(),
{
    if s.len() <= 1 {
        if s.len() == 1 { s[0] as int } else { 0 }
    } else {
        let m = seq_min(s.drop_last());
        if (s.last() as int) < m { s.last() as int } else { m }
    }
}

pub open spec fn seq_max(s: Seq<i64>) -> int
    decreases s.len(),
{
    if s.len() <= 1 {
        if s.len() == 1 { s[0] as int } else { 0 }
    } else {
        let m = seq_max(s.drop_last());
        if (s.last() as int) > m { s.last() as int } else { m }
    }
}

/// The lowest grid point, in whole LLR units: two below the lowest lossless
/// score, rounded down.
pub open spec fn grid_low(lossless: Seq<i64>) -> int {
    (seq_min(lossless) - 200) / 100
}

/// The highest grid point, in whole LLR units: two above the highest
/// transcode score, rounded up.
pub open spec fn grid_high(transcode: Seq<i64>) -> int {
    -((-(seq_max(transcode) + 200)) / 100)
}

/// Number of 0.05 steps between the two ends of the grid (none when the
/// highest point lies below the lowest).
pub open spec fn grid_steps(lossless: Seq<i64>, transcode: Seq<i64>) -> int {
    if grid_high(transcode) >= grid_low(lossless) {
        (grid_high(transcode) - grid_low(lossless)) * 20
    } else {
        0
    }
}

/// Candidate threshold `i` of the sweep, in hundredths.
pub open spec fn grid_threshold(lossless: Seq<i64>, i: int) -> int {
    grid_low(lossless) * 100 + 5 * i
}

/// Lossless files convicted (false positives) at candidate `i`.
pub open spec fn fp_at(lossless: Seq<i64>, i: int) -> nat {
    count_at_least(lossless, grid_threshold(lossless, i))
}

/// Transcodes convicted (true positives) at candidate `i`.
pub open spec fn tp_at(lossless: Seq<i64>, transcode: Seq<i64>, i: int) -> nat {
    count_at_least(transcode, grid_threshold(lossless, i))
}

/// Candidate `i` keeps the false-positive rate within 1 %.
pub open spec fn within_fpr_target(lossless: Seq<i64>, i: int) -> bool {
    100 * fp_at(lossless, i) <= lossless.len()
}

/// Misclassified files at candidate `i`.
pub open spec fn errors_at(lossless: Seq<i64>, transcode: Seq<i64>, i: int) -> int {
    fp_at(lossless, i) + (transcode.len() - tp_at(lossless, transcode, i))
}

/// The threshold picked by a calibration and its confusion counts.
#[derive(Debug, Clone, Copy, PartialEq, Eq)]
pub struct ThresholdChoice {
    /// Candidate number in the sweep (0 is the lowest grid point).
    pub step: u64,
    /// The threshold, in hundredths of LLR.
    pub threshold_centi: i128,
    pub false_positives: u64,
    pub true_negatives: u64,
    pub true_positives: u64,
    pub false_negatives: u64,
    /// Whether the false-positive rate is within 1 %; when no candidate
    /// reaches it, the candidate with fewest errors is picked instead.
    pub within_target: bool,
}

/// What a calibration must pick: among the candidates within the 1 % target,
/// the first with the most true positives; when there is none, the first
/// with the fewest errors.
pub open spec fn is_calibration_choice(lossless: Seq<i64>, transcode: Seq<i64>, c: ThresholdChoice) -> bool {
    let n = grid_steps(lossless, transcode);
    let i = c.step as int;
    &&& 0 <= i <= n
    &&& c.threshold_centi == grid_threshold(lossless, i)
    &&& c.false_positives == fp_at(lossless, i)
    &&& c.true_negatives == lossless.len() - fp_at(lossless, i)
    &&& c.true_positives == tp_at(lossless, transcode, i)
    &&& c.false_negatives == transcode.len() - tp_at(lossless, transcode, i)
    &&& c.within_target == (exists|j: int| 0 <= j <= n && within_fpr_target(lossless, j))
    &&& if c.within_target {
        &&& within_fpr_target(lossless, i)
        &&& forall|j: int| 0 <= j <= n && within_fpr_target(lossless, j) ==> tp_at(lossless, transcode, j)
            <= c.true_positives
        &&& forall|j: int| 0 <= j < i && within_fpr_target(lossless, j) ==> tp_at(lossless, transcode, j)
            < c.true_positives
    } else {
        &&& forall|j: int| 0 <= j <= n ==> errors_at(lossless, transcode, j) >= errors_at(lossless, transcode, i)
        &&& forall|j: int| 0 <= j < i ==> errors_at(lossless, transcode, j) > errors_at(lossless, transcode, i)
    }
}

proof fn lemma_count_bound(s: Seq<i64>, t: int)
    ensures
        count_at_least(s, t) <= s.len(),
    decreases s.len(),
{
    if s.len() > 0 {
        lemma_count_bound(s.drop_last(), t);
    }
}

/// How many scores reach the threshold (in hundredths).
pub fn count_at_least_exec(scores: &[i64], threshold: i128) -> (r: u64)
    ensures
        r == count_at_least(scores@, threshold as int),
{
    let mut c: u64 = 0;
    let mut k: usize = 0;
    while k < scores.len()
        invariant
            k <= scores.len(),
            c == count_at_least(scores@.subrange(0, k as int), threshold as int),
            c <= k,
        decreases scores.len() - k,
    {
        proof {
            assert(scores@.subrange(0, k + 1).drop_last() =~= scores@.subrange(0, k as int));
        }
        if scores[k] as i128 >= threshold {
            c = c + 1;
        }
        k = k + 1;
    }
    proof {
        assert(scores@.subrange(0, scores@.len() as int) =~= scores@);
    }
    c
}

fn min_max(s: &[i64]) -> (r: (i64, i64))
    requires
        s@.len() > 0,
    ensures
        r.0 as int == seq_min(s@),
        r.1 as int == seq_max(s@),
{
    let mut lo = s[0];
    let mut hi = s[0];
    let mut k: usize = 1;
    assert(s@.subrange(0, 1) =~= seq![s@[0]]);
    while k < s.len()
        invariant
            1 <= k <= s.len(),
            lo as int == seq_min(s@.subrange(0, k as int)),
            hi as int == seq_max(s@.subrange(0, k as int)),
        decreases s.len() - k,
    {
        proof {
            assert(s@.subrange(0, k + 1).drop_last() =~= s@.subrange(0, k as int));
        }
        if s[k] < lo {
            lo = s[k];
        }
        if s[k] > hi {
            hi = s[k];
        }
        k = k + 1;
    }
    assert(s@.subrange(0, s@.len() as int) =~= s@);
    (lo, hi)
}

fn floor_div_100(x: i128) -> (r: i128)
    requires
        -0x1000_0000_0000_0000_0000 <= x <= 0x1000_0000_0000_0000_0000,
    ensures
        r as int == x as int / 100,
{
    if x >= 0 {
        let q: u128 = (x as u128) / 100;
        q as i128
    } else {
        let p: u128 = (-x) as u128;
        let q: u128 = (p + 99) / 100;
        assert(-(q as int) == x as int / 100) by (nonlinear_arith)
            requires
                x < 0,
                p == -x,
                q == (p + 99) / 100,
        ;
        -(q as i128)
    }
}

/// Sweeps the candidate thresholds of a labelled corpus (scores in
/// hundredths) and picks the conviction threshold: the first candidate with
/// the most transcodes caught among those that convict at most 1 % of the
/// lossless files, or, when none does, the first with the fewest errors.
/// There is nothing to calibrate without files of both classes.
pub fn calibrate_threshold(lossless: &[i64], transcode: &[i64]) -> (r: Option<ThresholdChoice>)
    ensures
        r is Some <==> (lossless@.len() > 0 && transcode@.len() > 0),
        r matches Some(c) ==> is_calibration_choice(lossless@, transcode@, c),
{
    if lossless.len() == 0 || transcode.len() == 0 {
        return None;
    }
    let ghost l = lossless@;
    let ghost t = transcode@;
    let (min_l, _) = min_max(lossless);
    let (_, max_t) = min_max(transcode);
    let low: i128 = floor_div_100(min_l as i128 - 200);
    let high: i128 = -floor_div_100(-(max_t as i128 + 200));
    assert(low as int == grid_low(l));
    assert(high as int == grid_high(t));
    assert(-0x200_0000_0000_0000 <= low <= 0x200_0000_0000_0000) by (nonlinear_arith)
        requires
            low as int == (min_l as int - 200) / 100,
            i64::MIN <= min_l <= i64::MAX,
    ;
    assert(-0x200_0000_0000_0000 <= high <= 0x200_0000_0000_0000) by (nonlinear_arith)
        requires
            high as int == -((-(max_t as int + 200)) / 100),
            i64::MIN <= max_t <= i64::MAX,
    ;
    let steps: u64 = if high >= low {
        assert(0 <= (high - low) * 20 <= 0x5000_0000_0000_0000) by (nonlinear_arith)
            requires
                -0x200_0000_0000_0000 <= low <= high <= 0x200_0000_0000_0000,
        ;
        ((high - low) * 20) as u64
    } else {
        0
    };
    let n_l: u64 = lossless.len() as u64;
    let n_t: u64 = transcode.len() as u64;
    // First pass: the best candidate within the target.
    let mut found = false;
    let mut best: u64 = 0;
    let mut best_tp: u64 = 0;
    let mut i: u64 = 0;
    while i <= steps
        invariant
            steps as int == grid_steps(l, t),
            low as int == grid_low(l),
            -0x200_0000_0000_0000 <= low <= 0x200_0000_0000_0000,
            l == lossless@,
            t == transcode@,
            n_l as int == l.len(),
            i <= steps + 1,
            found == (exists|j: int| 0 <= j < i && within_fpr_target(l, j)),
            found ==> {
                &&& best < i
                &&& within_fpr_target(l, best as int)
                &&& best_tp == tp_at(l, t, best as int)
                &&& forall|j: int| 0 <= j < i && within_fpr_target(l, j) ==> tp_at(l, t, j) <= best_tp
                &&& forall|j: int| 0 <= j < best && within_fpr_target(l, j) ==> tp_at(l, t, j) < best_tp
            },
        decreases steps + 1 - i,
    {
        let thr: i128 = low * 100 + 5 * (i as i128);
        assert(thr as int == grid_threshold(l, i as int));
        let fp = count_at_least_exec(lossless, thr);
        let tp = count_at_least_exec(transcode, thr);
        let ok = 100 * (fp as u128) <= n_l as u128;
        assert(ok == within_fpr_target(l, i as int));
        if ok && (!found || tp > best_tp) {
            best = i;
            best_tp = tp;
            found = true;
        }
        assert(found == (exists|j: int| 0 <= j < i + 1 && within_fpr_target(l, j))) by {
            if within_fpr_target(l, i as int) {
                assert(0 <= i < i + 1 && within_fpr_target(l, i as int));
            }
        }
        i = i + 1;
    }
    if found {
        let thr: i128 = low * 100 + 5 * (best as i128);
        let fp = count_at_least_exec(lossless, thr);
        proof {
            lemma_count_bound(l, thr as int);
            lemma_count_bound(t, thr as int);
        }
        return Some(ThresholdChoice {
            step: best,
            threshold_centi: thr,
            false_positives: fp,
            true_negatives: n_l - fp,
            true_positives: best_tp,
            false_negatives: n_t - best_tp,
            within_target: true,
        });
    }
    // Second pass: the candidate with fewest errors.
    let mut best_err: u128 = u128::MAX;
    let mut best_i: u64 = 0;
    let mut j: u64 = 0;
    while j <= steps
        invariant
            steps as int == grid_steps(l, t),
            low as int == grid_low(l),
            -0x200_0000_0000_0000 <= low <= 0x200_0000_0000_0000,
            l == lossless@,
            t == transcode@,
            n_t as int == t.len(),
            j <= steps + 1,
            j == 0 ==> best_err == u128::MAX,
            j > 0 ==> best_i < j,
            forall|k: int| 0 <= k < j ==> errors_at(l, t, k) >= best_err,
            j > 0 ==> best_err == errors_at(l, t, best_i as int),
            forall|k: int| 0 <= k < best_i ==> errors_at(l, t, k) > best_err,
        decreases steps + 1 - j,
    {
        let thr: i128 = low * 100 + 5 * (j as i128);
        assert(thr as int == grid_threshold(l, j as int));
        let fp = count_at_least_exec(lossless, thr);
        let tp = count_at_least_exec(transcode, thr);
        proof {
            lemma_count_bound(t, thr as int);
        }
        let err: u128 = fp as u128 + (n_t - tp) as u128;
        assert(err as int == errors_at(l, t, j as int));
        assert(err < u128::MAX);
        if err < best_err {
            best_err = err;
            best_i = j;
        }
        j = j + 1;
    }
    let thr: i128 = low * 100 + 5 * (best_i as i128);
    let fp = count_at_least_exec(lossless, thr);
    let tp = count_at_least_exec(transcode, thr);
    proof {
        lemma_count_bound(l, thr as int);
        lemma_count_bound(t, thr as int);
    }
    Some(ThresholdChoice {
        step: best_i,
        threshold_centi: thr,
        false_positives: fp,
        true_negatives: n_l - fp,
        true_positives: tp,
        false_negatives: n_t - tp,
        within_target: false,
    })
}

/// Raising the threshold never convicts more files: along the sweep, both
/// false and true positives can only fall.
pub proof fn law_higher_threshold_convicts_fewer(s: Seq<i64>, t1: int, t2: int)
    requires
        t1 <= t2,
    ensures
        count_at_least(s, t2) <= count_at_least(s, t1),
    decreases s.len(),
{
    if s.len() > 0 {
        law_higher_threshold_convicts_fewer(s.drop_last(), t1, t2);
    }
}

/// Counting the scores that reach a threshold: none among no scores, and
/// one more score adds one exactly when it reaches the threshold.
pub proof fn law_count_reaching_threshold(s: Seq<i64>, x: i64, t: int)
    ensures
        count_at_least(Seq::<i64>::empty(), t) == 0,
        x >= t ==> count_at_least(s.push(x), t) == count_at_least(s, t) + 1,
        x < t ==> count_at_least(s.push(x), t) == count_at_least(s, t),
        count_at_least(s, t) <= s.len(),
{
    assert(s.push(x).drop_last() =~= s);
    lemma_count_bound(s, t);
}

/// A calibration's choice is a threshold of the sweep (a multiple of 0.05
/// LLR above the lowest grid point) whose counts split each class exactly:
/// false positives and true negatives make up the lossless files, true
/// positives and false negatives the transcodes; the false positives are
/// the lossless scores reaching it, the true positives the transcode scores
/// reaching it; and a choice within target convicts at most 1 % of the
/// lossless files, while no candidate of the sweep within target catches
/// more transcodes.
pub proof fn law_calibration_choice(l: Seq<i64>, t: Seq<i64>, c: ThresholdChoice)
    requires
        is_calibration_choice(l, t, c),
    ensures
        c.threshold_centi == grid_low(l) * 100 + 5 * c.step,
        c.false_positives + c.true_negatives == l.len(),
        c.true_positives + c.false_negatives == t.len(),
        c.false_positives == count_at_least(l, c.threshold_centi as int),
        c.true_positives == count_at_least(t, c.threshold_centi as int),
        c.within_target ==> 100 * c.false_positives <= l.len(),
        c.within_target ==> forall|j: int|
            0 <= j <= grid_steps(l, t) && 100 * count_at_least(l, grid_low(l) * 100 + 5 * j) <= l.len()
                ==> #[trigger] count_at_least(t, grid_low(l) * 100 + 5 * j) <= c.true_positives,
{
    lemma_count_bound(l, c.threshold_centi as int);
    lemma_count_bound(t, c.threshold_centi as int);
    if c.within_target {
        assert forall|j: int|
            0 <= j <= grid_steps(l, t) && 100 * count_at_least(l, grid_low(l) * 100 + 5 * j) <= l.len()
                implies #[trigger] count_at_least(t, grid_low(l) * 100 + 5 * j) <= c.true_positives by {
            assert(within_fpr_target(l, j));
        }
    }
}

} // verus!
