use bdja::calibration::{calibrate_threshold, count_at_least_exec, ThresholdChoice};
use bdja::corpus::{
    counts_in_validation, strict_target_passes, MasterStats, Provenance, ValidationTally,
    VariantStats,
};
use bdja::types::Verdict;

#[test]
fn threshold_keeps_false_positives_within_one_percent() {
    let choice = calibrate_threshold(&[-500, -300, -100], &[200, 500, 800]).unwrap();
    assert_eq!(
        choice,
        ThresholdChoice {
            step: 121,
            threshold_centi: -95,
            false_positives: 0,
            true_negatives: 3,
            true_positives: 3,
            false_negatives: 0,
            within_target: true,
        }
    );
}

#[test]
fn without_a_threshold_in_target_the_fewest_errors_win() {
    let c = calibrate_threshold(&[500], &[100]).unwrap();
    assert_eq!((c.step, c.threshold_centi, c.within_target), (0, 300, false));
    assert_eq!((c.false_positives, c.true_negatives, c.true_positives, c.false_negatives), (1, 0, 0, 1));
    let c = calibrate_threshold(&[0, 1000], &[500]).unwrap();
    assert_eq!((c.step, c.threshold_centi, c.within_target), (41, 5, false));
    assert_eq!(c.false_positives + c.false_negatives, 1);
}

#[test]
fn calibration_needs_both_classes() {
    assert_eq!(calibrate_threshold(&[], &[100]), None);
    assert_eq!(calibrate_threshold(&[100], &[]), None);
    assert_eq!(count_at_least_exec(&[1, 5, 5, 9], 5), 3);
    assert_eq!(count_at_least_exec(&[], 0), 0);
}

#[test]
fn variant_recall_counts() {
    let mut v = VariantStats::new();
    v.record(Verdict::ProbableTranscode);
    v.record(Verdict::Suspicious);
    v.record(Verdict::Inconclusive);
    v.record(Verdict::LikelyLossless);
    assert_eq!(v, VariantStats { total: 4, tp_strict: 1, tp_perm: 2, inconclusive: 1 });
}

#[test]
fn master_breakdown_lists_missed_variants() {
    let mut m = MasterStats::new();
    assert!(!m.is_failing());
    m.record_transcode(Verdict::ProbableTranscode, "mp3 128k");
    m.record_lossless(Verdict::LikelyLossless);
    assert!(!m.is_failing());
    m.record_transcode(Verdict::Suspicious, "mp3 320k");
    assert!(m.is_failing());
    assert_eq!(m.missed_variants_strict, vec!["mp3 320k".to_string()]);
    assert!(m.missed_variants_perm.is_empty());
    assert_eq!((m.transcodes_total, m.transcodes_strict_tp, m.transcodes_perm_tp), (2, 1, 2));
    let mut fp = MasterStats::new();
    fp.record_lossless(Verdict::Suspicious);
    assert!(!fp.lossless_ok);
    assert!(fp.is_failing());
}

#[test]
fn audited_provenances_stay_out_of_the_counts() {
    assert!(counts_in_validation(Provenance::Lossless));
    assert!(counts_in_validation(Provenance::Transcode));
    assert!(!counts_in_validation(Provenance::LossyConfirmed));
    assert!(!counts_in_validation(Provenance::ProvenanceUnknown));
}

#[test]
fn production_target_at_the_strict_threshold() {
    let mut t = ValidationTally::new();
    for _ in 0..19 {
        t.record(true, Verdict::ProbableTranscode);
    }
    t.record(true, Verdict::Suspicious);
    for _ in 0..297 {
        t.record(false, Verdict::LosslessVerified);
    }
    t.record(false, Verdict::ProbableTranscode);
    t.record(false, Verdict::LikelyLossless);
    t.record(false, Verdict::LikelyLossless);
    assert!(strict_target_passes(&t));
    t.record(true, Verdict::Inconclusive);
    assert!(!strict_target_passes(&t));
    let mut small = ValidationTally::new();
    small.record(true, Verdict::ProbableTranscode);
    small.record(false, Verdict::LosslessVerified);
    assert!(!strict_target_passes(&small));
}

#[test]
fn raising_the_threshold_convicts_fewer_files() {
    let scores = [-250, -10, 0, 40, 400, 990];
    let mut previous = count_at_least_exec(&scores, -1000);
    assert_eq!(previous, 6);
    let mut t: i128 = -1000;
    while t <= 1000 {
        let now = count_at_least_exec(&scores, t);
        assert!(now <= previous);
        previous = now;
        t += 5;
    }
    assert_eq!(count_at_least_exec(&scores, 1000), 0);
}
