use bdja::corpus::{
    classify_corpus_path, classify_label, describe_dirs_corpus, describe_target_corpus, is_cleared,
    parse_corpus_args, parse_manifest_line, variant_key, variant_label, CorpusSource, Provenance,
    ValidationTally,
};
use bdja::corpus::tally_run;
use bdja::text::trim_text;
use bdja::types::Verdict;

fn args(list: &[&str]) -> Vec<String> {
    list.iter().map(|s| s.to_string()).collect()
}

#[test]
fn corpus_from_two_folders() {
    let a = parse_corpus_args(&args(&["--lossless-dir", "L", "--sweep-drop", "--transcode-dir", "T"])).unwrap();
    assert_eq!(a.source, CorpusSource::Dirs { lossless_dir: "L".to_string(), transcode_dir: "T".to_string() });
    assert!(a.sweep_drop);
}

#[test]
fn corpus_from_manifest_or_positional() {
    let a = parse_corpus_args(&args(&["first", "--manifest", "m.csv"])).unwrap();
    assert_eq!(a.source, CorpusSource::Target("m.csv".to_string()));
    assert!(!a.sweep_drop);
    let b = parse_corpus_args(&args(&["--other", "corpus_dir", "second"])).unwrap();
    assert_eq!(b.source, CorpusSource::Target("corpus_dir".to_string()));
}

#[test]
fn corpus_argument_errors() {
    assert_eq!(
        parse_corpus_args(&args(&["--lossless-dir"])),
        Err("Falta la ruta para --lossless-dir".to_string())
    );
    assert_eq!(
        parse_corpus_args(&args(&["--lossless-dir", "L"])),
        Err("Debe especificar ambos: --lossless-dir <dir> y --transcode-dir <dir>".to_string())
    );
    assert_eq!(
        parse_corpus_args(&args(&["--sweep-drop"])),
        Err("Debe especificar un corpus: '--lossless-dir <dir> --transcode-dir <dir>', '--manifest <csv>' o una ruta posicional.".to_string())
    );
}

#[test]
fn manifest_labels_and_paths() {
    assert_eq!(classify_label("lossy_confirmed"), Provenance::LossyConfirmed);
    assert_eq!(classify_label("provenance_unknown"), Provenance::ProvenanceUnknown);
    assert_eq!(classify_label("mp3_320_transcode"), Provenance::Transcode);
    assert_eq!(classify_label("1"), Provenance::Transcode);
    assert_eq!(classify_label("lossless"), Provenance::Lossless);
    assert_eq!(classify_label("0"), Provenance::Lossless);
    assert_eq!(classify_corpus_path("/c/fake_master.flac"), Some(Provenance::Transcode));
    assert_eq!(classify_corpus_path("/c/genuine/a.flac"), Some(Provenance::Lossless));
    assert_eq!(classify_corpus_path("/c/other/a.flac"), None);
}

#[test]
fn manifest_lines() {
    assert_eq!(parse_manifest_line(0, "path,label"), None);
    assert_eq!(parse_manifest_line(3, "  # comment"), None);
    assert_eq!(parse_manifest_line(3, "   "), None);
    assert_eq!(parse_manifest_line(3, "lonely"), None);
    let row = parse_manifest_line(1, " \"a b.flac\" ; TRANSCODE ; mp3 ; 320k ; ; master1 ").unwrap();
    assert_eq!(row.path, "a b.flac");
    assert_eq!(row.provenance, Provenance::Transcode);
    assert_eq!(row.codec_origen.as_deref(), Some("mp3"));
    assert_eq!(row.bitrate.as_deref(), Some("320k"));
    assert_eq!(row.variant_id, None);
    assert_eq!(row.master_source.as_deref(), Some("master1"));
    let row = parse_manifest_line(0, "x.wav,lossless").unwrap();
    assert_eq!(row.provenance, Provenance::Lossless);
    assert_eq!(row.codec_origen, None);
}

#[test]
fn validation_tally_at_both_thresholds() {
    let mut t = ValidationTally::new();
    t.record(true, Verdict::ProbableTranscode);
    t.record(true, Verdict::Suspicious);
    t.record(true, Verdict::Inconclusive);
    t.record(false, Verdict::Suspicious);
    t.record(false, Verdict::LosslessVerified);
    t.record_decode_error();
    assert_eq!((t.tp_strict, t.fn_strict, t.tn_strict, t.fp_strict), (1, 2, 2, 0));
    assert_eq!((t.tp_perm, t.fn_perm, t.tn_perm, t.fp_perm), (2, 1, 1, 1));
    assert_eq!(t.inconclusive, 2);
    assert!(t.tp_strict <= t.tp_perm && t.fp_strict <= t.fp_perm);
    assert!(is_cleared(Verdict::LikelyLossless));
    assert!(!is_cleared(Verdict::Inconclusive));
}

#[test]
fn variant_keys_and_labels() {
    let s = |x: &str| Some(x.to_string());
    assert_eq!(variant_key(&s("mp3"), &s("320k"), &s("v1")), "mp3 320k");
    assert_eq!(variant_key(&s("mp3"), &None, &s("v1")), "mp3");
    assert_eq!(variant_key(&None, &s("128k"), &None), "128k");
    assert_eq!(variant_key(&None, &None, &None), "");
    assert_eq!(variant_label(&s("mp3"), &None, &s("v1")), "v1");
    assert_eq!(variant_label(&None, &None, &None), "transcode");
}

#[test]
fn corpus_descriptions() {
    assert_eq!(
        describe_dirs_corpus("L", 3, "T", 12),
        "Carpetas independientes (Lossless: 'L' [3 pistas], Transcode: 'T' [12 pistas])"
    );
    assert_eq!(describe_target_corpus("m.csv"), "Corpus: 'm.csv'");
}

#[test]
fn manifest_rows_of_a_mixed_manifest() {
    let content = "path,label\na.wav,lossy_confirmed\nb.wav;MP3_320\nc.wav,lossless_flag\n# x\nd.wav,provenance_unknown\n";
    let rows: Vec<_> = content
        .lines()
        .enumerate()
        .filter_map(|(i, l)| parse_manifest_line(i, l))
        .collect();
    assert_eq!(rows.len(), 4);
    let got: Vec<(&str, Provenance)> = rows.iter().map(|r| (r.path.as_str(), r.provenance.clone())).collect();
    assert_eq!(
        got,
        vec![
            ("a.wav", Provenance::LossyConfirmed),
            ("b.wav", Provenance::Transcode),
            ("c.wav", Provenance::Lossless),
            ("d.wav", Provenance::ProvenanceUnknown),
        ]
    );
    assert!(rows.iter().all(|r| r.codec_origen.is_none() && r.bitrate.is_none()
        && r.variant_id.is_none() && r.master_source.is_none()));
}

#[test]
fn trimming_removes_unicode_white_space_only() {
    assert_eq!(trim_text("\u{3000}\t tok \u{a0}\u{2029}"), "tok");
    assert_eq!(trim_text("\u{85}\u{1680}\u{2000}\u{200a}\u{202f}\u{205f}"), "");
    assert_eq!(trim_text("\u{200b}x\u{200b}"), "\u{200b}x\u{200b}");
    assert_eq!(trim_text("a b"), "a b");
    assert_eq!(trim_text("x".trim()), "x");
    for s in [" a ", "\n\r\x0b\x0c a\u{3000}", "", "  "] {
        assert_eq!(trim_text(s), s.trim());
    }
}

fn outcome(p: Provenance, verdict: Option<Verdict>) -> bdja::corpus::SampleOutcome {
    bdja::corpus::SampleOutcome { provenance: p, is_transcode: p == Provenance::Transcode, verdict }
}

#[test]
fn set_aside_samples_never_change_the_counts() {
    let base = vec![
        outcome(Provenance::Transcode, Some(Verdict::ProbableTranscode)),
        outcome(Provenance::Transcode, Some(Verdict::Suspicious)),
        outcome(Provenance::Lossless, Some(Verdict::LikelyLossless)),
        outcome(Provenance::Lossless, Some(Verdict::Suspicious)),
        outcome(Provenance::Transcode, Some(Verdict::Inconclusive)),
    ];
    let mut with_extra = base.clone();
    with_extra.insert(1, outcome(Provenance::LossyConfirmed, Some(Verdict::ProbableTranscode)));
    with_extra.push(outcome(Provenance::ProvenanceUnknown, Some(Verdict::LosslessVerified)));
    with_extra.push(outcome(Provenance::ProvenanceUnknown, Some(Verdict::Inconclusive)));
    let a = tally_run(&base);
    let b = tally_run(&with_extra);
    assert_eq!((a.tp_strict, a.fn_strict, a.tn_strict, a.fp_strict), (1, 2, 2, 0));
    assert_eq!((a.tp_perm, a.fn_perm, a.tn_perm, a.fp_perm), (2, 1, 1, 1));
    assert_eq!(a.inconclusive, 1);
    assert_eq!(a, b);
    // A set-aside file that could not be decoded is still counted as inconclusive.
    let mut with_error = base.clone();
    with_error.push(outcome(Provenance::LossyConfirmed, None));
    let c = tally_run(&with_error);
    assert_eq!(c.inconclusive, 2);
    assert_eq!((c.tp_strict, c.fp_perm), (1, 1));
}
