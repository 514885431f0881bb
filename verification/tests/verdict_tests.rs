use bdja::types::{Codec, EvidenceCode, FormatFacts, Verdict};
use bdja::verdict::{
    classify_score, collect_strong_labels, confidence_bounds, evaluate_verdict, sum_applicable_llr,
    Evidence,
};

fn facts(container: &str, codec: &str, codec_type: Codec, bit_depth: Option<u16>, duration_ms: u64,
         bitrate: u32, lossless: bool) -> FormatFacts {
    FormatFacts {
        container: container.to_string(),
        codec: codec.to_string(),
        codec_type,
        sample_rate: 44100,
        bit_depth,
        channels: 2,
        duration_ms,
        container_bitrate_kbps: Some(bitrate),
        is_lossless_declared: lossless,
    }
}

fn ev(code: EvidenceCode, llr_centi: i64, applicable: bool, description: &str) -> Evidence {
    Evidence { code, llr_centi, applicable, description: description.to_string() }
}

fn wav_facts(duration_ms: u64) -> FormatFacts {
    facts("WAV", "PCM 16-bit LE", Codec::PcmS16Le, Some(16), duration_ms, 1411, true)
}

#[test]
fn test_declared_lossy() {
    let facts = facts("MP3", "MP3 Layer III", Codec::Mp3, None, 180000, 320, false);
    let res = evaluate_verdict(&facts, &[], &[], false);
    assert_eq!(res.verdict, Verdict::DeclaredLossy);
}

#[test]
fn test_clean_lossless() {
    let facts = wav_facts(240000);
    let evidences = vec![
        ev(EvidenceCode::E01, -180, true, "Full bandwidth"),
        ev(EvidenceCode::E02, -120, true, "Gentle rolloff"),
        ev(EvidenceCode::E04, -140, true, "No holes"),
    ];
    let res = evaluate_verdict(&facts, &evidences, &[], false);
    assert_eq!(res.verdict, Verdict::LosslessVerified);
    assert!(res.score_centi <= -400);
}

#[test]
fn test_transcode_requires_strong_evidence() {
    let facts = wav_facts(180000);
    let evidences_weak = vec![
        ev(EvidenceCode::E01, 220, true, "Low bandwidth"),
        ev(EvidenceCode::E02, 200, true, "Steep cutoff"),
    ];
    let res_weak = evaluate_verdict(&facts, &evidences_weak, &[], false);
    assert_eq!(res_weak.verdict, Verdict::Suspicious);

    let mut evidences_strong = evidences_weak.clone();
    evidences_strong.push(ev(EvidenceCode::E04, 250, true, "Spectral holes detected"));
    let res_strong = evaluate_verdict(&facts, &evidences_strong, &[], true);
    assert_eq!(res_strong.verdict, Verdict::ProbableTranscode);
}

#[test]
fn test_guards_prevent_conviction() {
    let facts = wav_facts(12000);
    let evidences = vec![ev(EvidenceCode::E01, 220, true, "Cutoff")];
    let guards = vec!["Audio muy corto (< 20s)".to_string()];
    let res = evaluate_verdict(&facts, &evidences, &guards, false);
    assert_eq!(res.verdict, Verdict::Inconclusive);
}

#[test]
fn declared_lossy_summary_names_the_codec() {
    let f = facts("MP3", "MP3 Layer III", Codec::Mp3, None, 180000, 320, false);
    let evs = vec![ev(EvidenceCode::E04, 900, true, "holes")];
    let res = evaluate_verdict(&f, &evs, &[], true);
    assert_eq!(res.verdict, Verdict::DeclaredLossy);
    assert_eq!(res.score_centi, 0);
    assert_eq!(res.summary, "MP3 Layer III. Formato con perdida declarado; contenedor y codec legitimos.");
}

#[test]
fn conviction_summary_names_strong_evidences_in_order() {
    let f = wav_facts(180000);
    let evs = vec![
        ev(EvidenceCode::E07, 250, true, "stereo"),
        ev(EvidenceCode::E01, 220, true, "cut"),
        ev(EvidenceCode::E04, 250, true, "holes"),
        ev(EvidenceCode::E13, 100, true, "weak tag"),
    ];
    let res = evaluate_verdict(&f, &evs, &[], true);
    assert_eq!(res.verdict, Verdict::ProbableTranscode);
    assert_eq!(res.score_centi, 820);
    let labels = collect_strong_labels(&evs);
    assert_eq!(labels, vec!["Colapso de joint-stereo", "Ancho de banda efectivo", "Huecos espectrales"]);
    assert_eq!(
        res.summary,
        "Evidencia solida compatible con transcode de fuente con perdida. Evidencias fuertes: \
         Colapso de joint-stereo, Ancho de banda efectivo, Huecos espectrales."
    );
}

#[test]
fn guard_is_quoted_in_inconclusive_summary() {
    let f = wav_facts(12000);
    let guards = vec!["Silencio".to_string(), "Otro".to_string()];
    let res = evaluate_verdict(&f, &[ev(EvidenceCode::E01, 300, true, "x")], &guards, false);
    assert_eq!(res.verdict, Verdict::Inconclusive);
    assert_eq!(
        res.summary,
        "Inconcluso: Se activaron salvaguardas (Silencio). Ante duda, el sistema se abstiene de acusar."
    );
}

#[test]
fn inapplicable_evidence_does_not_count() {
    let evs = vec![
        ev(EvidenceCode::E01, 220, true, "a"),
        ev(EvidenceCode::E02, 5000, false, "b"),
        ev(EvidenceCode::E03, -30, true, "c"),
    ];
    assert_eq!(sum_applicable_llr(&evs), 190);
    let f = wav_facts(180000);
    let with = evaluate_verdict(&f, &evs, &[], false);
    let without = evaluate_verdict(&f, &[evs[0].clone(), evs[2].clone()], &[], false);
    assert_eq!(with.verdict, without.verdict);
    assert_eq!(with.score_centi, without.score_centi);
    assert_eq!(with.verdict, Verdict::Suspicious);
}

#[test]
fn score_bands_at_their_edges() {
    assert_eq!(classify_score(-400, false, false), Verdict::LosslessVerified);
    assert_eq!(classify_score(-399, false, false), Verdict::LikelyLossless);
    assert_eq!(classify_score(-150, true, false), Verdict::LikelyLossless);
    assert_eq!(classify_score(-149, false, false), Verdict::Inconclusive);
    assert_eq!(classify_score(149, false, true), Verdict::Inconclusive);
    assert_eq!(classify_score(150, false, false), Verdict::Suspicious);
    assert_eq!(classify_score(399, false, true), Verdict::Suspicious);
    assert_eq!(classify_score(400, false, true), Verdict::ProbableTranscode);
    assert_eq!(classify_score(400, false, false), Verdict::Suspicious);
    assert_eq!(classify_score(900, true, true), Verdict::Suspicious);
    assert_eq!(classify_score(900, true, false), Verdict::Inconclusive);
}

#[test]
fn raising_the_score_never_lowers_the_verdict() {
    let rank = |v: Verdict| match v {
        Verdict::LosslessVerified => 0,
        Verdict::LikelyLossless => 1,
        Verdict::Inconclusive => 2,
        Verdict::Suspicious => 3,
        Verdict::ProbableTranscode => 4,
        Verdict::DeclaredLossy => 5,
    };
    for g in [false, true] {
        for s in [false, true] {
            let mut prev = rank(classify_score(-1000, g, s));
            let mut score: i128 = -1000;
            while score <= 1000 {
                let r = rank(classify_score(score, g, s));
                assert!(r >= prev);
                prev = r;
                score += 10;
            }
        }
    }
}

#[test]
fn confidence_bands_of_each_verdict() {
    assert_eq!(confidence_bounds(Verdict::DeclaredLossy), (99, 99));
    assert_eq!(confidence_bounds(Verdict::ProbableTranscode), (85, 99));
    assert_eq!(confidence_bounds(Verdict::LosslessVerified), (85, 99));
    assert_eq!(confidence_bounds(Verdict::LikelyLossless), (70, 85));
    assert_eq!(confidence_bounds(Verdict::Suspicious), (65, 84));
    assert_eq!(confidence_bounds(Verdict::Inconclusive), (50, 65));
}

#[test]
fn verdict_and_codec_names() {
    assert_eq!(Verdict::ProbableTranscode.display_name(), "Probable transcode");
    assert_eq!(Verdict::DeclaredLossy.display_name(), "Con pérdida declarado");
    assert_eq!(
        Verdict::Inconclusive.default_description(),
        "No hay información suficiente para determinarlo con confianza."
    );
    assert_eq!(Codec::Flac.display_name(), "FLAC");
    assert_eq!(Codec::Unknown.display_name(), "Códec desconocido");
    assert!(Codec::WavPack.is_lossless());
    assert!(Codec::PcmU8.is_lossless());
    assert!(!Codec::Opus.is_lossless());
    assert!(!Codec::Unknown.is_lossless());
}

#[test]
fn strong_codes_of_the_catalogue() {
    for (code, strong) in [
        (EvidenceCode::E01, true),
        (EvidenceCode::E04, true),
        (EvidenceCode::E05, false),
        (EvidenceCode::E07, true),
        (EvidenceCode::E13, true),
        (EvidenceCode::E02, false),
        (EvidenceCode::E14, false),
    ] {
        assert_eq!(code.is_strong(), strong);
    }
    assert!(!EvidenceCode::E04.label().is_empty());
    assert_eq!(EvidenceCode::E09.code_text(), "E09");
}

#[test]
fn an_accusing_evidence_never_makes_the_verdict_milder() {
    let f = wav_facts(180000);
    let base = vec![ev(EvidenceCode::E01, -180, true, "a"), ev(EvidenceCode::E04, -140, true, "b")];
    let before = evaluate_verdict(&f, &base, &[], false);
    assert_eq!(before.verdict, Verdict::LikelyLossless);
    let mut more = base.clone();
    more.push(ev(EvidenceCode::E03, 200, true, "c"));
    let after = evaluate_verdict(&f, &more, &[], false);
    assert_eq!(after.verdict, Verdict::Inconclusive);
    assert_eq!(after.score_centi, -120);
}
