use bdja::evidence::{build_evidence_set, DspMeasures, ForensicFlags};
use bdja::types::{Codec, CutoffKind, EvidenceCode, FormatFacts, Verdict};
use bdja::verdict::evaluate_verdict;

fn measures(kind: CutoffKind, bw: u32, slope_centi: i64) -> DspMeasures {
    DspMeasures {
        spectrum_measured: true,
        cutoff_kind: kind,
        effective_bandwidth_hz: bw,
        cutoff_slope_centi: slope_centi,
        cutoff_slope_text: format!("{:.1}", slope_centi as f64 / 100.0),
        shelf_16k_drop_centi: 0,
        shelf_16k_drop_text: "0.0".to_string(),
        empty_subbands: 0,
        spectral_holes_percent_text: "0.0".to_string(),
        upsampling_detected: false,
        block_grid_peak_centi: 0,
        detected_block_size: None,
        pre_echo_centi: 0,
        pre_echo_text: "0.00".to_string(),
        temporal_variance_centi: 100,
        temporal_variance_text: "1.00".to_string(),
        is_stereo: true,
        joint_stereo_collapse: false,
        joint_stereo_crossover_hz: None,
        high_band_correlation_text: "0.50".to_string(),
        has_exact_digital_silence: false,
        noise_floor_centi: -7000,
        noise_floor_text: "-70.0".to_string(),
        real_bit_depth: 16,
        bit_depth_inflated: false,
        lufs_centi: Some(-1400),
        true_peak_text: "-1.0".to_string(),
        lufs_text: "-14.0".to_string(),
        clipped_samples: 0,
    }
}

fn flags() -> ForensicFlags {
    ForensicFlags {
        has_lossy_encoder_signature: false,
        encoder_tag: None,
        has_dj_metadata: false,
        is_extension_mismatch: false,
    }
}

fn wav(duration_ms: u64, sample_rate: u32) -> FormatFacts {
    FormatFacts {
        container: "WAV".to_string(),
        codec: "PCM 16-bit LE".to_string(),
        codec_type: Codec::PcmS16Le,
        sample_rate,
        bit_depth: Some(16),
        channels: 2,
        duration_ms,
        container_bitrate_kbps: Some(1411),
        is_lossless_declared: true,
    }
}

#[test]
fn catalogue_has_fourteen_evidences_in_order() {
    let set = build_evidence_set(&wav(180000, 44100), &measures(CutoffKind::FullSpectrum, 21000, 1000), &flags());
    let codes: Vec<&str> = set.evidences.iter().map(|e| e.code.code_text()).collect();
    assert_eq!(codes, vec!["E01", "E02", "E03", "E04", "E05", "E06", "E07", "E08", "E09", "E10", "E11", "E12", "E13", "E14"]);
    assert_eq!(set.evidences[0].llr_centi, -180);
    assert_eq!(set.evidences[0].description, "Espectro completo hasta 21000 Hz sin corte artificial");
    assert!(!set.evidences[1].applicable);
    assert!(set.guards.is_empty());
    assert!(!set.is_strong_evidence_present);
}

#[test]
fn brickwall_cut_at_16k_scores_like_128k_mp3() {
    let mut m = measures(CutoffKind::BrickwallCutoff, 16000, 8000);
    m.shelf_16k_drop_centi = 2000;
    m.shelf_16k_drop_text = "20.0".to_string();
    let set = build_evidence_set(&wav(180000, 44100), &m, &flags());
    let e01 = &set.evidences[0];
    assert_eq!(e01.code, EvidenceCode::E01);
    assert_eq!(e01.llr_centi, 220);
    assert_eq!(e01.description, "Corte brusco en 16000 Hz (compatible con MP3 128 kbps)");
    assert_eq!(set.evidences[1].llr_centi, 0);
    assert!(!set.evidences[1].applicable);
    assert_eq!(
        set.evidences[1].description,
        "Corte brick-wall evaluado por E01 (E02 no duplica la evidencia)"
    );
    assert_eq!(set.evidences[3].llr_centi, 0);
    assert!(!set.evidences[3].applicable);
    assert_eq!(
        set.evidences[3].description,
        "No concluyente: la banda analizada está por debajo del corte detectado"
    );
    assert_eq!(set.evidences[2].llr_centi, 120);
    assert_eq!(set.evidences[10].llr_centi, 180);
    assert_eq!(
        set.evidences[10].description,
        "Contenedor lossless (1411 kbps) pero ancho de banda limitado a 16000 Hz (equivalente a 128 kbps)"
    );
}

#[test]
fn gentle_rolloff_raises_the_band_limited_guard() {
    let set = build_evidence_set(&wav(15000, 32000), &measures(CutoffKind::NaturalRolloff, 15000, 1500), &flags());
    assert_eq!(set.evidences[0].llr_centi, 0);
    assert_eq!(
        set.guards,
        vec![
            "Duracion corta (< 20 s): resolucion estadistica limitada".to_string(),
            "Frecuencia de muestreo nativa baja (<= 32 kHz)".to_string(),
            "Material acústico con ancho de banda limitado de origen (roll-off suave < 24 dB/oct, sin firmas de compresión digital)".to_string(),
        ]
    );
    let res = evaluate_verdict(&wav(15000, 32000), &set.evidences, &set.guards, set.is_strong_evidence_present);
    assert_ne!(res.verdict, Verdict::ProbableTranscode);
    assert_ne!(res.verdict, Verdict::Suspicious);
}

#[test]
fn strong_evidence_sources() {
    let mut m = measures(CutoffKind::BrickwallCutoff, 16000, 8000);
    m.empty_subbands = 5;
    m.spectral_holes_percent_text = "15.6".to_string();
    let set = build_evidence_set(&wav(180000, 44100), &m, &flags());
    assert!(set.is_strong_evidence_present);
    assert_eq!(set.evidences[3].llr_centi, 250);
    let mut m2 = measures(CutoffKind::FullSpectrum, 21000, 1000);
    m2.joint_stereo_collapse = true;
    m2.joint_stereo_crossover_hz = Some(15000);
    let set2 = build_evidence_set(&wav(180000, 44100), &m2, &flags());
    assert!(set2.is_strong_evidence_present);
    assert_eq!(set2.evidences[6].description, "Colapso de canales a mono en agudos (> 15000 Hz, firma Intensity Stereo)");
    let mut x = flags();
    x.has_lossy_encoder_signature = true;
    x.encoder_tag = Some("LAME3.100".to_string());
    let set3 = build_evidence_set(&wav(180000, 44100), &measures(CutoffKind::FullSpectrum, 21000, 1000), &x);
    assert!(set3.is_strong_evidence_present);
    assert_eq!(set3.evidences[12].llr_centi, 350);
    assert_eq!(
        set3.evidences[12].description,
        "Cabecera / firma residual de compresión MP3/AAC encontrada en metadata: LAME3.100"
    );
}

#[test]
fn transcode_pipeline_convicts_with_holes_and_cut() {
    let mut m = measures(CutoffKind::BrickwallCutoff, 16000, 8000);
    m.empty_subbands = 6;
    let f = wav(180000, 44100);
    let set = build_evidence_set(&f, &m, &flags());
    let res = evaluate_verdict(&f, &set.evidences, &set.guards, set.is_strong_evidence_present);
    assert_eq!(res.verdict, Verdict::ProbableTranscode);
    assert!(res.summary.contains("Evidencias fuertes: Ancho de banda efectivo, Huecos espectrales"));
}

#[test]
fn mono_file_skips_stereo_evidence() {
    let mut m = measures(CutoffKind::FullSpectrum, 21000, 1000);
    m.is_stereo = false;
    let set = build_evidence_set(&wav(180000, 44100), &m, &flags());
    assert!(!set.evidences[6].applicable);
    assert_eq!(set.evidences[6].description, "No aplicable (audio monofonico)");
    assert_eq!(set.evidences[9].applicable, false);
}

fn get(set: &bdja::evidence::EvidenceSet, code: EvidenceCode) -> &bdja::verdict::Evidence {
    set.evidences.iter().find(|e| e.code == code).unwrap()
}

#[test]
fn block_grid_is_not_counted_over_a_full_spectrum() {
    let mut m = measures(CutoffKind::FullSpectrum, 21900, 500);
    m.detected_block_size = Some(576);
    m.block_grid_peak_centi = 22;
    let f = wav(10000, 44100);
    let set = build_evidence_set(&f, &m, &flags());
    let e05 = get(&set, EvidenceCode::E05);
    assert!(!e05.applicable);
    assert_eq!(e05.llr_centi, 0);
    assert_eq!(e05.description, "No concluyente: no hay corte que acompañe una rejilla de compresión");
    let res = evaluate_verdict(&f, &set.evidences, &set.guards, set.is_strong_evidence_present);
    assert_ne!(res.verdict, Verdict::Inconclusive);
    let mut m2 = measures(CutoffKind::BrickwallCutoff, 16000, 9000);
    m2.detected_block_size = Some(576);
    m2.block_grid_peak_centi = 22;
    let set2 = build_evidence_set(&f, &m2, &flags());
    let g = get(&set2, EvidenceCode::E05);
    assert_eq!(g.llr_centi, 100);
    assert_eq!(g.description, "Estructura de tramas MDCT detectada: periodicidad de 576 muestras (\"MP3\")");
}

#[test]
fn slope_evidence_follows_the_measured_slope_of_a_natural_rolloff() {
    let f = wav(180000, 44100);
    let cases = [(8670, 150, "Pendiente vertical brick-wall de 86.7 dB/oct (filtro digital de encoder)"),
        (1800, -100, "Roll-off suave de 18.0 dB/oct compatible con acustica natural"),
        (3000, 0, "Roll-off moderado de 30.0 dB/oct"),
        (5000, 80, "Pendiente pronunciada de 50.0 dB/oct")];
    for (slope, llr, text) in cases {
        let set = build_evidence_set(&f, &measures(CutoffKind::NaturalRolloff, 18798, slope), &flags());
        let e02 = get(&set, EvidenceCode::E02);
        assert!(e02.applicable);
        assert_eq!(e02.llr_centi, llr);
        assert_eq!(e02.description, text);
    }
    let set = build_evidence_set(&f, &measures(CutoffKind::BrickwallCutoff, 19000, 9500), &flags());
    let e02 = get(&set, EvidenceCode::E02);
    assert!(!e02.applicable);
    assert_eq!(e02.llr_centi, 0);
}

#[test]
fn bandwidth_bands_are_fractions_of_nyquist() {
    let f = wav(180000, 44100);
    let cases = [(16290, 220), (19251, 160), (19633, 140), (19950, 140), (20440, 140), (20731, 120)];
    for (bw, llr) in cases {
        let set = build_evidence_set(&f, &measures(CutoffKind::BrickwallCutoff, bw, 9000), &flags());
        assert_eq!(get(&set, EvidenceCode::E01).llr_centi, llr, "bandwidth {}", bw);
        assert_eq!(get(&set, EvidenceCode::E11).llr_centi, 180);
    }
    let set = build_evidence_set(&f, &measures(CutoffKind::BrickwallCutoff, 20731, 9000), &flags());
    assert_eq!(
        get(&set, EvidenceCode::E01).description,
        "Corte vertical en 20731 Hz (compatible con MP3 320 kbps)"
    );
    assert_eq!(
        get(&set, EvidenceCode::E11).description,
        "Contenedor lossless (1411 kbps) pero con corte artificial en 20731 Hz"
    );
    let res = evaluate_verdict(&f, &set.evidences, &set.guards, set.is_strong_evidence_present);
    assert!(res.score_centi >= 270);
    assert!(res.verdict == Verdict::Suspicious || res.verdict == Verdict::ProbableTranscode);
}

fn flac_96k() -> FormatFacts {
    FormatFacts {
        container: "FLAC".to_string(),
        codec: "FLAC 24-bit".to_string(),
        codec_type: Codec::Flac,
        sample_rate: 96000,
        bit_depth: Some(24),
        channels: 2,
        duration_ms: 240000,
        container_bitrate_kbps: Some(2800),
        is_lossless_declared: true,
    }
}

#[test]
fn resampled_96k_master_is_not_accused_as_transcode() {
    let f = flac_96k();
    let mut m = measures(CutoffKind::BrickwallCutoff, 21700, 9000);
    m.upsampling_detected = true;
    let set = build_evidence_set(&f, &m, &flags());
    let e01 = get(&set, EvidenceCode::E01);
    assert_eq!(e01.llr_centi, 0);
    assert_eq!(
        e01.description,
        "Corte en 21700 Hz compatible con remuestreo desde 44.1/48 kHz (no indica compresión con pérdida)"
    );
    assert_eq!(get(&set, EvidenceCode::E11).llr_centi, 0);
    assert_eq!(get(&set, EvidenceCode::E10).llr_centi, 200);
    let res = evaluate_verdict(&f, &set.evidences, &set.guards, set.is_strong_evidence_present);
    assert_ne!(res.verdict, Verdict::ProbableTranscode);
}

#[test]
fn mp3_128_resampled_to_96k_is_convicted() {
    let f = flac_96k();
    let m = measures(CutoffKind::BrickwallCutoff, 16000, 9000);
    let mut x = flags();
    x.has_lossy_encoder_signature = true;
    x.encoder_tag = Some("LAME3.99r".to_string());
    let set = build_evidence_set(&f, &m, &x);
    assert!(get(&set, EvidenceCode::E01).llr_centi >= 150);
    assert!(set.guards.is_empty());
    let res = evaluate_verdict(&f, &set.evidences, &set.guards, set.is_strong_evidence_present);
    assert_eq!(res.verdict, Verdict::ProbableTranscode);
}

#[test]
fn nothing_measured_never_exonerates() {
    let f = wav(180000, 44100);
    let mut m = measures(CutoffKind::FullSpectrum, 22050, 0);
    m.spectrum_measured = false;
    m.noise_floor_centi = -9000;
    m.noise_floor_text = "-90.0".to_string();
    m.lufs_centi = None;
    let set = build_evidence_set(&f, &m, &flags());
    assert!(set.evidences.iter().all(|e| e.llr_centi >= 0));
    for code in [EvidenceCode::E01, EvidenceCode::E02, EvidenceCode::E04, EvidenceCode::E08] {
        let e = get(&set, code);
        assert!(!e.applicable);
        assert_eq!(e.description, "No concluyente: sin contenido medible en las ventanas analizadas");
    }
    let res = evaluate_verdict(&f, &set.evidences, &set.guards, set.is_strong_evidence_present);
    assert_eq!(res.verdict, Verdict::Inconclusive);
}

#[test]
fn noise_floor_below_a_cut_does_not_exonerate() {
    let f = wav(180000, 44100);
    let mut m = measures(CutoffKind::BrickwallCutoff, 19500, 9000);
    m.noise_floor_centi = -9000;
    m.noise_floor_text = "-90.0".to_string();
    let set = build_evidence_set(&f, &m, &flags());
    let e08 = get(&set, EvidenceCode::E08);
    assert!(!e08.applicable);
    assert_eq!(e08.llr_centi, 0);
    let set2 = build_evidence_set(&f, &measures(CutoffKind::FullSpectrum, 21500, 900), &flags());
    let mut m3 = measures(CutoffKind::FullSpectrum, 21500, 900);
    m3.noise_floor_centi = -9000;
    m3.noise_floor_text = "-90.0".to_string();
    let set3 = build_evidence_set(&f, &m3, &flags());
    assert_eq!(get(&set2, EvidenceCode::E08).llr_centi, 0);
    assert_eq!(get(&set3, EvidenceCode::E08).llr_centi, -80);
    assert_eq!(get(&set3, EvidenceCode::E04).llr_centi, -140);
}

#[test]
fn dark_mix_natural_rolloff_is_exonerated_with_guard() {
    let f = wav(180000, 44100);
    let set = build_evidence_set(&f, &measures(CutoffKind::NaturalRolloff, 4920, 1200), &flags());
    let e01 = get(&set, EvidenceCode::E01);
    assert_eq!(e01.llr_centi, 0);
    assert!(set.guards.iter().any(|g| g.contains("ancho de banda limitado")));
}
