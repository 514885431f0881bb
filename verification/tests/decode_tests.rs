use bdja::decode::{
    analysis_windows, padded_window,
    build_format_facts, check_duration, check_file_size, classify_decoder_init_failure,
    classify_probe_failure, container_bitrate_kbps, duration_ms, window_starts, DecodeError,
    StreamFailure, MAX_DURATION_MS, MAX_FILE_BYTES, TARGET_SEGMENTS, WINDOW_SIZE_FINE,
};
use bdja::error::BdjaError;
use bdja::signal::{assemble_decoded, SamplePools, CHANNEL_POOL_SAMPLES, MONO_POOL_SAMPLES};
use bdja::scan::{
    cache_lookup_key, failed_decode_report, panic_recovered_report, unanalysed_facts, describe_decode_failure, is_audio_file, is_supported_extension,
    panic_recovered_texts, scan_thread_count, threads_for_mode, CacheKey,
};
use bdja::types::{Codec, ENGINE_REV};

#[test]
fn size_limits_of_the_decoder() {
    assert_eq!(check_file_size(0), Err(DecodeError::ZeroLength));
    assert_eq!(check_file_size(1), Ok(()));
    assert_eq!(check_file_size(MAX_FILE_BYTES), Ok(()));
    assert_eq!(check_file_size(MAX_FILE_BYTES + 1), Err(DecodeError::FileTooLarge(2147483649)));
    assert_eq!(check_duration(MAX_DURATION_MS), Ok(()));
    assert_eq!(check_duration(10800001), Err(DecodeError::DurationExceeded(10800001)));
}

#[test]
fn duration_and_bitrate_arithmetic() {
    assert_eq!(duration_ms(44100 * 180, 44100), 180000);
    assert_eq!(duration_ms(100, 0), 0);
    assert_eq!(duration_ms(0, 48000), 0);
    assert_eq!(duration_ms(1, 3), 333);
    assert_eq!(duration_ms(u64::MAX, 1), u64::MAX);
    assert_eq!(container_bitrate_kbps(31752000, 180000), Some(1411));
    assert_eq!(container_bitrate_kbps(1000, 0), None);
}

#[test]
fn format_facts_from_a_stream() {
    let f = build_format_facts("FLAC".to_string(), Codec::Flac, Some(96000), Some(2), Some(24), Some(96000 * 60), 40_000_000);
    assert_eq!(f.codec, "FLAC");
    assert_eq!(f.duration_ms, 60000);
    assert_eq!(f.container_bitrate_kbps, Some(5333));
    assert!(f.is_lossless_declared);
    let d = build_format_facts("MP3".to_string(), Codec::Mp3, None, None, None, None, 5000);
    assert_eq!(d.sample_rate, 44100);
    assert_eq!(d.channels, 2);
    assert_eq!(d.duration_ms, 0);
    assert_eq!(d.container_bitrate_kbps, None);
    assert!(!d.is_lossless_declared);
    assert_eq!(d.codec, "MP3 (MPEG Audio Layer III)");
}

#[test]
fn probe_failures_are_classified() {
    assert_eq!(
        classify_probe_failure(StreamFailure::Unsupported("core (probe): no suitable format reader found".to_string())),
        DecodeError::UnrecognizedFormat("core (probe): no suitable format reader found".to_string())
    );
    assert_eq!(
        classify_probe_failure(StreamFailure::Unsupported("unsupported format".to_string())),
        DecodeError::UnrecognizedFormat("unsupported format".to_string())
    );
    assert_eq!(
        classify_probe_failure(StreamFailure::Unsupported("wav: unsupported wave format".to_string())),
        DecodeError::Unsupported("wav: unsupported wave format".to_string())
    );
    assert_eq!(classify_probe_failure(StreamFailure::Io("eof".to_string())), DecodeError::Io("eof".to_string()));
    assert_eq!(
        classify_probe_failure(StreamFailure::Malformed("bad riff".to_string())),
        DecodeError::CorruptedHeader("bad riff".to_string())
    );
    assert_eq!(
        classify_decoder_init_failure(StreamFailure::Unsupported("codec".to_string())),
        DecodeError::Unsupported("codec".to_string())
    );
    assert_eq!(
        classify_decoder_init_failure(StreamFailure::Malformed("x".to_string())),
        DecodeError::DecoderInit("x".to_string())
    );
}

#[test]
fn windows_spread_over_the_pool() {
    assert_eq!(window_starts(100, 10, 3), vec![0, 30, 60]);
    assert_eq!(window_starts(5, 10, 3), Vec::<usize>::new());
    let starts = window_starts(1_000_000, WINDOW_SIZE_FINE, TARGET_SEGMENTS);
    assert_eq!(starts.len(), 12);
    assert!(starts.iter().all(|s| s + WINDOW_SIZE_FINE <= 1_000_000));
}

#[test]
fn error_messages() {
    assert_eq!(DecodeError::ZeroLength.message(), "Archivo vacio o de longitud cero");
    assert_eq!(
        DecodeError::DurationExceeded(10800001).message(),
        "Duracion excede el limite maximo de 3 horas (10800001 ms)"
    );
    assert_eq!(BdjaError::Cancelled.message(), "Operacion cancelada por el usuario");
    assert_eq!(BdjaError::Io("x".to_string()).message(), "Error de E/S: x");
}

#[test]
fn audio_extensions_of_a_scan() {
    assert!(is_supported_extension("flac"));
    assert!(!is_supported_extension("FLAC"));
    assert!(is_audio_file(Some("FLAC")));
    assert!(is_audio_file(Some("m4a")));
    assert!(!is_audio_file(Some("txt")));
    for ext in ["opus", "wv", "ape", "tta", "dsf", "mka", "m4b", "OPUS", "Wv"] {
        assert!(is_audio_file(Some(ext)), "{} enters the inventory", ext);
    }
    assert!(!is_audio_file(None));
}

#[test]
fn worker_counts_per_throttle_mode() {
    assert_eq!(threads_for_mode("turbo", 12), 12);
    assert_eq!(threads_for_mode("turbo", 0), 1);
    assert_eq!(threads_for_mode("silent", 12), 1);
    assert_eq!(threads_for_mode("normal", 12), 6);
    assert_eq!(threads_for_mode("normal", 2), 2);
    assert_eq!(threads_for_mode("normal", 64), 8);
    assert_eq!(scan_thread_count("SILENT"), 1);
    assert!(scan_thread_count("Turbo") >= 1);
}

#[test]
fn undecodable_file_report_texts() {
    let r = describe_decode_failure(&DecodeError::Unsupported("wave format".to_string()), Some("Wav"));
    assert_eq!(r.container, "WAV");
    assert_eq!(r.codec, "No soportado (wav)");
    assert_eq!(r.guard, "Formato de audio no soportado actualmente por el motor (wav)");
    assert_eq!(
        r.summary,
        "Formato de audio (WAV) reconocido en la biblioteca pero no soportado por el decodificador: wave format"
    );
    let r = describe_decode_failure(&DecodeError::FileTooLarge(3000000000), None);
    assert_eq!(r.container, "UNKNOWN");
    assert_eq!(r.guard, "Archivo excede el límite máximo de 2 GB (3000000000 bytes)");
    let r = describe_decode_failure(&DecodeError::Io("denied".to_string()), Some("flac"));
    assert_eq!(r.codec, "Error/I-O");
    assert_eq!(r.summary, "No se pudo leer el archivo de audio (error de I/O): denied");
    let (g, s) = panic_recovered_texts("boom");
    assert_eq!(g, "Pánico capturado: boom");
    assert_eq!(s, "Error crítico evitado al procesar el archivo: boom");
}

#[test]
fn test_engine_rev_cache_invalidation() {
    // A report stored by the previous engine revision.
    let stored = CacheKey {
        path: "/music/track1.flac".to_string(),
        file_size: 1024,
        mtime_utc: 0,
        engine_rev: 1,
    };
    assert_eq!(ENGINE_REV, 2);
    let key = cache_lookup_key("/music/track1.flac", false, true, Some((1024, 0))).unwrap();
    assert_eq!(key.engine_rev, ENGINE_REV);
    assert_ne!(key, stored, "the current revision never reuses a report of revision 1");
    let under_v1 = CacheKey { engine_rev: 1, ..key.clone() };
    assert_eq!(under_v1, stored, "Fila con engine_rev = 1 existe");
    assert!(cache_lookup_key("/music/track1.flac", true, true, Some((1024, 0))).is_none());
    assert!(cache_lookup_key("/music/track1.flac", false, false, Some((1024, 0))).is_none());
    assert!(cache_lookup_key("/music/track1.flac", false, true, None).is_none());
}

#[test]
fn analysis_windows_are_copies_of_the_pool_at_the_planned_starts() {
    let pool: Vec<i32> = (0..100).collect();
    let w = analysis_windows(&pool, 10, 4);
    assert_eq!(w.len(), 4);
    // step = (100 - 10) / 4 = 22
    assert_eq!(w[0], (0..10).collect::<Vec<i32>>());
    assert_eq!(w[1], (22..32).collect::<Vec<i32>>());
    assert_eq!(w[3], (66..76).collect::<Vec<i32>>());
    assert!(analysis_windows(&pool, 101, 4).is_empty());
    let fine: Vec<f32> = vec![0.5; 20000];
    let ws = analysis_windows(&fine, WINDOW_SIZE_FINE, TARGET_SEGMENTS);
    assert_eq!(ws.len(), 12);
    assert!(ws.iter().all(|x| x.len() == 8192));
}

#[test]
fn short_pool_is_padded_to_one_window() {
    let p = padded_window(&vec![1.0f32, 2.0, 3.0], 6, 0.0);
    assert_eq!(p, vec![1.0, 2.0, 3.0, 0.0, 0.0, 0.0]);
}

#[test]
fn pools_keep_frames_up_to_their_capacity() {
    let mut p: SamplePools<i32> = SamplePools::new();
    for i in 0..(MONO_POOL_SAMPLES as i32 + 10) {
        p.push_frame(i, -i, 2 * i);
    }
    assert_eq!(p.mono.len(), MONO_POOL_SAMPLES);
    assert_eq!(p.left.len(), CHANNEL_POOL_SAMPLES);
    assert_eq!(p.right.len(), CHANNEL_POOL_SAMPLES);
    assert_eq!(p.mono[5], 5);
    assert_eq!(p.left[7], -7);
    assert_eq!(p.right[CHANNEL_POOL_SAMPLES - 1], 2 * (CHANNEL_POOL_SAMPLES as i32 - 1));
}

fn forensic_of(magic: &str) -> bdja::forensic::ForensicEvidence {
    bdja::forensic::ForensicEvidence {
        has_xing_lame_header: false,
        has_lossy_encoder_signature: false,
        encoder_string: None,
        is_extension_mismatch: false,
        has_dj_metadata: false,
        declared_extension: "wav".to_string(),
        detected_magic_type: magic.to_string(),
        descriptions: Vec::new(),
    }
}

#[test]
fn decoded_signal_has_the_planned_shape() {
    let facts = build_format_facts("WAV".to_string(), Codec::PcmS16Le, Some(44100), Some(2), Some(16), Some(441000), 1_764_044);
    let mut p: SamplePools<f32> = SamplePools::new();
    for i in 0..300000 {
        let x = if i < 100000 { 0.0 } else { 0.25 };
        p.push_frame(x, x, x);
    }
    let plan = analysis_windows(&p.mono, WINDOW_SIZE_FINE, TARGET_SEGMENTS);
    let keep: Vec<bool> = plan.iter().map(|w| w.iter().any(|s| *s != 0.0)).collect();
    let kept = keep.iter().filter(|k| **k).count();
    let d = assemble_decoded(facts, forensic_of("WAV"), p, keep, 0.0f32);
    assert_eq!(d.windows_8192.len(), kept);
    assert!(kept > 0 && kept < 12);
    assert!(d.windows_8192.iter().all(|w| w.len() == 8192 && w.iter().all(|s| *s == 0.25)));
    assert_eq!(d.windows_1024.len(), 32);
    assert!(d.windows_1024.iter().all(|w| w.len() == 1024));
    assert_eq!(d.left_channel_samples.len(), 131072);
    assert_eq!(d.right_channel_samples.len(), 131072);
    assert_eq!(d.facts.container, d.forensic.detected_magic_type);
    assert_eq!(d.sample_rate, 44100);
    assert_eq!(d.channels, 2);

    let short_facts = build_format_facts("WAV".to_string(), Codec::PcmS16Le, Some(44100), Some(1), Some(16), Some(100), 244);
    let mut q: SamplePools<f32> = SamplePools::new();
    for _ in 0..100 {
        q.push_frame(0.5, 0.5, 0.5);
    }
    let s = assemble_decoded(short_facts, forensic_of("WAV"), q, Vec::new(), 0.0f32);
    assert_eq!(s.windows_8192.len(), 1);
    assert_eq!(s.windows_8192[0].len(), 8192);
    assert_eq!(s.windows_8192[0][99], 0.5);
    assert_eq!(s.windows_8192[0][100], 0.0);
    assert!(s.windows_1024.is_empty());
}

#[test]
fn undecodable_and_panicked_files_abstain() {
    let failure = describe_decode_failure(&DecodeError::Unsupported("x".to_string()), Some("wma"));
    let expected_guard = failure.guard.clone();
    let r = failed_decode_report("/m/a.wma", 77, failure);
    assert_eq!(r.verdict, bdja::types::Verdict::Inconclusive);
    assert_eq!(r.score_centi, 0);
    assert_eq!(r.path, "/m/a.wma");
    assert_eq!(r.file_size, 77);
    assert_eq!(r.engine_rev, ENGINE_REV);
    assert_eq!(r.facts.container, "WMA");
    assert_eq!(r.facts.codec_type, Codec::Unknown);
    assert!(!r.facts.is_lossless_declared);
    assert_eq!((r.facts.sample_rate, r.facts.channels, r.facts.duration_ms), (0, 0, 0));
    assert!(r.evidences.is_empty());
    assert_eq!(r.guards, vec![expected_guard]);
    assert_eq!(r.cutoff_kind, None);
    let p = panic_recovered_report("/m/b.wav", 5, "boom");
    assert_eq!(p.facts.container, "CORRUPTED");
    assert_eq!(p.facts.codec, "PANIC_RECOVERED");
    assert_eq!(p.guards, vec!["Pánico capturado: boom".to_string()]);
    assert_eq!(p.summary, "Error crítico evitado al procesar el archivo: boom");
    let f = unanalysed_facts("A".to_string(), "B".to_string());
    assert_eq!((f.container.as_str(), f.codec.as_str(), f.bit_depth, f.container_bitrate_kbps), ("A", "B", None, None));
}
