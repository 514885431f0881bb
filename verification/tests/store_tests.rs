use bdja::store::{
    build_count_query, build_list_query, codec_code, content_fingerprint, csv_escape_quotes,
    csv_header, cutoff_code, escape_like, parse_codec_type, parse_cutoff_kind, parse_verdict,
    schema_plan, select_fields, verdict_code, SchemaStep, FINGERPRINT_BYTES, SCHEMA_VERSION,
};
use bdja::types::{Codec, CutoffKind, Verdict};

#[test]
fn verdict_codes_read_back() {
    for v in [
        Verdict::LosslessVerified,
        Verdict::LikelyLossless,
        Verdict::Inconclusive,
        Verdict::Suspicious,
        Verdict::ProbableTranscode,
        Verdict::DeclaredLossy,
    ] {
        assert_eq!(parse_verdict(verdict_code(v)), v);
    }
    assert_eq!(verdict_code(Verdict::Suspicious), "Suspicious");
    assert_eq!(parse_verdict("garbage"), Verdict::DeclaredLossy);
}

#[test]
fn codec_codes_read_back_for_the_stored_subset() {
    for c in [
        Codec::PcmS16Le,
        Codec::PcmS24Le,
        Codec::PcmS32Le,
        Codec::PcmF32Le,
        Codec::Flac,
        Codec::Alac,
        Codec::Mp3,
        Codec::Aac,
        Codec::Vorbis,
        Codec::Opus,
        Codec::Unknown,
    ] {
        assert_eq!(parse_codec_type(codec_code(c)), c);
    }
    assert_eq!(codec_code(Codec::WavPack), "WavPack");
    assert_eq!(parse_codec_type("WavPack"), Codec::Unknown);
    assert_eq!(parse_codec_type("flac"), Codec::Unknown);
}

#[test]
fn cutoff_kinds_read_back() {
    for k in [CutoffKind::BrickwallCutoff, CutoffKind::FullSpectrum, CutoffKind::NaturalRolloff] {
        assert_eq!(parse_cutoff_kind(cutoff_code(k)), Some(k));
    }
    assert_eq!(cutoff_code(CutoffKind::NaturalRolloff), "NaturalRolloff");
    assert_eq!(parse_cutoff_kind(""), None);
}

#[test]
fn like_escaping_of_search_text() {
    assert_eq!(escape_like("100%_a\\b"), "100\\%\\_a\\\\b");
    assert_eq!(escape_like("plain"), "plain");
    assert_eq!(escape_like(""), "");
}

#[test]
fn listing_query_with_both_filters() {
    let q = build_list_query(Some("Suspicious"), Some("50%"));
    assert_eq!(
        q.sql,
        format!(
            "SELECT {} FROM file_report WHERE 1=1 AND verdict = ? AND path LIKE ? ESCAPE '\\' ORDER BY id DESC LIMIT ? OFFSET ?",
            select_fields()
        )
    );
    assert_eq!(q.text_params, vec!["Suspicious".to_string(), "%50\\%%".to_string()]);
}

#[test]
fn all_and_empty_filters_do_not_restrict() {
    let q = build_count_query(Some("ALL"), Some(""));
    assert_eq!(q.sql, "SELECT COUNT(*) FROM file_report WHERE 1=1");
    assert!(q.text_params.is_empty());
    let q = build_count_query(None, Some("track"));
    assert_eq!(q.sql, "SELECT COUNT(*) FROM file_report WHERE 1=1 AND path LIKE ? ESCAPE '\\'");
    assert_eq!(q.text_params, vec!["%track%".to_string()]);
    let q = build_list_query(Some(""), None);
    assert!(q.text_params.is_empty());
    assert!(q.sql.ends_with("WHERE 1=1 ORDER BY id DESC LIMIT ? OFFSET ?"));
}

#[test]
fn fresh_database_is_created_at_the_current_version() {
    assert_eq!(SCHEMA_VERSION, 3);
    assert_eq!(schema_plan(0, false), vec![SchemaStep::CreateFresh]);
}

#[test]
fn older_databases_migrate_step_by_step() {
    assert_eq!(schema_plan(1, true), vec![SchemaStep::AddV2Columns, SchemaStep::AddV3Column]);
    assert_eq!(schema_plan(0, true), vec![SchemaStep::AddV2Columns, SchemaStep::AddV3Column]);
    assert_eq!(schema_plan(2, true), vec![SchemaStep::AddV3Column]);
    assert!(schema_plan(3, true).is_empty());
}

#[test]
fn fingerprint_covers_the_first_64_kib() {
    let small = b"abc".to_vec();
    let f = content_fingerprint(&small);
    assert_eq!(f.len(), 64);
    assert_eq!(f, blake3::hash(b"abc").to_hex().to_string());
    let mut big = vec![7u8; FINGERPRINT_BYTES + 100];
    let f_big = content_fingerprint(&big);
    big.truncate(FINGERPRINT_BYTES);
    assert_eq!(f_big, content_fingerprint(&big));
    assert_ne!(f_big, f);
    assert!(f.chars().all(|c| c.is_ascii_hexdigit() && !c.is_ascii_uppercase()));
}

#[test]
fn csv_quotes_are_doubled() {
    assert_eq!(csv_escape_quotes("a\"b\"\"c"), "a\"\"b\"\"\"\"c");
    assert_eq!(csv_escape_quotes("none"), "none");
    assert!(csv_header().starts_with("ID,Ruta,Tamano_Bytes,"));
    assert!(csv_header().ends_with(",CorrelacionEstereo,Resumen"));
}
