use bdja::forensic::{
    analyze_forensic_headers, detect_magic_type, find_subsequence, find_subsequence_pos,
    has_extension_mismatch, inspect_forensic_bytes, trim_space_ends, xing_window_is_readable,
};

fn wav_header(len: usize) -> Vec<u8> {
    let mut header = vec![0u8; len];
    header[0..4].copy_from_slice(b"RIFF");
    header[8..12].copy_from_slice(b"WAVE");
    header
}

#[test]
fn test_forensic_lavf_ffmpeg_is_not_lossy_signature() {
    let mut header = wav_header(1024);
    let lavf_str = b"Lavf58.76.100";
    header[100..100 + lavf_str.len()].copy_from_slice(lavf_str);

    let evidence = analyze_forensic_headers("wav", header.len() as u64, &header, None);
    assert_eq!(evidence.detected_magic_type, "WAV (RIFF)");
    assert_eq!(evidence.encoder_string.as_deref(), Some("Lavf58.76.100"));
    assert!(!evidence.has_lossy_encoder_signature);
    assert!(!evidence.has_xing_lame_header);
}

#[test]
fn test_forensic_id3_in_wav_dj_metadata_not_transcode() {
    let mut header = wav_header(1024);
    header[64..68].copy_from_slice(b"id3 ");

    let evidence = analyze_forensic_headers("wav", header.len() as u64, &header, None);
    assert_eq!(evidence.detected_magic_type, "WAV (RIFF)");
    assert!(evidence.has_dj_metadata);
    assert!(!evidence.has_lossy_encoder_signature);
    assert!(!evidence.has_xing_lame_header);
}

#[test]
fn test_forensic_detects_real_lame_transcode() {
    let mut header = wav_header(2048);
    header[200..204].copy_from_slice(b"Xing");
    header[320..329].copy_from_slice(b"LAME3.100");

    let evidence = analyze_forensic_headers("wav", header.len() as u64, &header, None);
    assert!(evidence.has_lossy_encoder_signature);
    assert!(evidence.has_xing_lame_header);
    assert_eq!(evidence.encoder_string.as_deref(), Some("LAME3.100"));
}

#[test]
fn lame_tag_descriptions_follow_the_findings() {
    let mut header = wav_header(2048);
    header[200..204].copy_from_slice(b"Xing");
    header[320..329].copy_from_slice(b"LAME3.100");
    let evidence = analyze_forensic_headers("WAV", header.len() as u64, &header, None);
    assert_eq!(evidence.declared_extension, "wav");
    assert_eq!(
        evidence.descriptions,
        vec![
            "Cabecera Xing/Info residual de trama MP3 detectada".to_string(),
            "Firma de encoder MP3 residual: LAME3.100".to_string(),
        ]
    );
}

#[test]
fn mp3_bytes_behind_a_wav_extension_are_a_mismatch() {
    let mut header = vec![0u8; 600];
    header[0..3].copy_from_slice(b"ID3");
    let evidence = analyze_forensic_headers("Wav", header.len() as u64, &header, None);
    assert_eq!(evidence.detected_magic_type, "MP3");
    assert!(evidence.is_extension_mismatch);
    assert_eq!(
        evidence.descriptions[0],
        "Discrepancia crítica de extensión: declarada .wav pero el contenedor binario real es MP3"
    );
    assert!(has_extension_mismatch("flac", &header));
    assert!(!has_extension_mismatch("mp3", &header));
}

#[test]
fn short_files_are_not_inspected() {
    let header = b"ID3 short".to_vec();
    let evidence = analyze_forensic_headers("MP3", header.len() as u64, &header, None);
    assert_eq!(evidence.declared_extension, "mp3");
    assert_eq!(evidence.detected_magic_type, "");
    assert!(evidence.descriptions.is_empty());
    assert!(!evidence.is_extension_mismatch);
}

#[test]
fn trailing_lame_tag_is_found_in_the_tail() {
    let header = {
        let mut h = vec![0u8; 4096];
        h[0..4].copy_from_slice(b"fLaC");
        h
    };
    let mut tail = vec![0u8; 4096];
    tail[4000..4009].copy_from_slice(b"LAME3.99r");
    let evidence = inspect_forensic_bytes("flac", 10_000_000, &header, Some(&tail));
    assert_eq!(evidence.detected_magic_type, "FLAC");
    assert!(evidence.has_xing_lame_header);
    assert!(evidence.has_lossy_encoder_signature);
    assert_eq!(evidence.encoder_string.as_deref(), Some("LAME3.99r"));
    assert_eq!(
        evidence.descriptions,
        vec!["Firma LAME residual al final del archivo: LAME3.99r".to_string()]
    );
}

#[test]
fn magic_types_of_each_container() {
    let mut aiff = vec![0u8; 64];
    aiff[0..4].copy_from_slice(b"FORM");
    aiff[8..12].copy_from_slice(b"AIFC");
    assert_eq!(detect_magic_type(&aiff), "AIFF");
    let mut mp4 = vec![0u8; 64];
    mp4[4..8].copy_from_slice(b"ftyp");
    assert_eq!(detect_magic_type(&mp4), "MP4 / AAC");
    let mut ogg = vec![0u8; 64];
    ogg[0..4].copy_from_slice(b"OggS");
    assert_eq!(detect_magic_type(&ogg), "OGG");
    let mut sync = vec![0u8; 64];
    sync[0] = 0xFF;
    sync[1] = 0xFB;
    assert_eq!(detect_magic_type(&sync), "MP3");
    assert_eq!(detect_magic_type(&[0u8; 64]), "UNKNOWN");
}

#[test]
fn subsequence_search_finds_the_first_occurrence() {
    let hay = b"abcXingdefXing";
    assert_eq!(find_subsequence_pos(hay, b"Xing"), Some(3));
    assert_eq!(find_subsequence_pos(hay, b"Info"), None);
    assert_eq!(find_subsequence_pos(b"ab", b"abc"), None);
    assert!(find_subsequence(hay, b"def"));
    assert!(!find_subsequence(hay, b"xyz"));
}

#[test]
fn lavf_tag_is_cut_at_the_first_unprintable_byte_and_trimmed() {
    let mut header = wav_header(256);
    header[50..62].copy_from_slice(b"Lavf60.3.100");
    header[62] = 0x01;
    let evidence = analyze_forensic_headers("wav", 256, &header, None);
    assert_eq!(evidence.encoder_string.as_deref(), Some("Lavf60.3.100"));
    assert_eq!(evidence.descriptions, vec!["Software de exportación: Lavf60.3.100".to_string()]);
    assert_eq!(trim_space_ends("  Lavf  "), "Lavf");
}

#[test]
fn xing_window_readability() {
    let mut ok = vec![0u8; 400];
    ok[10..14].copy_from_slice(b"Xing");
    assert!(xing_window_is_readable(&ok));
    let mut cut = vec![0u8; 150];
    cut[0..4].copy_from_slice(b"Info");
    assert!(!xing_window_is_readable(&cut));
    let mut near_end = vec![0u8; 100];
    near_end[0..4].copy_from_slice(b"Info");
    assert!(xing_window_is_readable(&near_end));
}
