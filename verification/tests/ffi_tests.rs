use bdja::ffi::{
    diagnostics, engine_init, engine_revision, export_reports_csv, export_reports_json,
    format_facts_to_ffi, list_system_volumes, missing_path_message, require_initialized,
    next_export_offset, store_unavailable_message, ExportOutcome, EXPORT_REPORT_LIMIT,
};
use bdja::types::{Codec, FormatFacts, VolumeInfo, ENGINE_REV};
use bdja::volumes::{drive_roots, DriveProbe, DRIVE_CDROM, DRIVE_REMOTE, DRIVE_REMOVABLE};

#[test]
fn engine_start_needs_a_token() {
    assert_eq!(
        engine_init("   ".to_string(), "/data".to_string()),
        Err("Token de capacidad requerido para inicializar el motor".to_string())
    );
    let info = engine_init(" tok ".to_string(), "/data".to_string()).unwrap();
    assert_eq!(info.revision, 2);
    assert_eq!(info.data_dir, "/data");
    assert_eq!(info.status, "Motor BDJ Audio Analyzer Inicializado y Autenticado");
    assert_eq!(engine_revision(), ENGINE_REV);
}

#[test]
fn diagnostics_line() {
    assert_eq!(
        diagnostics(true),
        Ok("BDJ Studio Audio Analyzer Engine v1.0.0 (Rev 2). Initialized: true".to_string())
    );
    assert_eq!(
        diagnostics(false),
        Ok("BDJ Studio Audio Analyzer Engine v1.0.0 (Rev 2). Initialized: false".to_string())
    );
}

#[test]
fn entry_points_refuse_before_start() {
    assert_eq!(require_initialized(true, false), Ok(()));
    assert_eq!(require_initialized(false, false), Err("El motor no ha sido inicializado".to_string()));
    assert_eq!(
        require_initialized(false, true),
        Err("El motor no ha sido inicializado con un token de capacidad valido".to_string())
    );
    assert_eq!(store_unavailable_message(), "Base de datos no disponible");
    assert_eq!(missing_path_message("/x"), "La ruta no existe: /x");
}

#[test]
fn export_answers() {
    assert_eq!(export_reports_csv(ExportOutcome::StoreMissing), Err("Base de datos no disponible".to_string()));
    assert_eq!(export_reports_csv(ExportOutcome::ListingFailed("locked".to_string())), Err("locked".to_string()));
    assert_eq!(
        export_reports_csv(ExportOutcome::WriteFailed("denied".to_string())),
        Err("Error al exportar CSV: denied".to_string())
    );
    assert_eq!(
        export_reports_json(ExportOutcome::WriteFailed("full".to_string())),
        Err("Error al exportar JSON: full".to_string())
    );
    assert_eq!(export_reports_json(ExportOutcome::Written), Ok(true));
}

#[test]
fn facts_record_for_the_interface() {
    let f = FormatFacts {
        container: "FLAC".to_string(),
        codec: "FLAC".to_string(),
        codec_type: Codec::Flac,
        sample_rate: 48000,
        bit_depth: Some(24),
        channels: 2,
        duration_ms: 1000,
        container_bitrate_kbps: Some(900),
        is_lossless_declared: true,
    };
    let r = format_facts_to_ffi(&f);
    assert_eq!(r.container, "FLAC");
    assert_eq!(r.sample_rate, 48000);
    assert_eq!(r.bit_depth, Some(24));
    assert_eq!(r.container_bitrate_kbps, Some(900));
    assert!(r.is_lossless_declared);
}

fn wide(s: &str) -> Vec<u16> {
    s.encode_utf16().collect()
}

#[test]
fn drive_strings_are_split_at_zero_units() {
    let mut buf = vec![0u16; 16];
    let text: Vec<u16> = wide("C:\\\0D:\\\0");
    buf[..text.len()].copy_from_slice(&text);
    let roots = drive_roots(&buf, text.len() as u32);
    assert_eq!(roots, vec![wide("C:\\"), wide("D:\\")]);
    assert!(drive_roots(&buf, 0).is_empty());
    assert!(drive_roots(&buf, 17).is_empty());
    let unterminated = wide("E:\\");
    assert!(drive_roots(&unterminated, 3).is_empty());
}

fn probe(path: &str, drive_type: u32, volume: Option<(&str, &str)>) -> DriveProbe {
    DriveProbe {
        path: path.to_string(),
        drive_type,
        volume: volume.map(|(l, f)| (l.to_string(), f.to_string())),
        free_bytes: 10,
        total_bytes: 100,
    }
}

#[test]
fn volumes_listed_from_probes() {
    let probes = vec![
        probe("C:\\", 3, Some(("Sistema", "NTFS"))),
        probe("D:\\", DRIVE_CDROM, Some(("DVD", "CDFS"))),
        probe("E:\\", DRIVE_REMOVABLE, Some(("", "FAT32"))),
        probe("Z:\\", DRIVE_REMOTE, None),
        probe("Y:\\", 3, None),
    ];
    let v = bdja::volumes::list_system_volumes(probes);
    assert_eq!(v.len(), 4);
    assert_eq!((v[0].id, v[0].label.as_str(), v[0].fs_type.as_str(), v[0].is_ready), (0, "Sistema", "NTFS", true));
    assert_eq!((v[1].id, v[1].path.as_str(), v[1].label.as_str(), v[1].is_removable), (1, "E:\\", "Unidad USB", true));
    assert_eq!((v[2].label.as_str(), v[2].fs_type.as_str(), v[2].is_ready), ("Disco Local", "Red", false));
    assert_eq!(v[3].fs_type, "Desconocido");
    assert_eq!((v[3].total_bytes, v[3].free_bytes), (100, 10));
    assert!(bdja::volumes::list_system_volumes(Vec::new()).is_empty());
}

#[test]
fn volume_records_for_the_interface() {
    let vols = vec![VolumeInfo {
        id: 4,
        path: "C:\\".to_string(),
        label: "Disco Local".to_string(),
        fs_type: "NTFS".to_string(),
        is_removable: false,
        is_ready: true,
        total_bytes: 9,
        free_bytes: 1,
    }];
    let out = list_system_volumes(vols).unwrap();
    assert_eq!(out.len(), 1);
    assert_eq!((out[0].id, out[0].path.as_str(), out[0].fs_type.as_str()), (4, "C:\\", "NTFS"));
}

#[test]
fn export_reads_pages_until_a_short_one() {
    assert_eq!(next_export_offset(0, EXPORT_REPORT_LIMIT, EXPORT_REPORT_LIMIT), Some(EXPORT_REPORT_LIMIT));
    assert_eq!(next_export_offset(EXPORT_REPORT_LIMIT, 5, EXPORT_REPORT_LIMIT), None);
    assert_eq!(next_export_offset(0, 0, EXPORT_REPORT_LIMIT), None);
    assert_eq!(next_export_offset(usize::MAX, 3, 3), None);
    // A store of 250 reports read in pages of 100: three pages, every report once.
    let total = 250usize;
    let mut offset = 0usize;
    let mut read = 0usize;
    loop {
        let page = (total - offset).min(100);
        read += page;
        match next_export_offset(offset, page, 100) {
            Some(o) => offset = o,
            None => break,
        }
    }
    assert_eq!(read, total);
}
