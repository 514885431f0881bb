//! The engine's interface towards the user interface: the records it hands
//! over and the checks and messages of its entry points.
use vstd::prelude::*;
use crate::types::{FormatFacts, VolumeInfo, ENGINE_REV};
use crate::text::{decimal_text, trim_text, trimmed_text, u64_to_text};

verus! {

/// Engine information handed to the interface.
#[derive(Debug, Clone, PartialEq, Eq)]
pub struct EngineInfoFfi {
    pub revision: u32,
    pub data_dir: String,
    pub status: String,
}

/// A storage unit as handed to the interface.
#[derive(Debug, Clone, PartialEq, Eq)]
pub struct VolumeInfoFfi {
    pub id: u8,
    pub path: String,
    pub label: String,
    pub fs_type: String,
    pub is_removable: bool,
    pub is_ready: bool,
    pub total_bytes: u64,
    pub free_bytes: u64,
}

/// Format facts as handed to the interface.
#[derive(Debug, Clone, PartialEq, Eq)]
pub struct FormatFactsFfi {
    pub container: String,
    pub codec: String,
    pub sample_rate: u32,
    pub bit_depth: Option<u16>,
    pub channels: u16,
    pub duration_ms: u64,
    pub container_bitrate_kbps: Option<u32>,
    pub is_lossless_declared: bool,
}

/// Revision of the native engine.
pub fn engine_revision() -> (r: u32)
    ensures
        r == ENGINE_REV,
{
    ENGINE_REV
}

/// Starts the engine: a capability token that is empty once trimmed is
/// refused; otherwise the engine reports its revision, its data directory
/// and that it is initialised. Opening the report store is the caller's part.
pub fn engine_init(capability_token: String, data_dir: String) -> (r: Result<EngineInfoFfi, String>)
    ensures
        trimmed_text(capability_token@).len() == 0 ==> (r matches Err(m)
            && m@ == "Token de capacidad requerido para inicializar el motor"@),
        trimmed_text(capability_token@).len() > 0 ==> (r matches Ok(info) && info.revision
            == ENGINE_REV && info.data_dir@ == data_dir@ && info.status@
            == "Motor BDJ Audio Analyzer Inicializado y Autenticado"@),
{
    let trimmed = trim_text(capability_token.as_str());
    if trimmed.unicode_len() == 0 {
        return Err(String::from_str("Token de capacidad requerido para inicializar el motor"));
    }
    Ok(EngineInfoFfi {
        revision: ENGINE_REV,
        data_dir,
        status: String::from_str("Motor BDJ Audio Analyzer Inicializado y Autenticado"),
    })
}

pub open spec fn volume_ffi_matches(v: VolumeInfo, f: VolumeInfoFfi) -> bool {
    &&& f.id == v.id
    &&& f.path@ == v.path@
    &&& f.label@ == v.label@
    &&& f.fs_type@ == v.fs_type@
    &&& f.is_removable == v.is_removable
    &&& f.is_ready == v.is_ready
    &&& f.total_bytes == v.total_bytes
    &&& f.free_bytes == v.free_bytes
}

/// The system's storage units, in the order the system listed them, as
/// interface records; listing them never fails.
pub fn list_system_volumes(volumes: Vec<VolumeInfo>) -> (r: Result<Vec<VolumeInfoFfi>, String>)
    ensures
        r matches Ok(out) && out@.len() == volumes@.len() && forall|i: int|
            0 <= i < volumes@.len() ==> volume_ffi_matches(volumes@[i], #[trigger] out@[i]),
{
    let mut out: Vec<VolumeInfoFfi> = Vec::new();
    let mut i: usize = 0;
    while i < volumes.len()
        invariant
            i <= volumes.len(),
            out@.len() == i,
            forall|k: int| 0 <= k < i ==> volume_ffi_matches(volumes@[k], #[trigger] out@[k]),
        decreases volumes.len() - i,
    {
        let v = &volumes[i];
        out.push(
            VolumeInfoFfi {
                id: v.id,
                path: String::from_str(v.path.as_str()),
                label: String::from_str(v.label.as_str()),
                fs_type: String::from_str(v.fs_type.as_str()),
                is_removable: v.is_removable,
                is_ready: v.is_ready,
                total_bytes: v.total_bytes,
                free_bytes: v.free_bytes,
            },
        );
        i = i + 1;
    }
    Ok(out)
}

/// The interface record of format facts: every field but the codec kind.
pub fn format_facts_to_ffi(facts: &FormatFacts) -> (r: FormatFactsFfi)
    ensures
        r.container@ == facts.container@,
        r.codec@ == facts.codec@,
        r.sample_rate == facts.sample_rate,
        r.bit_depth == facts.bit_depth,
        r.channels == facts.channels,
        r.duration_ms == facts.duration_ms,
        r.container_bitrate_kbps == facts.container_bitrate_kbps,
        r.is_lossless_declared == facts.is_lossless_declared,
{
    FormatFactsFfi {
        container: String::from_str(facts.container.as_str()),
        codec: String::from_str(facts.codec.as_str()),
        sample_rate: facts.sample_rate,
        bit_depth: facts.bit_depth,
        channels: facts.channels,
        duration_ms: facts.duration_ms,
        container_bitrate_kbps: facts.container_bitrate_kbps,
        is_lossless_declared: facts.is_lossless_declared,
    }
}

pub open spec fn diagnostics_spec(initialized: bool) -> Seq<char> {
    "BDJ Studio Audio Analyzer Engine v1.0.0 (Rev "@ + decimal_text(ENGINE_REV as nat)
        + "). Initialized: "@ + (if initialized {
        "true"@
    } else {
        "false"@
    })
}

/// Internal diagnostics line of the engine, given whether it was initialised.
pub fn diagnostics(initialized: bool) -> (r: Result<String, String>)
    ensures
        r matches Ok(s) && s@ == diagnostics_spec(initialized),
{
    let mut s = String::from_str("BDJ Studio Audio Analyzer Engine v1.0.0 (Rev ");
    let rev = u64_to_text(ENGINE_REV as u64);
    s.append(rev.as_str());
    s.append("). Initialized: ");
    if initialized {
        s.append("true");
    } else {
        s.append("false");
    }
    Ok(s)
}

/// The refusal of an analysis entry point before the engine was started.
pub fn require_initialized(initialized: bool, detailed: bool) -> (r: Result<(), String>)
    ensures
        initialized ==> r is Ok,
        !initialized && detailed ==> (r matches Err(m)
            && m@ == "El motor no ha sido inicializado con un token de capacidad valido"@),
        !initialized && !detailed ==> (r matches Err(m) && m@ == "El motor no ha sido inicializado"@),
{
    if initialized {
        Ok(())
    } else if detailed {
        Err(String::from_str("El motor no ha sido inicializado con un token de capacidad valido"))
    } else {
        Err(String::from_str("El motor no ha sido inicializado"))
    }
}

/// Message of an entry point that needs the report store when none is open.
pub fn store_unavailable_message() -> (r: String)
    ensures
        r@ == "Base de datos no disponible"@,
{
    String::from_str("Base de datos no disponible")
}

/// Message of a scan asked on a path that does not exist.
pub fn missing_path_message(path: &str) -> (r: String)
    ensures
        r@ == "La ruta no existe: "@ + path@,
{
    let mut s = String::from_str("La ruta no existe: ");
    s.append(path);
    s
}

/// Reports an export reads from the store per page.
pub const EXPORT_REPORT_LIMIT: usize = 100000;

/// Where the next page of an export starts, after a page of `page_len`
/// reports read at `offset` with pages of `limit` reports: nowhere once a
/// page comes back short (the store holds no more), else right after the
/// page (nowhere too if that offset does not fit in a `usize`).
pub fn next_export_offset(offset: usize, page_len: usize, limit: usize) -> (r: Option<usize>)
    ensures
        page_len < limit ==> r is None,
        page_len >= limit && offset + page_len <= usize::MAX ==> r == Some((offset + page_len) as usize),
        offset + page_len > usize::MAX ==> r is None,
{
    if page_len < limit {
        None
    } else {
        offset.checked_add(page_len)
    }
}

/// Reports a store holding `total` reports returns for a page of `limit`
/// reports read at `offset`.
pub open spec fn page_len_spec(total: nat, limit: nat, offset: nat) -> nat {
    if offset >= total {
        0
    } else if total - offset < limit {
        (total - offset) as nat
    } else {
        limit
    }
}

/// Reports an export reads from `offset` on, page after page, stopping at
/// the first short page.
pub open spec fn export_read_spec(total: nat, limit: nat, offset: nat) -> nat
    decreases total - offset,
{
    let page = page_len_spec(total, limit, offset);
    if limit == 0 || page < limit {
        page
    } else {
        page + export_read_spec(total, limit, offset + page)
    }
}

/// An export read page by page, each next page starting where
/// `next_export_offset` says, reads every report of the store exactly once.
pub proof fn law_paged_export_reads_every_report(total: nat, limit: nat, offset: nat)
    requires
        limit > 0,
        offset <= total,
    ensures
        export_read_spec(total, limit, offset) == total - offset,
    decreases total - offset,
{
    let page = page_len_spec(total, limit, offset);
    if page >= limit {
        law_paged_export_reads_every_report(total, limit, offset + page);
    }
}

/// How an export request went, as the caller carried it out: no store was
/// open, reading the reports failed, writing the file failed, or the file
/// was written.
#[derive(Debug, Clone, PartialEq, Eq)]
pub enum ExportOutcome {
    StoreMissing,
    ListingFailed(String),
    WriteFailed(String),
    Written,
}

/// The answer to an export request given how it went; `what` names the
/// format in the message of a failed write.
pub open spec fn export_answer(what: Seq<char>, outcome: ExportOutcome, r: Result<bool, String>) -> bool {
    match outcome {
        ExportOutcome::StoreMissing => r matches Err(m) && m@ == "Base de datos no disponible"@,
        ExportOutcome::ListingFailed(e) => r matches Err(m) && m@ == e@,
        ExportOutcome::WriteFailed(e) => r matches Err(m) && m@ == "Error al exportar "@ + what
            + ": "@ + e@,
        ExportOutcome::Written => r matches Ok(b) && b,
    }
}

fn export_result(what: &str, outcome: ExportOutcome) -> (r: Result<bool, String>)
    ensures
        export_answer(what@, outcome, r),
{
    match outcome {
        ExportOutcome::StoreMissing => Err(store_unavailable_message()),
        ExportOutcome::ListingFailed(e) => Err(e),
        ExportOutcome::WriteFailed(e) => {
            let mut m = String::from_str("Error al exportar ");
            m.append(what);
            m.append(": ");
            m.append(e.as_str());
            Err(m)
        },
        ExportOutcome::Written => Ok(true),
    }
}

/// Answer to a request to export the saved reports as CSV.
pub fn export_reports_csv(outcome: ExportOutcome) -> (r: Result<bool, String>)
    ensures
        export_answer("CSV"@, outcome, r),
{
    export_result("CSV", outcome)
}

/// Answer to a request to export the saved reports as JSON.
pub fn export_reports_json(outcome: ExportOutcome) -> (r: Result<bool, String>)
    ensures
        export_answer("JSON"@, outcome, r),
{
    export_result("JSON", outcome)
}

} // verus!
