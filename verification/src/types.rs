//! Domain vocabulary shared by every stage of the analyzer.
use vstd::prelude::*;

verus! {

/// Revision of the analysis and verdict engine. A change invalidates caches.
pub const ENGINE_REV: u32 = 2;

/// The six official verdict states.
#[derive(Debug, Clone, Copy, PartialEq, Eq, Structural, Hash)]
pub enum Verdict {
    /// Full spectrum, no strong evidence, coherent noise floor (score <= -4.00).
    LosslessVerified,
    /// Clean, with some minor indicator compatible with the material (-4.00 < score <= -1.50).
    LikelyLossless,
    /// Band-limited source, very short, silent or contradictory material.
    Inconclusive,
    /// Consistent evidence without a conclusive signal (+1.50 <= score < +4.00).
    Suspicious,
    /// At least one strong evidence plus corroboration (score >= +4.00).
    ProbableTranscode,
    /// The file already declares a lossy codec (MP3, AAC, Vorbis, ...).
    DeclaredLossy,
}

pub open spec fn verdict_display_name(v: Verdict) -> Seq<char> {
    match v {
        Verdict::LosslessVerified => "Lossless verificado"@,
        Verdict::LikelyLossless => "Probablemente lossless"@,
        Verdict::Inconclusive => "Inconcluso"@,
        Verdict::Suspicious => "Sospechoso"@,
        Verdict::ProbableTranscode => "Probable transcode"@,
        Verdict::DeclaredLossy => "Con pérdida declarado"@,
    }
}

pub open spec fn verdict_default_description(v: Verdict) -> Seq<char> {
    match v {
        Verdict::LosslessVerified => "No se encontraron evidencias de una fuente con pérdida."@,
        Verdict::LikelyLossless =>
            "Sin evidencias relevantes. Algún indicador menor, compatible con el material."@,
        Verdict::Inconclusive => "No hay información suficiente para determinarlo con confianza."@,
        Verdict::Suspicious => "El archivo declara una calidad superior a la que parece contener."@,
        Verdict::ProbableTranscode =>
            "Evidencia sólida compatible con una fuente MP3/AAC previamente comprimida."@,
        Verdict::DeclaredLossy => "Formato con pérdida declarado; contenedor y códec legítimos."@,
    }
}

impl Verdict {
    /// Human readable name shown to the user.
    pub fn display_name(&self) -> (r: &'static str)
        ensures
            r@ == verdict_display_name(*self),
    {
        match self {
            Verdict::LosslessVerified => "Lossless verificado",
            Verdict::LikelyLossless => "Probablemente lossless",
            Verdict::Inconclusive => "Inconcluso",
            Verdict::Suspicious => "Sospechoso",
            Verdict::ProbableTranscode => "Probable transcode",
            Verdict::DeclaredLossy => "Con pérdida declarado",
        }
    }

    /// Default explanatory sentence attached to each verdict.
    pub fn default_description(&self) -> (r: &'static str)
        ensures
            r@ == verdict_default_description(*self),
    {
        match self {
            Verdict::LosslessVerified => "No se encontraron evidencias de una fuente con pérdida.",
            Verdict::LikelyLossless => {
                "Sin evidencias relevantes. Algún indicador menor, compatible con el material."
            },
            Verdict::Inconclusive => {
                "No hay información suficiente para determinarlo con confianza."
            },
            Verdict::Suspicious => {
                "El archivo declara una calidad superior a la que parece contener."
            },
            Verdict::ProbableTranscode => {
                "Evidencia sólida compatible con una fuente MP3/AAC previamente comprimida."
            },
            Verdict::DeclaredLossy => {
                "Formato con pérdida declarado; contenedor y códec legítimos."
            },
        }
    }
}

/// Official codes of the evidence catalogue (E01 to E14).
#[derive(Debug, Clone, Copy, PartialEq, Eq, Structural, Hash)]
pub enum EvidenceCode {
    /// Effective bandwidth (strong when a verified brickwall cut is measured).
    E01,
    /// Slope of the cut.
    E02,
    /// 16 kHz shelf.
    E03,
    /// Spectral holes (strong).
    E04,
    /// Block grid (informative only).
    E05,
    /// Pre-echo.
    E06,
    /// Joint-stereo collapse (strong).
    E07,
    /// Noise floor and dither.
    E08,
    /// Real bit depth.
    E09,
    /// Upsampling.
    E10,
    /// Container inflation.
    E11,
    /// Quality metrics.
    E12,
    /// Forensic metadata (strong).
    E13,
    /// Temporal consistency.
    E14,
}

/// The evidences a conviction summary names as strong (when applicable and
/// weighing at least +1.40). The flag that lets a file be convicted is
/// decided by the evidence catalogue, from spectral holes, a joint-stereo
/// collapse and the forensic evidence only.
pub open spec fn evidence_is_strong(c: EvidenceCode) -> bool {
    c == EvidenceCode::E01 || c == EvidenceCode::E04 || c == EvidenceCode::E07
        || c == EvidenceCode::E13
}

pub open spec fn evidence_label(c: EvidenceCode) -> Seq<char> {
    match c {
        EvidenceCode::E01 => "Ancho de banda efectivo"@,
        EvidenceCode::E02 => "Pendiente del corte"@,
        EvidenceCode::E03 => "Shelf de 16 kHz"@,
        EvidenceCode::E04 => "Huecos espectrales"@,
        EvidenceCode::E05 => "Rejilla de bloques"@,
        EvidenceCode::E06 => "Pre-eco"@,
        EvidenceCode::E07 => "Colapso de joint-stereo"@,
        EvidenceCode::E08 => "Piso de ruido y dither"@,
        EvidenceCode::E09 => "Bit depth real"@,
        EvidenceCode::E10 => "Upsampling"@,
        EvidenceCode::E11 => "Inflado de contenedor"@,
        EvidenceCode::E12 => "Métricas de calidad"@,
        EvidenceCode::E13 => "Metadata forense"@,
        EvidenceCode::E14 => "Consistencia temporal"@,
    }
}

/// Short code of an evidence, as written in reports ("E01" .. "E14").
pub open spec fn evidence_code_text(c: EvidenceCode) -> Seq<char> {
    match c {
        EvidenceCode::E01 => "E01"@,
        EvidenceCode::E02 => "E02"@,
        EvidenceCode::E03 => "E03"@,
        EvidenceCode::E04 => "E04"@,
        EvidenceCode::E05 => "E05"@,
        EvidenceCode::E06 => "E06"@,
        EvidenceCode::E07 => "E07"@,
        EvidenceCode::E08 => "E08"@,
        EvidenceCode::E09 => "E09"@,
        EvidenceCode::E10 => "E10"@,
        EvidenceCode::E11 => "E11"@,
        EvidenceCode::E12 => "E12"@,
        EvidenceCode::E13 => "E13"@,
        EvidenceCode::E14 => "E14"@,
    }
}

impl EvidenceCode {
    /// Whether a conviction summary names this evidence as strong.
    pub fn is_strong(&self) -> (r: bool)
        ensures
            r == evidence_is_strong(*self),
    {
        match self {
            EvidenceCode::E01 | EvidenceCode::E04 | EvidenceCode::E07 | EvidenceCode::E13 => true,
            _ => false,
        }
    }

    /// Human readable label of the evidence.
    pub fn label(&self) -> (r: &'static str)
        ensures
            r@ == evidence_label(*self),
    {
        match self {
            EvidenceCode::E01 => "Ancho de banda efectivo",
            EvidenceCode::E02 => "Pendiente del corte",
            EvidenceCode::E03 => "Shelf de 16 kHz",
            EvidenceCode::E04 => "Huecos espectrales",
            EvidenceCode::E05 => "Rejilla de bloques",
            EvidenceCode::E06 => "Pre-eco",
            EvidenceCode::E07 => "Colapso de joint-stereo",
            EvidenceCode::E08 => "Piso de ruido y dither",
            EvidenceCode::E09 => "Bit depth real",
            EvidenceCode::E10 => "Upsampling",
            EvidenceCode::E11 => "Inflado de contenedor",
            EvidenceCode::E12 => "Métricas de calidad",
            EvidenceCode::E13 => "Metadata forense",
            EvidenceCode::E14 => "Consistencia temporal",
        }
    }

    /// Short textual code ("E01" .. "E14").
    pub fn code_text(&self) -> (r: &'static str)
        ensures
            r@ == evidence_code_text(*self),
    {
        match self {
            EvidenceCode::E01 => "E01",
            EvidenceCode::E02 => "E02",
            EvidenceCode::E03 => "E03",
            EvidenceCode::E04 => "E04",
            EvidenceCode::E05 => "E05",
            EvidenceCode::E06 => "E06",
            EvidenceCode::E07 => "E07",
            EvidenceCode::E08 => "E08",
            EvidenceCode::E09 => "E09",
            EvidenceCode::E10 => "E10",
            EvidenceCode::E11 => "E11",
            EvidenceCode::E12 => "E12",
            EvidenceCode::E13 => "E13",
            EvidenceCode::E14 => "E14",
        }
    }
}

/// Nature of the spectral limit measured by the DSP stage.
#[derive(Debug, Clone, Copy, PartialEq, Eq, Structural, Hash)]
pub enum CutoffKind {
    /// Abrupt artificial cut of a digital brickwall filter (lossy encoders).
    BrickwallCutoff,
    /// Real content up to Nyquist without an artificial cut.
    FullSpectrum,
    /// Gentle acoustic decay of natural instrumentation or analogue masters.
    NaturalRolloff,
}

/// Codecs known to the analysis engine.
#[derive(Debug, Clone, Copy, PartialEq, Eq, Structural, Hash)]
pub enum Codec {
    PcmS16Le,
    PcmS24Le,
    PcmS32Le,
    PcmF32Le,
    PcmS16Be,
    PcmS24Be,
    PcmS32Be,
    PcmF32Be,
    PcmU8,
    PcmOther,
    Flac,
    Alac,
    WavPack,
    Mp3,
    Aac,
    Vorbis,
    Opus,
    Wma,
    Unknown,
}

/// Lossless codecs: every PCM variant, FLAC, ALAC and WavPack.
pub open spec fn codec_is_lossless(c: Codec) -> bool {
    match c {
        Codec::Mp3 | Codec::Aac | Codec::Vorbis | Codec::Opus | Codec::Wma | Codec::Unknown => false,
        _ => true,
    }
}

pub open spec fn codec_display_name(c: Codec) -> Seq<char> {
    match c {
        Codec::PcmS16Le => "PCM 16-bit LE"@,
        Codec::PcmS24Le => "PCM 24-bit LE"@,
        Codec::PcmS32Le => "PCM 32-bit LE"@,
        Codec::PcmF32Le => "PCM 32-bit Float LE"@,
        Codec::PcmS16Be => "PCM 16-bit BE"@,
        Codec::PcmS24Be => "PCM 24-bit BE"@,
        Codec::PcmS32Be => "PCM 32-bit BE"@,
        Codec::PcmF32Be => "PCM 32-bit Float BE"@,
        Codec::PcmU8 => "PCM 8-bit"@,
        Codec::PcmOther => "PCM"@,
        Codec::Flac => "FLAC"@,
        Codec::Alac => "ALAC (Apple Lossless)"@,
        Codec::WavPack => "WavPack"@,
        Codec::Mp3 => "MP3 (MPEG Audio Layer III)"@,
        Codec::Aac => "AAC (Advanced Audio Coding)"@,
        Codec::Vorbis => "Ogg Vorbis"@,
        Codec::Opus => "Opus"@,
        Codec::Wma => "WMA"@,
        Codec::Unknown => "Códec desconocido"@,
    }
}

impl Codec {
    /// Whether the codec is lossless.
    pub fn is_lossless(&self) -> (r: bool)
        ensures
            r == codec_is_lossless(*self),
    {
        match self {
            Codec::PcmS16Le | Codec::PcmS24Le | Codec::PcmS32Le | Codec::PcmF32Le
            | Codec::PcmS16Be | Codec::PcmS24Be | Codec::PcmS32Be | Codec::PcmF32Be
            | Codec::PcmU8 | Codec::PcmOther | Codec::Flac | Codec::Alac | Codec::WavPack => true,
            _ => false,
        }
    }

    /// Human readable name of the codec.
    pub fn display_name(&self) -> (r: &'static str)
        ensures
            r@ == codec_display_name(*self),
    {
        match self {
            Codec::PcmS16Le => "PCM 16-bit LE",
            Codec::PcmS24Le => "PCM 24-bit LE",
            Codec::PcmS32Le => "PCM 32-bit LE",
            Codec::PcmF32Le => "PCM 32-bit Float LE",
            Codec::PcmS16Be => "PCM 16-bit BE",
            Codec::PcmS24Be => "PCM 24-bit BE",
            Codec::PcmS32Be => "PCM 32-bit BE",
            Codec::PcmF32Be => "PCM 32-bit Float BE",
            Codec::PcmU8 => "PCM 8-bit",
            Codec::PcmOther => "PCM",
            Codec::Flac => "FLAC",
            Codec::Alac => "ALAC (Apple Lossless)",
            Codec::WavPack => "WavPack",
            Codec::Mp3 => "MP3 (MPEG Audio Layer III)",
            Codec::Aac => "AAC (Advanced Audio Coding)",
            Codec::Vorbis => "Ogg Vorbis",
            Codec::Opus => "Opus",
            Codec::Wma => "WMA",
            Codec::Unknown => "Códec desconocido",
        }
    }
}

/// Technical facts of the container and codec, from deep parsing, never the extension.
#[derive(Debug, Clone, PartialEq, Eq)]
pub struct FormatFacts {
    pub container: String,
    pub codec: String,
    pub codec_type: Codec,
    pub sample_rate: u32,
    pub bit_depth: Option<u16>,
    pub channels: u16,
    pub duration_ms: u64,
    pub container_bitrate_kbps: Option<u32>,
    pub is_lossless_declared: bool,
}

/// A storage unit of the system.
#[derive(Debug, Clone, PartialEq, Eq)]
pub struct VolumeInfo {
    pub id: u8,
    pub path: String,
    pub label: String,
    pub fs_type: String,
    pub is_removable: bool,
    pub is_ready: bool,
    pub total_bytes: u64,
    pub free_bytes: u64,
}

/// Options of a bulk scan.
#[derive(Debug, Clone, PartialEq, Eq)]
pub struct ScanOptions {
    pub roots: Vec<String>,
    /// "normal", "silent" or "turbo".
    pub throttle_mode: String,
    pub skip_cache: bool,
}

/// What the engine reports when it starts.
#[derive(Debug, Clone, PartialEq, Eq)]
pub struct EngineInfo {
    pub revision: u32,
    pub data_dir: String,
    pub status: String,
}

} // verus!
