//! The evidence catalogue: turns the measurements of the signal analysis
//! and the forensic flags into the fourteen scored evidences, the
//! false-positive guards and the strong-evidence flag. Every measurement is
//! handed in integers (hundredths where it is a decimal quantity) together
//! with the text under which it is shown.
use vstd::prelude::*;
use crate::types::{CutoffKind, EvidenceCode, FormatFacts, Verdict};
use crate::verdict::{applicable_llr_sum, names_strong, strong_labels, verdict_spec, Evidence};
use crate::forensic::{opt_text, ForensicEvidence};
use crate::text::{decimal_text, u64_to_text};

verus! {

/// Measurements of the signal analysis of one file.
#[derive(Debug, Clone, PartialEq, Eq)]
pub struct DspMeasures {
    /// Whether any window carried measurable content (false when every
    /// analysed window was silent or no window could be taken).
    pub spectrum_measured: bool,
    /// Nature of the spectral limit: brickwall cut, full spectrum or natural roll-off.
    pub cutoff_kind: CutoffKind,
    /// Bandwidth holding 99.5 % of the energy, in Hz.
    pub effective_bandwidth_hz: u32,
    /// Slope around the cut, in hundredths of dB per octave, and as shown (one decimal).
    pub cutoff_slope_centi: i64,
    pub cutoff_slope_text: String,
    /// Drop between 14-16 kHz and 16-18 kHz, in hundredths of dB, and as shown.
    pub shelf_16k_drop_centi: i64,
    pub shelf_16k_drop_text: String,
    /// Empty psychoacoustic sub-bands above 10 kHz, out of 32, and their percentage as shown.
    pub empty_subbands: u32,
    pub spectral_holes_percent_text: String,
    /// No energy above 21.5 kHz in a high-rate file.
    pub upsampling_detected: bool,
    /// Strongest block-grid autocorrelation peak, in hundredths, and the block size it points at.
    pub block_grid_peak_centi: i64,
    pub detected_block_size: Option<u32>,
    /// Pre-echo score, in hundredths, and as shown (two decimals).
    pub pre_echo_centi: i64,
    pub pre_echo_text: String,
    /// Relative variance of the high-band energy across windows, in hundredths, and as shown.
    pub temporal_variance_centi: i64,
    pub temporal_variance_text: String,
    /// Whether two channels with samples were analysed.
    pub is_stereo: bool,
    pub joint_stereo_collapse: bool,
    pub joint_stereo_crossover_hz: Option<u32>,
    /// High-band correlation of the channels, as shown (two decimals).
    pub high_band_correlation_text: String,
    /// More than 5 % of the samples are exact zeros.
    pub has_exact_digital_silence: bool,
    /// Noise floor, in hundredths of dB, and as shown (one decimal).
    pub noise_floor_centi: i64,
    pub noise_floor_text: String,
    pub real_bit_depth: u16,
    pub bit_depth_inflated: bool,
    /// Integrated loudness in hundredths of LUFS, when measured.
    pub lufs_centi: Option<i64>,
    /// True peak and loudness as the quality line shows them (one decimal).
    pub true_peak_text: String,
    pub lufs_text: String,
    pub clipped_samples: u64,
}

/// Forensic flags of the file's bytes.
#[derive(Debug, Clone, PartialEq, Eq)]
pub struct ForensicFlags {
    pub has_lossy_encoder_signature: bool,
    pub encoder_tag: Option<String>,
    pub has_dj_metadata: bool,
    pub is_extension_mismatch: bool,
}

/// Everything the catalogue produces for one file.
#[derive(Debug, Clone, PartialEq, Eq)]
pub struct EvidenceSet {
    pub evidences: Vec<Evidence>,
    pub guards: Vec<String>,
    pub is_strong_evidence_present: bool,
}

pub open spec fn dec(n: nat) -> Seq<char> {
    decimal_text(n)
}

/// Natural roll-off below 20 kHz, gentler than 24 dB/oct: band-limited
/// material, not an encoder cut.
pub open spec fn natural_band_limited(m: DspMeasures) -> bool {
    &&& m.spectrum_measured
    &&& m.cutoff_kind == CutoffKind::NaturalRolloff
    &&& m.effective_bandwidth_hz < 20000
    &&& m.cutoff_slope_centi < 2400
}

/// A brickwall cut was measured on real content.
pub open spec fn brickwall_measured(m: DspMeasures) -> bool {
    m.spectrum_measured && m.cutoff_kind == CutoffKind::BrickwallCutoff
}

/// The Nyquist frequency the bandwidth bands are fractions of: half the
/// sample rate, at most that of 44.1 kHz audio.
pub open spec fn reference_nyquist(sample_rate: u32) -> int {
    if sample_rate / 2 < 22050 {
        (sample_rate / 2) as int
    } else {
        22050
    }
}

/// A cut at or above 20.5 kHz in a file stored above 48 kHz: the band of a
/// 44.1/48 kHz master carried over by resampling, not an encoder's cut.
pub open spec fn resampled_band(m: DspMeasures, f: FormatFacts) -> bool {
    f.sample_rate > 48000 && m.effective_bandwidth_hz >= 20500
}

pub open spec fn not_measured_text() -> Seq<char> {
    "No concluyente: sin contenido medible en las ventanas analizadas"@
}

pub open spec fn below_cut_text() -> Seq<char> {
    "No concluyente: la banda analizada está por debajo del corte detectado"@
}

/// (LLR in hundredths, applicable, description) of one evidence.
/// The bandwidth evidence decides by the kind of limit; a brickwall cut is
/// weighed by its position as a fraction (per mille) of the reference Nyquist.
pub open spec fn e01_spec(m: DspMeasures, f: FormatFacts) -> (int, bool, Seq<char>) {
    let bw = m.effective_bandwidth_hz;
    let nyq = reference_nyquist(f.sample_rate);
    if !m.spectrum_measured {
        (0, false, not_measured_text())
    } else {
        match m.cutoff_kind {
            CutoffKind::FullSpectrum => (-180, true, "Espectro completo hasta "@ + dec(bw as nat)
                + " Hz sin corte artificial"@),
            CutoffKind::NaturalRolloff => (0, true, "Ancho de banda medido en "@ + dec(bw as nat)
                + " Hz compatible con instrumentación o máster analógico de origen (roll-off suave)"@),
            CutoffKind::BrickwallCutoff => if resampled_band(m, f) {
                (0, true, "Corte en "@ + dec(bw as nat)
                    + " Hz compatible con remuestreo desde 44.1/48 kHz (no indica compresión con pérdida)"@)
            } else if bw * 1000 <= 750 * nyq {
                (220, true, "Corte brusco en "@ + dec(bw as nat) + " Hz (compatible con MP3 128 kbps)"@)
            } else if bw * 1000 <= 880 * nyq {
                (160, true, "Corte en "@ + dec(bw as nat) + " Hz (compatible con MP3 192 kbps)"@)
            } else if bw * 1000 <= 930 * nyq {
                (140, true, "Corte en "@ + dec(bw as nat) + " Hz (compatible con MP3/AAC 256 kbps)"@)
            } else {
                (120, true, "Corte vertical en "@ + dec(bw as nat) + " Hz (compatible con MP3 320 kbps)"@)
            },
        }
    }
}

/// The slope evidence weighs only a natural roll-off: a brickwall cut is
/// already weighed by the bandwidth evidence, and a full spectrum has no cut.
pub open spec fn e02_spec(m: DspMeasures) -> (int, bool, Seq<char>) {
    let s = m.cutoff_slope_text@;
    if !m.spectrum_measured {
        (0, false, not_measured_text())
    } else {
        match m.cutoff_kind {
            CutoffKind::FullSpectrum => (0, false, "No aplicable: espectro completo sin corte"@),
            CutoffKind::BrickwallCutoff => (0, false,
                "Corte brick-wall evaluado por E01 (E02 no duplica la evidencia)"@),
            CutoffKind::NaturalRolloff => if m.cutoff_slope_centi <= 2400 {
                (-100, true, "Roll-off suave de "@ + s + " dB/oct compatible con acustica natural"@)
            } else if m.cutoff_slope_centi <= 4000 {
                (0, true, "Roll-off moderado de "@ + s + " dB/oct"@)
            } else if m.cutoff_slope_centi < 6000 {
                (80, true, "Pendiente pronunciada de "@ + s + " dB/oct"@)
            } else {
                (150, true, "Pendiente vertical brick-wall de "@ + s
                    + " dB/oct (filtro digital de encoder)"@)
            },
        }
    }
}

pub open spec fn e03_spec(m: DspMeasures) -> (int, bool, Seq<char>) {
    if m.shelf_16k_drop_centi >= 1800 {
        (120, true, "Escalon / shelf pronunciado de "@ + m.shelf_16k_drop_text@
            + " dB a 16 kHz (firma tipica LAME/AAC)"@)
    } else {
        (0, true, "Sin escalon artificial a 16 kHz ("@ + m.shelf_16k_drop_text@ + " dB)"@)
    }
}

/// Holes in at least 15 % of the 32 sub-bands (5 or more) are strong evidence.
pub open spec fn e04_strong(m: DspMeasures) -> bool {
    m.empty_subbands >= 5
}

pub open spec fn e04_spec(m: DspMeasures) -> (int, bool, Seq<char>) {
    if e04_strong(m) {
        (250, true, "Huecos psicoacusticos marcados ("@ + m.spectral_holes_percent_text@
            + "% subbandas anuladas en agudos)"@)
    } else if m.empty_subbands >= 3 {
        (140, true, "Presencia moderada de huecos espectrales ("@ + m.spectral_holes_percent_text@
            + "%)"@)
    } else if !m.spectrum_measured {
        (0, false, not_measured_text())
    } else if m.cutoff_kind == CutoffKind::BrickwallCutoff {
        (0, false, below_cut_text())
    } else {
        (-140, true, "Continuidad espectral natural ("@ + m.spectral_holes_percent_text@
            + "% huecos)"@)
    }
}

/// A block grid says nothing where the spectrum runs to Nyquist without a
/// cut: an encoder would have left an edge.
pub open spec fn e05_spec(m: DspMeasures) -> (int, bool, Seq<char>) {
    if m.spectrum_measured && m.cutoff_kind == CutoffKind::FullSpectrum {
        (0, false, "No concluyente: no hay corte que acompañe una rejilla de compresión"@)
    } else {
        e05_grid_spec(m)
    }
}

pub open spec fn e05_grid_spec(m: DspMeasures) -> (int, bool, Seq<char>) {
    match m.detected_block_size {
        Some(bs) => if m.block_grid_peak_centi >= 8 {
            (100, true, "Estructura de tramas MDCT detectada: periodicidad de "@ + dec(bs as nat)
                + " muestras ("@ + (if bs == 576 {
                "\"MP3\""@
            } else {
                "\"AAC\""@
            }) + ")"@)
        } else {
            (0, true, "Sin periodicidad de tramas MDCT detectable"@)
        },
        None => (0, true, "Sin periodicidad de bloques de compresion"@),
    }
}

pub open spec fn e06_spec(m: DspMeasures) -> (int, bool, Seq<char>) {
    if m.pre_echo_centi >= 25 {
        (90, true, "Artefacto de pre-eco detectado previo a transitorios ("@ + m.pre_echo_text@
            + ")"@)
    } else {
        (0, true, "Sin artefactos notables de pre-eco"@)
    }
}

pub open spec fn e07_strong(m: DspMeasures) -> bool {
    m.is_stereo && m.joint_stereo_collapse
}

pub open spec fn e07_spec(m: DspMeasures) -> (int, bool, Seq<char>) {
    if !m.is_stereo {
        (0, false, "No aplicable (audio monofonico)"@)
    } else if m.joint_stereo_collapse {
        (240, true, "Colapso de canales a mono en agudos (> "@ + dec(
            match m.joint_stereo_crossover_hz {
                Some(c) => c as nat,
                None => 14000,
            },
        ) + " Hz, firma Intensity Stereo)"@)
    } else {
        (0, true, "Separacion estereo coherente en todo el espectro (correlacion HF: "@
            + m.high_band_correlation_text@ + ")"@)
    }
}

pub open spec fn e08_spec(m: DspMeasures) -> (int, bool, Seq<char>) {
    if m.has_exact_digital_silence && m.effective_bandwidth_hz < 20000 {
        (80, true, "Silencio digital absoluto en pasajes de bajo nivel (tipico de decodificacion lossy)"@)
    } else if !m.spectrum_measured {
        (0, false, not_measured_text())
    } else if m.cutoff_kind == CutoffKind::BrickwallCutoff {
        (0, false, below_cut_text())
    } else if m.noise_floor_centi < -8000 {
        (-80, true, "Piso de ruido coherente con dither analogico ("@ + m.noise_floor_text@
            + " dB)"@)
    } else {
        (0, true, "Piso de ruido medido: "@ + m.noise_floor_text@ + " dB"@)
    }
}

pub open spec fn e09_spec(m: DspMeasures, f: FormatFacts) -> (int, bool, Seq<char>) {
    if m.bit_depth_inflated {
        (140, f.bit_depth is Some, "Inflado de bits: declara "@ + dec(
            match f.bit_depth {
                Some(b) => b as nat,
                None => 24,
            },
        ) + " bits pero el contenido dinamico real corresponde a "@ + dec(m.real_bit_depth as nat)
            + " bits"@)
    } else {
        (0, f.bit_depth is Some, "Profundidad de bits consistente ("@ + dec(m.real_bit_depth as nat)
            + " bits)"@)
    }
}

pub open spec fn e10_spec(m: DspMeasures, f: FormatFacts) -> (int, bool, Seq<char>) {
    if m.upsampling_detected {
        (200, f.sample_rate >= 48000, "Falso high-res: declara "@ + dec(f.sample_rate as nat)
            + " Hz pero carece completamente de energia por encima de 21.5 kHz"@)
    } else {
        (0, f.sample_rate >= 48000, "Frecuencia de muestreo y ancho de banda consistentes"@)
    }
}

/// A lossless container around any artificial cut that resampling does
/// not explain.
pub open spec fn e11_spec(m: DspMeasures, f: FormatFacts) -> (int, bool, Seq<char>) {
    let k = match f.container_bitrate_kbps {
        Some(k) => k as nat,
        None => 1411,
    };
    let bw = m.effective_bandwidth_hz;
    if f.is_lossless_declared && brickwall_measured(m) && !resampled_band(m, f) {
        if bw <= 16500 {
            (180, true, "Contenedor lossless ("@ + dec(k) + " kbps) pero ancho de banda limitado a "@
                + dec(bw as nat) + " Hz (equivalente a 128 kbps)"@)
        } else {
            (180, true, "Contenedor lossless ("@ + dec(k) + " kbps) pero con corte artificial en "@
                + dec(bw as nat) + " Hz"@)
        }
    } else {
        (0, f.is_lossless_declared, "Bitrate del contenedor acorde al contenido"@)
    }
}

pub open spec fn e12_spec(m: DspMeasures) -> (int, bool, Seq<char>) {
    (0, true, "True Peak: "@ + m.true_peak_text@ + " dBTP, LUFS: "@ + m.lufs_text@
        + ", Muestras clipeadas: "@ + dec(m.clipped_samples as nat))
}

pub open spec fn e13_strong(x: ForensicFlags) -> bool {
    x.has_lossy_encoder_signature || x.is_extension_mismatch
}

pub open spec fn e13_spec(x: ForensicFlags) -> (int, bool, Seq<char>) {
    if x.has_lossy_encoder_signature {
        (350, true, "Cabecera / firma residual de compresión MP3/AAC encontrada en metadata: "@ + (
        match x.encoder_tag {
            Some(t) => t@,
            None => "Xing/LAME"@,
        }))
    } else if x.is_extension_mismatch {
        (350, true, "Discrepancia crítica: extensión no corresponde al formato binario real"@)
    } else if x.has_dj_metadata {
        (0, true, "Metadatos estándar de software DJ presentes (Serato/Rekordbox). Totalmente legítimo."@)
    } else {
        match x.encoder_tag {
            Some(t) => (0, true, "Metadatos de software de exportación legítimos detectados: "@ + t@),
            None => (0, true, "Cabeceras y metadata documental limpias"@),
        }
    }
}

pub open spec fn e14_spec(m: DspMeasures) -> (int, bool, Seq<char>) {
    if m.temporal_variance_centi < 40 && m.effective_bandwidth_hz < 19000 {
        (50, true, "Corte constante a lo largo de toda la pista (varianza temporal baja: "@
            + m.temporal_variance_text@ + ")"@)
    } else {
        (0, true, "Consistencia temporal evaluada (varianza: "@ + m.temporal_variance_text@ + ")"@)
    }
}

pub open spec fn ev_view(e: Evidence) -> (EvidenceCode, int, bool, Seq<char>) {
    (e.code, e.llr_centi as int, e.applicable, e.description@)
}

pub open spec fn with_code(c: EvidenceCode, t: (int, bool, Seq<char>)) -> (EvidenceCode, int, bool, Seq<char>) {
    (c, t.0, t.1, t.2)
}

/// The fourteen evidences, in catalogue order.
pub open spec fn evidences_spec(m: DspMeasures, f: FormatFacts, x: ForensicFlags) -> Seq<
    (EvidenceCode, int, bool, Seq<char>),
> {
    seq![
        with_code(EvidenceCode::E01, e01_spec(m, f)),
        with_code(EvidenceCode::E02, e02_spec(m)),
        with_code(EvidenceCode::E03, e03_spec(m)),
        with_code(EvidenceCode::E04, e04_spec(m)),
        with_code(EvidenceCode::E05, e05_spec(m)),
        with_code(EvidenceCode::E06, e06_spec(m)),
        with_code(EvidenceCode::E07, e07_spec(m)),
        with_code(EvidenceCode::E08, e08_spec(m)),
        with_code(EvidenceCode::E09, e09_spec(m, f)),
        with_code(EvidenceCode::E10, e10_spec(m, f)),
        with_code(EvidenceCode::E11, e11_spec(m, f)),
        with_code(EvidenceCode::E12, e12_spec(m)),
        with_code(EvidenceCode::E13, e13_spec(x)),
        with_code(EvidenceCode::E14, e14_spec(m)),
    ]
}

/// The guards against false positives, in order: short audio, very quiet
/// audio, low native sample rate, and naturally band-limited material.
pub open spec fn guards_spec(m: DspMeasures, f: FormatFacts) -> Seq<Seq<char>> {
    let g1: Seq<Seq<char>> = if f.duration_ms > 0 && f.duration_ms < 20000 {
        seq!["Duracion corta (< 20 s): resolucion estadistica limitada"@]
    } else {
        Seq::empty()
    };
    let g2 = match m.lufs_centi {
        Some(l) => if l < -4500 {
            g1.push("Nivel de audio muy bajo (LUFS < -45): posible vacio o pasaje ambiental"@)
        } else {
            g1
        },
        None => g1,
    };
    let g3 = if f.sample_rate <= 32000 {
        g2.push("Frecuencia de muestreo nativa baja (<= 32 kHz)"@)
    } else {
        g2
    };
    if natural_band_limited(m) {
        g3.push("Material acústico con ancho de banda limitado de origen (roll-off suave < 24 dB/oct, sin firmas de compresión digital)"@)
    } else {
        g3
    }
}

/// Marked spectral holes, a joint-stereo collapse, a lossy encoder signature
/// or an extension lie make a conviction possible.
pub open spec fn strong_spec(m: DspMeasures, x: ForensicFlags) -> bool {
    e04_strong(m) || e07_strong(m) || e13_strong(x)
}

fn cat2(a: &str, b: &str) -> (r: String)
    ensures
        r@ == a@ + b@,
{
    let mut s = String::from_str(a);
    s.append(b);
    s
}

fn cat3(a: &str, b: &str, c: &str) -> (r: String)
    ensures
        r@ == a@ + b@ + c@,
{
    let mut s = String::from_str(a);
    s.append(b);
    s.append(c);
    s
}

fn cat5(a: &str, b: &str, c: &str, d: &str, e: &str) -> (r: String)
    ensures
        r@ == a@ + b@ + c@ + d@ + e@,
{
    let mut s = String::from_str(a);
    s.append(b);
    s.append(c);
    s.append(d);
    s.append(e);
    s
}

fn ev(code: EvidenceCode, t: (i64, bool, String)) -> (r: Evidence)
    ensures
        ev_view(r) == (code, t.0 as int, t.1, t.2@),
{
    Evidence { code, llr_centi: t.0, applicable: t.1, description: t.2 }
}

fn build_e01(m: &DspMeasures, f: &FormatFacts) -> (r: (i64, bool, String))
    ensures
        (r.0 as int, r.1, r.2@) == e01_spec(*m, *f),
{
    if !m.spectrum_measured {
        return (0, false, String::from_str("No concluyente: sin contenido medible en las ventanas analizadas"));
    }
    let bw_text = u64_to_text(m.effective_bandwidth_hz as u64);
    let b = bw_text.as_str();
    match m.cutoff_kind {
        CutoffKind::FullSpectrum => (-180, true, cat3("Espectro completo hasta ", b, " Hz sin corte artificial")),
        CutoffKind::NaturalRolloff => (0, true, cat3(
            "Ancho de banda medido en ",
            b,
            " Hz compatible con instrumentación o máster analógico de origen (roll-off suave)",
        )),
        CutoffKind::BrickwallCutoff => {
            let half = f.sample_rate / 2;
            let nyq: u64 = if half < 22050 {
                half as u64
            } else {
                22050
            };
            let scaled = m.effective_bandwidth_hz as u64 * 1000;
            if f.sample_rate > 48000 && m.effective_bandwidth_hz >= 20500 {
                (0, true, cat3(
                    "Corte en ",
                    b,
                    " Hz compatible con remuestreo desde 44.1/48 kHz (no indica compresión con pérdida)",
                ))
            } else if scaled <= 750 * nyq {
                (220, true, cat3("Corte brusco en ", b, " Hz (compatible con MP3 128 kbps)"))
            } else if scaled <= 880 * nyq {
                (160, true, cat3("Corte en ", b, " Hz (compatible con MP3 192 kbps)"))
            } else if scaled <= 930 * nyq {
                (140, true, cat3("Corte en ", b, " Hz (compatible con MP3/AAC 256 kbps)"))
            } else {
                (120, true, cat3("Corte vertical en ", b, " Hz (compatible con MP3 320 kbps)"))
            }
        },
    }
}

fn build_e02(m: &DspMeasures) -> (r: (i64, bool, String))
    ensures
        (r.0 as int, r.1, r.2@) == e02_spec(*m),
{
    if !m.spectrum_measured {
        return (0, false, String::from_str("No concluyente: sin contenido medible en las ventanas analizadas"));
    }
    let t = m.cutoff_slope_text.as_str();
    match m.cutoff_kind {
        CutoffKind::FullSpectrum => (0, false, String::from_str("No aplicable: espectro completo sin corte")),
        CutoffKind::BrickwallCutoff => (0, false, String::from_str(
            "Corte brick-wall evaluado por E01 (E02 no duplica la evidencia)",
        )),
        CutoffKind::NaturalRolloff => {
            if m.cutoff_slope_centi <= 2400 {
                (-100, true, cat3("Roll-off suave de ", t, " dB/oct compatible con acustica natural"))
            } else if m.cutoff_slope_centi <= 4000 {
                (0, true, cat3("Roll-off moderado de ", t, " dB/oct"))
            } else if m.cutoff_slope_centi < 6000 {
                (80, true, cat3("Pendiente pronunciada de ", t, " dB/oct"))
            } else {
                (150, true, cat3("Pendiente vertical brick-wall de ", t, " dB/oct (filtro digital de encoder)"))
            }
        },
    }
}

fn build_e03(m: &DspMeasures) -> (r: (i64, bool, String))
    ensures
        (r.0 as int, r.1, r.2@) == e03_spec(*m),
{
    let t = m.shelf_16k_drop_text.as_str();
    if m.shelf_16k_drop_centi >= 1800 {
        (120, true, cat3("Escalon / shelf pronunciado de ", t, " dB a 16 kHz (firma tipica LAME/AAC)"))
    } else {
        (0, true, cat3("Sin escalon artificial a 16 kHz (", t, " dB)"))
    }
}

fn build_e04(m: &DspMeasures) -> (r: (i64, bool, String))
    ensures
        (r.0 as int, r.1, r.2@) == e04_spec(*m),
{
    let t = m.spectral_holes_percent_text.as_str();
    if m.empty_subbands >= 5 {
        (250, true, cat3("Huecos psicoacusticos marcados (", t, "% subbandas anuladas en agudos)"))
    } else if m.empty_subbands >= 3 {
        (140, true, cat3("Presencia moderada de huecos espectrales (", t, "%)"))
    } else if !m.spectrum_measured {
        (0, false, String::from_str("No concluyente: sin contenido medible en las ventanas analizadas"))
    } else if m.cutoff_kind == CutoffKind::BrickwallCutoff {
        (0, false, String::from_str("No concluyente: la banda analizada está por debajo del corte detectado"))
    } else {
        (-140, true, cat3("Continuidad espectral natural (", t, "% huecos)"))
    }
}

fn build_e05(m: &DspMeasures) -> (r: (i64, bool, String))
    ensures
        (r.0 as int, r.1, r.2@) == e05_spec(*m),
{
    if m.spectrum_measured && m.cutoff_kind == CutoffKind::FullSpectrum {
        return (0, false, String::from_str("No concluyente: no hay corte que acompañe una rejilla de compresión"));
    }
    match m.detected_block_size {
        Some(bs) => {
            if m.block_grid_peak_centi >= 8 {
                let n = u64_to_text(bs as u64);
                let family = if bs == 576 {
                    "\"MP3\""
                } else {
                    "\"AAC\""
                };
                (100, true, cat5(
                    "Estructura de tramas MDCT detectada: periodicidad de ",
                    n.as_str(),
                    " muestras (",
                    family,
                    ")",
                ))
            } else {
                (0, true, String::from_str("Sin periodicidad de tramas MDCT detectable"))
            }
        },
        None => (0, true, String::from_str("Sin periodicidad de bloques de compresion")),
    }
}

fn build_e06(m: &DspMeasures) -> (r: (i64, bool, String))
    ensures
        (r.0 as int, r.1, r.2@) == e06_spec(*m),
{
    if m.pre_echo_centi >= 25 {
        (90, true, cat3("Artefacto de pre-eco detectado previo a transitorios (", m.pre_echo_text.as_str(), ")"))
    } else {
        (0, true, String::from_str("Sin artefactos notables de pre-eco"))
    }
}

fn build_e07(m: &DspMeasures) -> (r: (i64, bool, String))
    ensures
        (r.0 as int, r.1, r.2@) == e07_spec(*m),
{
    if !m.is_stereo {
        (0, false, String::from_str("No aplicable (audio monofonico)"))
    } else if m.joint_stereo_collapse {
        let hz = match m.joint_stereo_crossover_hz {
            Some(c) => c,
            None => 14000,
        };
        let t = u64_to_text(hz as u64);
        (240, true, cat3("Colapso de canales a mono en agudos (> ", t.as_str(), " Hz, firma Intensity Stereo)"))
    } else {
        (0, true, cat3(
            "Separacion estereo coherente en todo el espectro (correlacion HF: ",
            m.high_band_correlation_text.as_str(),
            ")",
        ))
    }
}

fn build_e08(m: &DspMeasures) -> (r: (i64, bool, String))
    ensures
        (r.0 as int, r.1, r.2@) == e08_spec(*m),
{
    if m.has_exact_digital_silence && m.effective_bandwidth_hz < 20000 {
        (80, true, String::from_str("Silencio digital absoluto en pasajes de bajo nivel (tipico de decodificacion lossy)"))
    } else if !m.spectrum_measured {
        (0, false, String::from_str("No concluyente: sin contenido medible en las ventanas analizadas"))
    } else if m.cutoff_kind == CutoffKind::BrickwallCutoff {
        (0, false, String::from_str("No concluyente: la banda analizada está por debajo del corte detectado"))
    } else if m.noise_floor_centi < -8000 {
        (-80, true, cat3("Piso de ruido coherente con dither analogico (", m.noise_floor_text.as_str(), " dB)"))
    } else {
        (0, true, cat3("Piso de ruido medido: ", m.noise_floor_text.as_str(), " dB"))
    }
}

fn build_e09(m: &DspMeasures, f: &FormatFacts) -> (r: (i64, bool, String))
    ensures
        (r.0 as int, r.1, r.2@) == e09_spec(*m, *f),
{
    let app = f.bit_depth.is_some();
    let real_bits = u64_to_text(m.real_bit_depth as u64);
    if m.bit_depth_inflated {
        let declared = match f.bit_depth {
            Some(b) => b,
            None => 24,
        };
        let d = u64_to_text(declared as u64);
        (140, app, cat5(
            "Inflado de bits: declara ",
            d.as_str(),
            " bits pero el contenido dinamico real corresponde a ",
            real_bits.as_str(),
            " bits",
        ))
    } else {
        (0, app, cat3("Profundidad de bits consistente (", real_bits.as_str(), " bits)"))
    }
}

fn build_e10(m: &DspMeasures, f: &FormatFacts) -> (r: (i64, bool, String))
    ensures
        (r.0 as int, r.1, r.2@) == e10_spec(*m, *f),
{
    let app = f.sample_rate >= 48000;
    if m.upsampling_detected {
        let sr = u64_to_text(f.sample_rate as u64);
        (200, app, cat3(
            "Falso high-res: declara ",
            sr.as_str(),
            " Hz pero carece completamente de energia por encima de 21.5 kHz",
        ))
    } else {
        (0, app, String::from_str("Frecuencia de muestreo y ancho de banda consistentes"))
    }
}

fn build_e11(m: &DspMeasures, f: &FormatFacts) -> (r: (i64, bool, String))
    ensures
        (r.0 as int, r.1, r.2@) == e11_spec(*m, *f),
{
    let brickwall = m.spectrum_measured && m.cutoff_kind == CutoffKind::BrickwallCutoff;
    let resampled = f.sample_rate > 48000 && m.effective_bandwidth_hz >= 20500;
    if f.is_lossless_declared && brickwall && !resampled {
        let kbps = match f.container_bitrate_kbps {
            Some(k) => k,
            None => 1411,
        };
        let k = u64_to_text(kbps as u64);
        let bw = u64_to_text(m.effective_bandwidth_hz as u64);
        if m.effective_bandwidth_hz <= 16500 {
            (180, true, cat5(
                "Contenedor lossless (",
                k.as_str(),
                " kbps) pero ancho de banda limitado a ",
                bw.as_str(),
                " Hz (equivalente a 128 kbps)",
            ))
        } else {
            (180, true, cat5(
                "Contenedor lossless (",
                k.as_str(),
                " kbps) pero con corte artificial en ",
                bw.as_str(),
                " Hz",
            ))
        }
    } else {
        (0, f.is_lossless_declared, String::from_str("Bitrate del contenedor acorde al contenido"))
    }
}

fn build_e12(m: &DspMeasures) -> (r: (i64, bool, String))
    ensures
        (r.0 as int, r.1, r.2@) == e12_spec(*m),
{
    let clipped = u64_to_text(m.clipped_samples);
    let mut s = String::from_str("True Peak: ");
    s.append(m.true_peak_text.as_str());
    s.append(" dBTP, LUFS: ");
    s.append(m.lufs_text.as_str());
    s.append(", Muestras clipeadas: ");
    s.append(clipped.as_str());
    (0, true, s)
}

fn build_e13(x: &ForensicFlags) -> (r: (i64, bool, String))
    ensures
        (r.0 as int, r.1, r.2@) == e13_spec(*x),
{
    if x.has_lossy_encoder_signature {
        let tag = match &x.encoder_tag {
            Some(t) => t.as_str(),
            None => "Xing/LAME",
        };
        (350, true, cat2("Cabecera / firma residual de compresión MP3/AAC encontrada en metadata: ", tag))
    } else if x.is_extension_mismatch {
        (350, true, String::from_str("Discrepancia crítica: extensión no corresponde al formato binario real"))
    } else if x.has_dj_metadata {
        (0, true, String::from_str("Metadatos estándar de software DJ presentes (Serato/Rekordbox). Totalmente legítimo."))
    } else {
        match &x.encoder_tag {
            Some(t) => (0, true, cat2("Metadatos de software de exportación legítimos detectados: ", t.as_str())),
            None => (0, true, String::from_str("Cabeceras y metadata documental limpias")),
        }
    }
}

fn build_e14(m: &DspMeasures) -> (r: (i64, bool, String))
    ensures
        (r.0 as int, r.1, r.2@) == e14_spec(*m),
{
    let t = m.temporal_variance_text.as_str();
    if m.temporal_variance_centi < 40 && m.effective_bandwidth_hz < 19000 {
        (50, true, cat3("Corte constante a lo largo de toda la pista (varianza temporal baja: ", t, ")"))
    } else {
        (0, true, cat3("Consistencia temporal evaluada (varianza: ", t, ")"))
    }
}

fn push_ev(v: &mut Vec<Evidence>, e: Evidence)
    ensures
        final(v)@.map_values(|x: Evidence| ev_view(x)) == old(v)@.map_values(|x: Evidence| ev_view(x)).push(ev_view(e)),
{
    let ghost before = v@;
    v.push(e);
    assert(v@.map_values(|x: Evidence| ev_view(x)) =~= before.map_values(|x: Evidence| ev_view(x)).push(ev_view(e)));
}

fn push_guard(v: &mut Vec<String>, g: &str)
    ensures
        final(v)@.map_values(|x: String| x@) == old(v)@.map_values(|x: String| x@).push(g@),
{
    let ghost before = v@;
    v.push(String::from_str(g));
    assert(v@.map_values(|x: String| x@) =~= before.map_values(|x: String| x@).push(g@));
}

/// Builds the fourteen evidences, the guards and the strong-evidence flag of
/// one file from its facts, its measurements and its forensic flags.
pub fn build_evidence_set(facts: &FormatFacts, m: &DspMeasures, x: &ForensicFlags) -> (r: EvidenceSet)
    ensures
        r.evidences@.map_values(|e: Evidence| ev_view(e)) == evidences_spec(*m, *facts, *x),
        r.guards@.map_values(|g: String| g@) == guards_spec(*m, *facts),
        r.is_strong_evidence_present == strong_spec(*m, *x),
{
    let mut guards: Vec<String> = Vec::new();
    assert(guards@.map_values(|g: String| g@) =~= Seq::<Seq<char>>::empty());
    if facts.duration_ms > 0 && facts.duration_ms < 20000 {
        push_guard(&mut guards, "Duracion corta (< 20 s): resolucion estadistica limitada");
    }
    assert(guards@.map_values(|g: String| g@) =~= (if facts.duration_ms > 0 && facts.duration_ms < 20000 {
        seq!["Duracion corta (< 20 s): resolucion estadistica limitada"@]
    } else {
        Seq::<Seq<char>>::empty()
    }));
    if let Some(l) = m.lufs_centi {
        if l < -4500 {
            push_guard(&mut guards, "Nivel de audio muy bajo (LUFS < -45): posible vacio o pasaje ambiental");
        }
    }
    if facts.sample_rate <= 32000 {
        push_guard(&mut guards, "Frecuencia de muestreo nativa baja (<= 32 kHz)");
    }
    if m.spectrum_measured && m.cutoff_kind == CutoffKind::NaturalRolloff
        && m.effective_bandwidth_hz < 20000 && m.cutoff_slope_centi < 2400 {
        push_guard(
            &mut guards,
            "Material acústico con ancho de banda limitado de origen (roll-off suave < 24 dB/oct, sin firmas de compresión digital)",
        );
    }
    let mut evidences: Vec<Evidence> = Vec::new();
    assert(evidences@.map_values(|e: Evidence| ev_view(e)) =~= Seq::<(EvidenceCode, int, bool, Seq<char>)>::empty());
    push_ev(&mut evidences, ev(EvidenceCode::E01, build_e01(m, facts)));
    push_ev(&mut evidences, ev(EvidenceCode::E02, build_e02(m)));
    push_ev(&mut evidences, ev(EvidenceCode::E03, build_e03(m)));
    push_ev(&mut evidences, ev(EvidenceCode::E04, build_e04(m)));
    push_ev(&mut evidences, ev(EvidenceCode::E05, build_e05(m)));
    push_ev(&mut evidences, ev(EvidenceCode::E06, build_e06(m)));
    push_ev(&mut evidences, ev(EvidenceCode::E07, build_e07(m)));
    push_ev(&mut evidences, ev(EvidenceCode::E08, build_e08(m)));
    push_ev(&mut evidences, ev(EvidenceCode::E09, build_e09(m, facts)));
    push_ev(&mut evidences, ev(EvidenceCode::E10, build_e10(m, facts)));
    push_ev(&mut evidences, ev(EvidenceCode::E11, build_e11(m, facts)));
    push_ev(&mut evidences, ev(EvidenceCode::E12, build_e12(m)));
    push_ev(&mut evidences, ev(EvidenceCode::E13, build_e13(x)));
    push_ev(&mut evidences, ev(EvidenceCode::E14, build_e14(m)));
    assert(evidences@.map_values(|e: Evidence| ev_view(e)) =~= evidences_spec(*m, *facts, *x));
    let strong = m.empty_subbands >= 5 || (m.is_stereo && m.joint_stereo_collapse)
        || x.has_lossy_encoder_signature || x.is_extension_mismatch;
    EvidenceSet { evidences, guards, is_strong_evidence_present: strong }
}

/// The forensic flags the catalogue reads from a forensic inspection.
pub fn forensic_flags(f: &ForensicEvidence) -> (r: ForensicFlags)
    ensures
        r.has_lossy_encoder_signature == f.has_lossy_encoder_signature,
        opt_text(r.encoder_tag) == opt_text(f.encoder_string),
        r.has_dj_metadata == f.has_dj_metadata,
        r.is_extension_mismatch == f.is_extension_mismatch,
{
    ForensicFlags {
        has_lossy_encoder_signature: f.has_lossy_encoder_signature,
        encoder_tag: match &f.encoder_string {
            Some(t) => Some(String::from_str(t.as_str())),
            None => None,
        },
        has_dj_metadata: f.has_dj_metadata,
        is_extension_mismatch: f.is_extension_mismatch,
    }
}

/// The forensic evidence accuses only on a lossy encoder signature or an
/// extension that lies about the bytes: DJ metadata and the tag of export
/// software are neutral, and it never exonerates.
pub proof fn law_forensic_evidence_accuses_only_on_signature_or_mismatch(x: ForensicFlags)
    ensures
        e13_spec(x).0 >= 0,
        e13_spec(x).0 > 0 <==> (x.has_lossy_encoder_signature || x.is_extension_mismatch),
        e13_spec(x).0 > 0 <==> e13_strong(x),
{
}

/// Material that rolls off gently below 20 kHz is never accused for its
/// bandwidth: the bandwidth evidence is neutral and the band-limited guard
/// is raised.
pub proof fn law_band_limited_material_raises_its_guard(m: DspMeasures, f: FormatFacts)
    requires
        natural_band_limited(m),
    ensures
        e01_spec(m, f).0 == 0,
        guards_spec(m, f).len() > 0,
        guards_spec(m, f).last()
            == "Material acústico con ancho de banda limitado de origen (roll-off suave < 24 dB/oct, sin firmas de compresión digital)"@,
{
}

/// Whenever the catalogue raises a guard and finds no strong evidence, the
/// verdict never accuses the file, whatever the evidences weigh.
pub proof fn law_guarded_file_without_strong_evidence_is_never_accused(
    f: FormatFacts,
    m: DspMeasures,
    x: ForensicFlags,
    evs: Seq<Evidence>,
)
    requires
        guards_spec(m, f).len() > 0,
        !strong_spec(m, x),
    ensures
        verdict_spec(f.codec@, f.is_lossless_declared, evs, guards_spec(m, f), strong_spec(m, x)).0
            != Verdict::Suspicious,
        verdict_spec(f.codec@, f.is_lossless_declared, evs, guards_spec(m, f), strong_spec(m, x)).0
            != Verdict::ProbableTranscode,
{
}

proof fn lemma_named_strong_evidence_is_listed(evs: Seq<Evidence>, k: int)
    requires
        0 <= k < evs.len(),
        names_strong(evs[k]),
    ensures
        strong_labels(evs).len() > 0,
    decreases evs.len(),
{
    if k < evs.len() - 1 {
        lemma_named_strong_evidence_is_listed(evs.drop_last(), k);
    }
}

/// A conviction of a file from its catalogue always names at least one
/// strong evidence in its summary: the flag that allows a conviction comes
/// only from an evidence of the catalogue that is strong, applicable and
/// weighs at least +1.40.
pub proof fn law_conviction_names_its_strong_evidence(
    f: FormatFacts,
    m: DspMeasures,
    x: ForensicFlags,
    evs: Seq<Evidence>,
    guards: Seq<Seq<char>>,
)
    requires
        evs.map_values(|e: Evidence| ev_view(e)) == evidences_spec(m, f, x),
        verdict_spec(f.codec@, f.is_lossless_declared, evs, guards, strong_spec(m, x)).0
            == Verdict::ProbableTranscode,
    ensures
        strong_labels(evs).len() > 0,
{
    assert(evs.len() == 14) by {
        assert(evs.map_values(|e: Evidence| ev_view(e)).len() == evs.len());
    }
    if e04_strong(m) {
        assert(ev_view(evs[3]) == evidences_spec(m, f, x)[3]);
        lemma_named_strong_evidence_is_listed(evs, 3);
    } else if e07_strong(m) {
        assert(ev_view(evs[6]) == evidences_spec(m, f, x)[6]);
        lemma_named_strong_evidence_is_listed(evs, 6);
    } else {
        assert(ev_view(evs[12]) == evidences_spec(m, f, x)[12]);
        lemma_named_strong_evidence_is_listed(evs, 12);
    }
}

proof fn lemma_nonnegative_weights_sum_nonnegative(evs: Seq<Evidence>)
    requires
        forall|i: int| 0 <= i < evs.len() ==> #[trigger] evs[i].llr_centi >= 0,
    ensures
        applicable_llr_sum(evs) >= 0,
    decreases evs.len(),
{
    if evs.len() > 0 {
        let prev = evs.drop_last();
        assert forall|i: int| 0 <= i < prev.len() implies #[trigger] prev[i].llr_centi >= 0 by {
            assert(prev[i] == evs[i]);
        }
        lemma_nonnegative_weights_sum_nonnegative(prev);
        assert(evs.last() == evs[evs.len() - 1]);
    }
}

/// Where no window carried measurable content, nothing exonerates: no
/// evidence weighs below zero, so the file is never declared lossless,
/// verified or likely.
pub proof fn law_nothing_measured_never_exonerates(
    f: FormatFacts,
    m: DspMeasures,
    x: ForensicFlags,
    evs: Seq<Evidence>,
    guards: Seq<Seq<char>>,
    strong: bool,
)
    requires
        !m.spectrum_measured,
        evs.map_values(|e: Evidence| ev_view(e)) == evidences_spec(m, f, x),
    ensures
        forall|i: int| 0 <= i < evs.len() ==> #[trigger] evs[i].llr_centi >= 0,
        verdict_spec(f.codec@, f.is_lossless_declared, evs, guards, strong).0 != Verdict::LosslessVerified,
        verdict_spec(f.codec@, f.is_lossless_declared, evs, guards, strong).0 != Verdict::LikelyLossless,
{
    let views = evs.map_values(|e: Evidence| ev_view(e));
    assert(evs.len() == 14) by {
        assert(views.len() == evs.len());
    }
    assert forall|i: int| 0 <= i < evs.len() implies #[trigger] evs[i].llr_centi >= 0 by {
        assert(views[i] == ev_view(evs[i]));
        assert(views[i] == evidences_spec(m, f, x)[i]);
    }
    lemma_nonnegative_weights_sum_nonnegative(evs);
}

/// A measured brickwall cut is weighed once, by the bandwidth evidence: the
/// slope evidence stands aside, and the evidences measured below the cut
/// (spectral holes, noise floor) never exonerate.
pub proof fn law_brickwall_cut_is_weighed_once(m: DspMeasures)
    requires
        brickwall_measured(m),
    ensures
        e02_spec(m).0 == 0,
        !e02_spec(m).1,
        e04_spec(m).0 >= 0,
        e08_spec(m).0 >= 0,
{
}

/// Over a spectrum that runs to Nyquist without a cut, a block grid is not
/// informative: the block-grid evidence is inapplicable and weighs nothing,
/// and the bandwidth evidence exonerates.
pub proof fn law_full_spectrum_block_grid_is_not_counted(m: DspMeasures, f: FormatFacts)
    requires
        m.spectrum_measured,
        m.cutoff_kind == CutoffKind::FullSpectrum,
    ensures
        e05_spec(m).0 == 0,
        !e05_spec(m).1,
        e01_spec(m, f).0 == -180,
{
}

/// Resampling alone is not a transcode: a band of 20.5 kHz or more in a
/// file stored above 48 kHz never raises the bandwidth or the container
/// evidence.
pub proof fn law_resampled_master_is_not_accused_as_transcode(m: DspMeasures, f: FormatFacts)
    requires
        resampled_band(m, f),
    ensures
        e01_spec(m, f).0 <= 0,
        e11_spec(m, f).0 == 0,
{
}

/// A lossless container around any measured artificial cut that resampling
/// does not explain is accused, whatever the cut's frequency, and the cut
/// itself weighs at least +1.20.
pub proof fn law_lossless_container_with_any_cut_is_accused(m: DspMeasures, f: FormatFacts)
    requires
        f.is_lossless_declared,
        brickwall_measured(m),
        !resampled_band(m, f),
    ensures
        e11_spec(m, f).0 == 180,
        e11_spec(m, f).1,
        e01_spec(m, f).0 >= 120,
{
}

proof fn lemma_push_keeps_and_adds(s: Seq<Seq<char>>, x: Seq<char>, y: Seq<char>)
    ensures
        s.push(x).contains(x),
        s.contains(y) ==> s.push(x).contains(y),
        s.push(x).len() == s.len() + 1,
{
    assert(s.push(x)[s.len() as int] == x);
    if s.contains(y) {
        let i = choose|i: int| 0 <= i < s.len() && s[i] == y;
        assert(s.push(x)[i] == y);
    }
}

/// Which guards the catalogue raises, from the facts and the measures: a
/// track shorter than 20 s, a loudness below -45 LUFS, a native rate of at
/// most 32 kHz, and a measured natural roll-off gentler than 24 dB/oct below
/// 20 kHz each raise their guard, and no other guard is raised.
pub proof fn law_guards_follow_their_conditions(m: DspMeasures, f: FormatFacts)
    ensures
        ({
            let g = guards_spec(m, f);
            let short = f.duration_ms > 0 && f.duration_ms < 20000;
            let quiet = m.lufs_centi matches Some(l) && l < -4500;
            let low_rate = f.sample_rate <= 32000;
            let band = m.spectrum_measured && m.cutoff_kind == CutoffKind::NaturalRolloff
                && m.effective_bandwidth_hz < 20000 && m.cutoff_slope_centi < 2400;
            &&& short ==> g.contains("Duracion corta (< 20 s): resolucion estadistica limitada"@)
            &&& quiet ==> g.contains("Nivel de audio muy bajo (LUFS < -45): posible vacio o pasaje ambiental"@)
            &&& low_rate ==> g.contains("Frecuencia de muestreo nativa baja (<= 32 kHz)"@)
            &&& band ==> g.contains("Material acústico con ancho de banda limitado de origen (roll-off suave < 24 dB/oct, sin firmas de compresión digital)"@)
            &&& g.len() == (if short { 1int } else { 0 }) + (if quiet { 1int } else { 0 })
                + (if low_rate { 1int } else { 0 }) + (if band { 1int } else { 0 })
        }),
{
    let t1 = "Duracion corta (< 20 s): resolucion estadistica limitada"@;
    let t2 = "Nivel de audio muy bajo (LUFS < -45): posible vacio o pasaje ambiental"@;
    let t3 = "Frecuencia de muestreo nativa baja (<= 32 kHz)"@;
    let t4 = "Material acústico con ancho de banda limitado de origen (roll-off suave < 24 dB/oct, sin firmas de compresión digital)"@;
    let g1: Seq<Seq<char>> = if f.duration_ms > 0 && f.duration_ms < 20000 {
        seq![t1]
    } else {
        Seq::empty()
    };
    if f.duration_ms > 0 && f.duration_ms < 20000 {
        assert(g1[0] == t1);
    }
    let quiet = m.lufs_centi matches Some(l) && l < -4500;
    let g2 = if quiet { g1.push(t2) } else { g1 };
    lemma_push_keeps_and_adds(g1, t2, t1);
    let g3 = if f.sample_rate <= 32000 { g2.push(t3) } else { g2 };
    lemma_push_keeps_and_adds(g2, t3, t1);
    lemma_push_keeps_and_adds(g2, t3, t2);
    lemma_push_keeps_and_adds(g3, t4, t1);
    lemma_push_keeps_and_adds(g3, t4, t2);
    lemma_push_keeps_and_adds(g3, t4, t3);
}

/// The order of the catalogue: the evidences E01 to E14, one each, in order.
pub proof fn law_catalogue_order(m: DspMeasures, f: FormatFacts, x: ForensicFlags)
    ensures
        evidences_spec(m, f, x).len() == 14,
        evidences_spec(m, f, x)[0].0 == EvidenceCode::E01,
        evidences_spec(m, f, x)[1].0 == EvidenceCode::E02,
        evidences_spec(m, f, x)[2].0 == EvidenceCode::E03,
        evidences_spec(m, f, x)[3].0 == EvidenceCode::E04,
        evidences_spec(m, f, x)[4].0 == EvidenceCode::E05,
        evidences_spec(m, f, x)[5].0 == EvidenceCode::E06,
        evidences_spec(m, f, x)[6].0 == EvidenceCode::E07,
        evidences_spec(m, f, x)[7].0 == EvidenceCode::E08,
        evidences_spec(m, f, x)[8].0 == EvidenceCode::E09,
        evidences_spec(m, f, x)[9].0 == EvidenceCode::E10,
        evidences_spec(m, f, x)[10].0 == EvidenceCode::E11,
        evidences_spec(m, f, x)[11].0 == EvidenceCode::E12,
        evidences_spec(m, f, x)[12].0 == EvidenceCode::E13,
        evidences_spec(m, f, x)[13].0 == EvidenceCode::E14,
{
}

/// The weight of the bandwidth evidence E01, in hundredths, from the
/// measures: nothing measured abstains; a full spectrum exonerates (-1.80);
/// a natural roll-off is neutral; a brickwall cut above 48 kHz at 20.5 kHz or
/// more is resampling (0); any other brickwall cut weighs by its position as
/// a fraction of the reference Nyquist (half the rate, at most 22 050 Hz):
/// up to 75 % +2.20, up to 88 % +1.60, up to 93 % +1.40, above +1.20.
pub proof fn law_bandwidth_evidence_weights(m: DspMeasures, f: FormatFacts, x: ForensicFlags)
    ensures
        ({
            let e = evidences_spec(m, f, x)[0];
            let bw = m.effective_bandwidth_hz as int;
            let nyq: int = if f.sample_rate / 2 < 22050 { (f.sample_rate / 2) as int } else { 22050 };
            let cut = m.spectrum_measured && m.cutoff_kind == CutoffKind::BrickwallCutoff
                && !(f.sample_rate > 48000 && bw >= 20500);
            &&& !m.spectrum_measured ==> e.1 == 0 && !e.2
            &&& m.spectrum_measured && m.cutoff_kind == CutoffKind::FullSpectrum ==> e.1 == -180 && e.2
            &&& m.spectrum_measured && m.cutoff_kind == CutoffKind::NaturalRolloff ==> e.1 == 0 && e.2
            &&& m.spectrum_measured && m.cutoff_kind == CutoffKind::BrickwallCutoff && f.sample_rate > 48000
                && bw >= 20500 ==> e.1 == 0 && e.2
            &&& cut && 1000 * bw <= 750 * nyq ==> e.1 == 220
            &&& cut && 750 * nyq < 1000 * bw <= 880 * nyq ==> e.1 == 160
            &&& cut && 880 * nyq < 1000 * bw <= 930 * nyq ==> e.1 == 140
            &&& cut && 930 * nyq < 1000 * bw ==> e.1 == 120
            &&& cut ==> e.2
        }),
{
}

/// The weights of the slope (E02), spectral-hole (E04), joint-stereo (E07)
/// and forensic (E13) evidences, in hundredths, from the measures and flags,
/// and when the catalogue lets a conviction happen.
pub proof fn law_evidence_weights(m: DspMeasures, f: FormatFacts, x: ForensicFlags)
    ensures
        ({
            let v = evidences_spec(m, f, x);
            let natural = m.spectrum_measured && m.cutoff_kind == CutoffKind::NaturalRolloff;
            let slope = m.cutoff_slope_centi;
            &&& !natural ==> v[1].1 == 0 && !v[1].2
            &&& natural && slope <= 2400 ==> v[1].1 == -100 && v[1].2
            &&& natural && 2400 < slope <= 4000 ==> v[1].1 == 0 && v[1].2
            &&& natural && 4000 < slope < 6000 ==> v[1].1 == 80 && v[1].2
            &&& natural && slope >= 6000 ==> v[1].1 == 150 && v[1].2
            &&& m.empty_subbands >= 5 ==> v[3].1 == 250 && v[3].2
            &&& 3 <= m.empty_subbands < 5 ==> v[3].1 == 140 && v[3].2
            &&& m.empty_subbands < 3 && m.spectrum_measured && m.cutoff_kind != CutoffKind::BrickwallCutoff
                ==> v[3].1 == -140 && v[3].2
            &&& m.empty_subbands < 3 && !(m.spectrum_measured && m.cutoff_kind != CutoffKind::BrickwallCutoff)
                ==> v[3].1 == 0 && !v[3].2
            &&& !m.is_stereo ==> v[6].1 == 0 && !v[6].2
            &&& m.is_stereo && m.joint_stereo_collapse ==> v[6].1 == 240 && v[6].2
            &&& m.is_stereo && !m.joint_stereo_collapse ==> v[6].1 == 0 && v[6].2
            &&& (x.has_lossy_encoder_signature || x.is_extension_mismatch) ==> v[12].1 == 350 && v[12].2
            &&& !(x.has_lossy_encoder_signature || x.is_extension_mismatch) ==> v[12].1 == 0 && v[12].2
            &&& m.spectrum_measured && m.cutoff_kind == CutoffKind::FullSpectrum ==> v[4].1 == 0 && !v[4].2
            &&& !(m.spectrum_measured && m.cutoff_kind != CutoffKind::BrickwallCutoff) ==> v[7].1 >= 0
            &&& f.is_lossless_declared && m.spectrum_measured && m.cutoff_kind == CutoffKind::BrickwallCutoff
                && !(f.sample_rate > 48000 && m.effective_bandwidth_hz >= 20500) ==> v[10].1 == 180 && v[10].2
            &&& !(m.spectrum_measured && m.cutoff_kind == CutoffKind::BrickwallCutoff) ==> v[10].1 == 0
            &&& v[10].2 == f.is_lossless_declared
            &&& strong_spec(m, x) <==> (m.empty_subbands >= 5 || (m.is_stereo && m.joint_stereo_collapse)
                || x.has_lossy_encoder_signature || x.is_extension_mismatch)
        }),
{
}

} // verus!
