//! Scan planning: which files are audio, how many workers a throttle mode
//! gets, and how a file that could not be decoded is reported.
use vstd::prelude::*;
use crate::decode::DecodeError;
use crate::types::{Codec, CutoffKind, FormatFacts, Verdict, ENGINE_REV};
use crate::verdict::Evidence;
use crate::wrappers::{ascii_lower, available_cpus, is_ascii_text, lowercase_of, to_lowercase_text, to_uppercase_text, uppercase_of};
use crate::text::{decimal_text, text_eq, u64_to_text};

verus! {

/// Extensions of the audio files a scan takes into its inventory (compared
/// lower-cased). Formats without a decoder are listed too: they enter the
/// inventory and are reported as unsupported once decoding refuses them.
pub open spec fn supported_extensions() -> Seq<Seq<char>> {
    seq![
        "wav"@,
        "flac"@,
        "aif"@,
        "aiff"@,
        "aifc"@,
        "mp3"@,
        "mp2"@,
        "m4a"@,
        "m4b"@,
        "mp4"@,
        "aac"@,
        "ogg"@,
        "oga"@,
        "opus"@,
        "alac"@,
        "wma"@,
        "wv"@,
        "ape"@,
        "tta"@,
        "dsf"@,
        "dff"@,
        "mka"@,
        "caf"@,
    ]
}

/// Whether a lower-cased extension is one a scan picks up.
pub fn is_supported_extension(ext_lower: &str) -> (r: bool)
    ensures
        r == supported_extensions().contains(ext_lower@),
{
    let r = text_eq(ext_lower, "wav")
        || text_eq(ext_lower, "flac")
        || text_eq(ext_lower, "aif")
        || text_eq(ext_lower, "aiff")
        || text_eq(ext_lower, "aifc")
        || text_eq(ext_lower, "mp3")
        || text_eq(ext_lower, "mp2")
        || text_eq(ext_lower, "m4a")
        || text_eq(ext_lower, "m4b")
        || text_eq(ext_lower, "mp4")
        || text_eq(ext_lower, "aac")
        || text_eq(ext_lower, "ogg")
        || text_eq(ext_lower, "oga")
        || text_eq(ext_lower, "opus")
        || text_eq(ext_lower, "alac")
        || text_eq(ext_lower, "wma")
        || text_eq(ext_lower, "wv")
        || text_eq(ext_lower, "ape")
        || text_eq(ext_lower, "tta")
        || text_eq(ext_lower, "dsf")
        || text_eq(ext_lower, "dff")
        || text_eq(ext_lower, "mka")
        || text_eq(ext_lower, "caf");
    proof {
        let l = supported_extensions();
        if r {
            if ext_lower@ == "wav"@ { assert(l[0] == ext_lower@); }
            if ext_lower@ == "flac"@ { assert(l[1] == ext_lower@); }
            if ext_lower@ == "aif"@ { assert(l[2] == ext_lower@); }
            if ext_lower@ == "aiff"@ { assert(l[3] == ext_lower@); }
            if ext_lower@ == "aifc"@ { assert(l[4] == ext_lower@); }
            if ext_lower@ == "mp3"@ { assert(l[5] == ext_lower@); }
            if ext_lower@ == "mp2"@ { assert(l[6] == ext_lower@); }
            if ext_lower@ == "m4a"@ { assert(l[7] == ext_lower@); }
            if ext_lower@ == "m4b"@ { assert(l[8] == ext_lower@); }
            if ext_lower@ == "mp4"@ { assert(l[9] == ext_lower@); }
            if ext_lower@ == "aac"@ { assert(l[10] == ext_lower@); }
            if ext_lower@ == "ogg"@ { assert(l[11] == ext_lower@); }
            if ext_lower@ == "oga"@ { assert(l[12] == ext_lower@); }
            if ext_lower@ == "opus"@ { assert(l[13] == ext_lower@); }
            if ext_lower@ == "alac"@ { assert(l[14] == ext_lower@); }
            if ext_lower@ == "wma"@ { assert(l[15] == ext_lower@); }
            if ext_lower@ == "wv"@ { assert(l[16] == ext_lower@); }
            if ext_lower@ == "ape"@ { assert(l[17] == ext_lower@); }
            if ext_lower@ == "tta"@ { assert(l[18] == ext_lower@); }
            if ext_lower@ == "dsf"@ { assert(l[19] == ext_lower@); }
            if ext_lower@ == "dff"@ { assert(l[20] == ext_lower@); }
            if ext_lower@ == "mka"@ { assert(l[21] == ext_lower@); }
            if ext_lower@ == "caf"@ { assert(l[22] == ext_lower@); }
        }
    }
    r
}

/// Whether an extension (`None` when there is none) is audio, compared lower-cased.
pub open spec fn audio_extension(extension: Option<Seq<char>>) -> bool {
    match extension {
        Some(e) => supported_extensions().contains(lowercase_of(e)),
        None => false,
    }
}

/// Whether a file with this extension (`None` when it has none) is audio
/// that a scan picks up; the extension is compared lower-cased.
pub fn is_audio_file(extension: Option<&str>) -> (r: bool)
    ensures
        r == audio_extension(match extension {
            Some(e) => Some(e@),
            None => None,
        }),
{
    match extension {
        Some(e) => {
            let lower = to_lowercase_text(e);
            is_supported_extension(lower.as_str())
        },
        None => false,
    }
}

/// Workers of a scan for a lower-cased throttle mode on a machine with
/// `cpus` CPUs: all of them for "turbo", one for "silent", otherwise half of
/// them kept between 2 and 8.
pub open spec fn threads_for_mode_spec(mode_lower: Seq<char>, cpus: int) -> int {
    if mode_lower == "turbo"@ {
        if cpus >= 1 {
            cpus
        } else {
            1
        }
    } else if mode_lower == "silent"@ {
        1
    } else {
        let half = cpus / 2;
        if half < 2 {
            2
        } else if half > 8 {
            8
        } else {
            half
        }
    }
}

/// Worker count of a scan for a lower-cased throttle mode.
pub fn threads_for_mode(mode_lower: &str, cpus: usize) -> (r: usize)
    ensures
        r as int == threads_for_mode_spec(mode_lower@, cpus as int),
        r >= 1,
{
    if text_eq(mode_lower, "turbo") {
        if cpus >= 1 {
            cpus
        } else {
            1
        }
    } else if text_eq(mode_lower, "silent") {
        1
    } else {
        let half = cpus / 2;
        if half < 2 {
            2
        } else if half > 8 {
            8
        } else {
            half
        }
    }
}

/// Worker count of a scan for a throttle mode (any case) on this machine.
pub fn scan_thread_count(throttle_mode: &str) -> (r: usize)
    ensures
        r >= 1,
        exists|cpus: int| cpus >= 1 && r as int == threads_for_mode_spec(
            lowercase_of(throttle_mode@),
            cpus,
        ),
{
    let mode = to_lowercase_text(throttle_mode);
    let cpus = available_cpus();
    threads_for_mode(mode.as_str(), cpus)
}

/// How a file that could not be decoded is shown: its container column,
/// codec column, the guard raised and the summary.
#[derive(Debug, Clone, PartialEq, Eq)]
pub struct DecodeFailureReport {
    pub container: String,
    pub codec: String,
    pub guard: String,
    pub summary: String,
}

/// Codec column, guard and summary of a decoding failure, from the
/// lower-cased and upper-cased extension.
pub open spec fn failure_texts(e: DecodeError, ext: Seq<char>, ext_up: Seq<char>) -> (
    Seq<char>,
    Seq<char>,
    Seq<char>,
) {
    match e {
        DecodeError::Unsupported(m) => (
            "No soportado ("@ + ext + ")"@,
            "Formato de audio no soportado actualmente por el motor ("@ + ext + ")"@,
            "Formato de audio ("@ + ext_up
                + ") reconocido en la biblioteca pero no soportado por el decodificador: "@ + m@,
        ),
        DecodeError::UnrecognizedFormat(m) => (
            "No reconocido ("@ + ext + ")"@,
            "Formato o contenedor no reconocido ("@ + ext + ")"@,
            "El archivo ("@ + ext_up
                + ") no pudo ser identificado como ningún contenedor de audio válido: "@ + m@,
        ),
        DecodeError::CorruptedHeader(m) => (
            "Error/Corrupto"@,
            "Cabecera de audio dañada o corrupta ("@ + ext + ")"@,
            "El archivo ("@ + ext_up + ") presenta una cabecera corrupta o malformada: "@ + m@,
        ),
        DecodeError::DecoderInit(m) => (
            "Error/Corrupto"@,
            "Fallo al inicializar decodificador ("@ + ext + ")"@,
            "No se pudo inicializar el decodificador para "@ + ext_up
                + ": flujo de audio dañado o inválido ("@ + m@ + ")"@,
        ),
        DecodeError::Io(m) => (
            "Error/I-O"@,
            "Error de lectura I/O: "@ + m@,
            "No se pudo leer el archivo de audio (error de I/O): "@ + m@,
        ),
        DecodeError::ZeroLength => (
            "Error/Vacío"@,
            "Archivo vacío o de longitud cero"@,
            "El archivo de audio está vacío (0 bytes)"@,
        ),
        DecodeError::FileTooLarge(n) => (
            "Error/Tamaño"@,
            "Archivo excede el límite máximo de 2 GB ("@ + decimal_text(n as nat) + " bytes)"@,
            "El archivo excede el tamaño máximo permitido de 2 GB"@,
        ),
        DecodeError::DurationExceeded(n) => (
            "Error/Duración"@,
            "Duración excede el límite máximo de 3 horas ("@ + decimal_text(n as nat) + " ms)"@,
            "El archivo excede la duración máxima permitida de 3 horas"@,
        ),
        DecodeError::NoAudioTrack => (
            "Error/SinAudio"@,
            "No se encontraron pistas de audio en el archivo"@,
            "El archivo no contiene pistas de audio decodificables"@,
        ),
        DecodeError::PacketDecode(m) => (
            "Error/Corrupto"@,
            "Fallo de decodificación (posible archivo corrupto): "@ + m@,
            "No se pudo decodificar el flujo de audio (posible archivo corrupto o truncado): "@ + m@,
        ),
        DecodeError::Symphonia(m) => (
            "Error/Corrupto"@,
            "Fallo de decodificación (posible archivo corrupto): "@ + m@,
            "No se pudo decodificar el flujo de audio (posible archivo corrupto o truncado): "@ + m@,
        ),
    }
}

fn cat3(a: &str, b: &str, c: &str) -> (r: String)
    ensures
        r@ == a@ + b@ + c@,
{
    let mut s = String::from_str(a);
    s.append(b);
    s.append(c);
    s
}

fn cat4(a: &str, b: &str, c: &str, d: &str) -> (r: String)
    ensures
        r@ == a@ + b@ + c@ + d@,
{
    let mut s = String::from_str(a);
    s.append(b);
    s.append(c);
    s.append(d);
    s
}

fn cat5(a: &str, b: &str, c: &str, d: &str, e: &str) -> (r: String)
    ensures
        r@ == a@ + b@ + c@ + d@ + e@,
{
    let mut s = String::from_str(a);
    s.append(b);
    s.append(c);
    s.append(d);
    s.append(e);
    s
}

/// Report texts of a decoding failure from the lower- and upper-cased extension.
pub fn describe_decode_failure_with(err: &DecodeError, ext: &str, ext_up: &str) -> (r: DecodeFailureReport)
    ensures
        r.container@ == ext_up@,
        (r.codec@, r.guard@, r.summary@) == failure_texts(*err, ext@, ext_up@),
{
    let (codec, guard, summary) = match err {
        DecodeError::Unsupported(m) => (
            cat3("No soportado (", ext, ")"),
            cat3("Formato de audio no soportado actualmente por el motor (", ext, ")"),
            cat4(
                "Formato de audio (",
                ext_up,
                ") reconocido en la biblioteca pero no soportado por el decodificador: ",
                m.as_str(),
            ),
        ),
        DecodeError::UnrecognizedFormat(m) => (
            cat3("No reconocido (", ext, ")"),
            cat3("Formato o contenedor no reconocido (", ext, ")"),
            cat4(
                "El archivo (",
                ext_up,
                ") no pudo ser identificado como ningún contenedor de audio válido: ",
                m.as_str(),
            ),
        ),
        DecodeError::CorruptedHeader(m) => (
            String::from_str("Error/Corrupto"),
            cat3("Cabecera de audio dañada o corrupta (", ext, ")"),
            cat4(
                "El archivo (",
                ext_up,
                ") presenta una cabecera corrupta o malformada: ",
                m.as_str(),
            ),
        ),
        DecodeError::DecoderInit(m) => (
            String::from_str("Error/Corrupto"),
            cat3("Fallo al inicializar decodificador (", ext, ")"),
            cat5(
                "No se pudo inicializar el decodificador para ",
                ext_up,
                ": flujo de audio dañado o inválido (",
                m.as_str(),
                ")",
            ),
        ),
        DecodeError::Io(m) => (
            String::from_str("Error/I-O"),
            cat3("Error de lectura I/O: ", m.as_str(), ""),
            cat3("No se pudo leer el archivo de audio (error de I/O): ", m.as_str(), ""),
        ),
        DecodeError::ZeroLength => (
            String::from_str("Error/Vacío"),
            String::from_str("Archivo vacío o de longitud cero"),
            String::from_str("El archivo de audio está vacío (0 bytes)"),
        ),
        DecodeError::FileTooLarge(n) => {
            let t = u64_to_text(*n);
            (
                String::from_str("Error/Tamaño"),
                cat3("Archivo excede el límite máximo de 2 GB (", t.as_str(), " bytes)"),
                String::from_str("El archivo excede el tamaño máximo permitido de 2 GB"),
            )
        },
        DecodeError::DurationExceeded(n) => {
            let t = u64_to_text(*n);
            (
                String::from_str("Error/Duración"),
                cat3("Duración excede el límite máximo de 3 horas (", t.as_str(), " ms)"),
                String::from_str("El archivo excede la duración máxima permitida de 3 horas"),
            )
        },
        DecodeError::NoAudioTrack => (
            String::from_str("Error/SinAudio"),
            String::from_str("No se encontraron pistas de audio en el archivo"),
            String::from_str("El archivo no contiene pistas de audio decodificables"),
        ),
        DecodeError::PacketDecode(m) | DecodeError::Symphonia(m) => (
            String::from_str("Error/Corrupto"),
            cat3("Fallo de decodificación (posible archivo corrupto): ", m.as_str(), ""),
            cat3(
                "No se pudo decodificar el flujo de audio (posible archivo corrupto o truncado): ",
                m.as_str(),
                "",
            ),
        ),
    };
    proof {
        reveal_strlit("");
        assert(""@ =~= Seq::<char>::empty());
    }
    let r = DecodeFailureReport { container: String::from_str(ext_up), codec, guard, summary };
    assert((r.codec@, r.guard@, r.summary@) =~~= failure_texts(*err, ext@, ext_up@));
    r
}

/// Report texts of a decoding failure of a file with this extension (`None`
/// when it has none, shown as "unknown"): the extension is shown lower-cased
/// and, in the container column and summary, upper-cased.
pub fn describe_decode_failure(err: &DecodeError, extension: Option<&str>) -> (r: DecodeFailureReport)
    ensures
        ({
            let ext = lowercase_of(
                match extension {
                    Some(e) => e@,
                    None => "UNKNOWN"@,
                },
            );
            let up = uppercase_of(ext);
            r.container@ == up && (r.codec@, r.guard@, r.summary@) == failure_texts(*err, ext, up)
        }),
{
    let raw = match extension {
        Some(e) => e,
        None => "UNKNOWN",
    };
    let ext = to_lowercase_text(raw);
    let up = to_uppercase_text(ext.as_str());
    describe_decode_failure_with(err, ext.as_str(), up.as_str())
}

/// Guard and summary of a file whose analysis panicked.
pub fn panic_recovered_texts(message: &str) -> (r: (String, String))
    ensures
        r.0@ == "Pánico capturado: "@ + message@,
        r.1@ == "Error crítico evitado al procesar el archivo: "@ + message@,
{
    let mut g = String::from_str("Pánico capturado: ");
    g.append(message);
    let mut s = String::from_str("Error crítico evitado al procesar el archivo: ");
    s.append(message);
    (g, s)
}

/// The declared facts of a file that could not be analysed: the two columns
/// shown, an unknown codec, every measure zero or absent, and no lossless
/// declaration.
pub fn unanalysed_facts(container: String, codec: String) -> (r: FormatFacts)
    ensures
        r.container@ == container@,
        r.codec@ == codec@,
        r.codec_type == Codec::Unknown,
        r.sample_rate == 0,
        r.bit_depth is None,
        r.channels == 0,
        r.duration_ms == 0,
        r.container_bitrate_kbps is None,
        !r.is_lossless_declared,
{
    FormatFacts {
        container,
        codec,
        codec_type: Codec::Unknown,
        sample_rate: 0,
        bit_depth: None,
        channels: 0,
        duration_ms: 0,
        container_bitrate_kbps: None,
        is_lossless_declared: false,
    }
}

/// The report of a file that could not be analysed (its measured part:
/// there is none, and the verdict abstains).
#[derive(Debug, Clone, PartialEq, Eq)]
pub struct UnanalysedReport {
    pub path: String,
    pub file_size: u64,
    pub engine_rev: u32,
    pub facts: FormatFacts,
    pub verdict: Verdict,
    /// Score in hundredths.
    pub score_centi: i64,
    pub effective_bandwidth_hz: Option<u32>,
    pub cutoff_kind: Option<CutoffKind>,
    pub evidences: Vec<Evidence>,
    pub guards: Vec<String>,
    pub summary: String,
}

/// Whether a report abstains on a file it could not analyse: inconclusive,
/// score 0, no measures, no evidences, one guard, facts of `unanalysed_facts`.
pub open spec fn abstains(r: UnanalysedReport, path: Seq<char>, file_size: u64, container: Seq<char>, codec: Seq<char>, guard: Seq<char>, summary: Seq<char>) -> bool {
    &&& r.path@ == path
    &&& r.file_size == file_size
    &&& r.engine_rev == ENGINE_REV
    &&& r.facts.container@ == container
    &&& r.facts.codec@ == codec
    &&& r.facts.codec_type == Codec::Unknown
    &&& r.facts.sample_rate == 0
    &&& r.facts.bit_depth is None
    &&& r.facts.channels == 0
    &&& r.facts.duration_ms == 0
    &&& r.facts.container_bitrate_kbps is None
    &&& !r.facts.is_lossless_declared
    &&& r.verdict == Verdict::Inconclusive
    &&& r.score_centi == 0
    &&& r.effective_bandwidth_hz is None
    &&& r.cutoff_kind is None
    &&& r.evidences@.len() == 0
    &&& r.guards@.len() == 1
    &&& r.guards@[0]@ == guard
    &&& r.summary@ == summary
}

fn abstaining_report(path: &str, file_size: u64, container: String, codec: String, guard: String, summary: String) -> (r: UnanalysedReport)
    ensures
        abstains(r, path@, file_size, container@, codec@, guard@, summary@),
{
    let facts = unanalysed_facts(container, codec);
    let mut guards: Vec<String> = Vec::new();
    guards.push(guard);
    UnanalysedReport {
        path: String::from_str(path),
        file_size,
        engine_rev: ENGINE_REV,
        facts,
        verdict: Verdict::Inconclusive,
        score_centi: 0,
        effective_bandwidth_hz: None,
        cutoff_kind: None,
        evidences: Vec::new(),
        guards,
        summary,
    }
}

/// The report of a file that could not be decoded: it abstains, showing
/// the container, codec, guard and summary of the failure.
pub fn failed_decode_report(path: &str, file_size: u64, failure: DecodeFailureReport) -> (r: UnanalysedReport)
    ensures
        abstains(r, path@, file_size, failure.container@, failure.codec@, failure.guard@, failure.summary@),
{
    abstaining_report(path, file_size, failure.container, failure.codec, failure.guard, failure.summary)
}

/// The report of a file whose analysis panicked: it abstains, as a
/// corrupted container with a recovered panic, naming the panic's message.
pub fn panic_recovered_report(path: &str, file_size: u64, message: &str) -> (r: UnanalysedReport)
    ensures
        abstains(
            r,
            path@,
            file_size,
            "CORRUPTED"@,
            "PANIC_RECOVERED"@,
            "Pánico capturado: "@ + message@,
            "Error crítico evitado al procesar el archivo: "@ + message@,
        ),
{
    let (guard, summary) = panic_recovered_texts(message);
    abstaining_report(
        path,
        file_size,
        String::from_str("CORRUPTED"),
        String::from_str("PANIC_RECOVERED"),
        guard,
        summary,
    )
}

/// What a cached report is looked up by: the file's path, size and
/// modification time (whole seconds since the epoch), and the engine
/// revision that produced it.
#[derive(Debug, Clone, PartialEq, Eq)]
pub struct CacheKey {
    pub path: String,
    pub file_size: u64,
    pub mtime_utc: i64,
    pub engine_rev: u32,
}

/// The cache lookup of a scanned file: none when the scan skips the cache,
/// has no store or could not read the file's metadata (size, mtime);
/// otherwise the file's key under the current engine revision, so that a
/// report of another revision is never reused.
pub fn cache_lookup_key(path: &str, skip_cache: bool, has_store: bool, metadata: Option<(u64, i64)>) -> (r: Option<CacheKey>)
    ensures
        r is Some <==> (!skip_cache && has_store && metadata is Some),
        r matches Some(k) ==> k.path@ == path@ && k.file_size == metadata.unwrap().0
            && k.mtime_utc == metadata.unwrap().1 && k.engine_rev == ENGINE_REV,
{
    if skip_cache || !has_store {
        return None;
    }
    match metadata {
        Some((size, mtime)) => Some(CacheKey {
            path: String::from_str(path),
            file_size: size,
            mtime_utc: mtime,
            engine_rev: ENGINE_REV,
        }),
        None => None,
    }
}

/// Every audio extension enters the scan inventory: those of the lossless
/// and lossy formats the engine decodes (wav, flac, aif, aiff, mp3, m4a, aac,
/// ogg, alac, wma among them) and those it reports as unsupported.
pub proof fn law_audio_extensions_enter_the_inventory()
    ensures
        supported_extensions().contains("wav"@),
        supported_extensions().contains("flac"@),
        supported_extensions().contains("aif"@),
        supported_extensions().contains("aiff"@),
        supported_extensions().contains("aifc"@),
        supported_extensions().contains("mp3"@),
        supported_extensions().contains("mp2"@),
        supported_extensions().contains("m4a"@),
        supported_extensions().contains("m4b"@),
        supported_extensions().contains("mp4"@),
        supported_extensions().contains("aac"@),
        supported_extensions().contains("ogg"@),
        supported_extensions().contains("oga"@),
        supported_extensions().contains("opus"@),
        supported_extensions().contains("alac"@),
        supported_extensions().contains("wma"@),
        supported_extensions().contains("wv"@),
        supported_extensions().contains("ape"@),
        supported_extensions().contains("tta"@),
        supported_extensions().contains("dsf"@),
        supported_extensions().contains("dff"@),
        supported_extensions().contains("mka"@),
        supported_extensions().contains("caf"@),
{
    let l = supported_extensions();
    assert(l[0] == "wav"@);
    assert(l[1] == "flac"@);
    assert(l[2] == "aif"@);
    assert(l[3] == "aiff"@);
    assert(l[4] == "aifc"@);
    assert(l[5] == "mp3"@);
    assert(l[6] == "mp2"@);
    assert(l[7] == "m4a"@);
    assert(l[8] == "m4b"@);
    assert(l[9] == "mp4"@);
    assert(l[10] == "aac"@);
    assert(l[11] == "ogg"@);
    assert(l[12] == "oga"@);
    assert(l[13] == "opus"@);
    assert(l[14] == "alac"@);
    assert(l[15] == "wma"@);
    assert(l[16] == "wv"@);
    assert(l[17] == "ape"@);
    assert(l[18] == "tta"@);
    assert(l[19] == "dsf"@);
    assert(l[20] == "dff"@);
    assert(l[21] == "mka"@);
    assert(l[22] == "caf"@);
}

/// Extensions are matched without regard to ASCII case: an ASCII extension
/// is audio exactly when its ASCII lower case is one of the audio
/// extensions, so "WAV", "Flac" or "AIFF" enter the inventory; a file without
/// an extension never does.
pub proof fn law_extension_case_does_not_matter(e: Seq<char>)
    ensures
        is_ascii_text(e) ==> (audio_extension(Some(e)) <==> supported_extensions().contains(ascii_lower(e))),
        !audio_extension(None),
        audio_extension(Some("WAV"@)),
        audio_extension(Some("Flac"@)),
        audio_extension(Some("AIFF"@)),
{
    law_audio_extensions_enter_the_inventory();
    reveal_strlit("WAV");
    reveal_strlit("Flac");
    reveal_strlit("AIFF");
    reveal_strlit("wav");
    reveal_strlit("flac");
    reveal_strlit("aiff");
    assert(ascii_lower("WAV"@) =~= "wav"@);
    assert(ascii_lower("Flac"@) =~= "flac"@);
    assert(ascii_lower("AIFF"@) =~= "aiff"@);
}

/// Workers of a scan: "turbo" uses every CPU (at least one), "silent" one
/// worker, and any other mode half of the CPUs, never fewer than two nor
/// more than eight.
pub proof fn law_scan_workers(mode: Seq<char>, cpus: int)
    requires
        cpus >= 0,
    ensures
        mode == "turbo"@ && cpus >= 1 ==> threads_for_mode_spec(mode, cpus) == cpus,
        mode == "turbo"@ && cpus == 0 ==> threads_for_mode_spec(mode, cpus) == 1,
        mode == "silent"@ ==> threads_for_mode_spec(mode, cpus) == 1,
        mode != "turbo"@ && mode != "silent"@ ==> 2 <= threads_for_mode_spec(mode, cpus) <= 8,
        mode != "turbo"@ && mode != "silent"@ && 4 <= cpus <= 17 ==> threads_for_mode_spec(mode, cpus)
            == cpus / 2,
        threads_for_mode_spec(mode, cpus) >= 1,
{
    reveal_strlit("turbo");
    reveal_strlit("silent");
    assert("turbo"@.len() != "silent"@.len());
}

/// A file in a format the decoder does not support, or does not
/// recognise, is never shown as corrupt: its codec column names it as
/// unsupported ("No soportado (ext)") or unrecognised ("No reconocido
/// (ext)"), while a damaged header, a failed decoder start or a failed
/// packet is shown as "Error/Corrupto".
pub proof fn law_unsupported_files_are_not_called_corrupt(m: String, ext: Seq<char>, ext_up: Seq<char>)
    ensures
        failure_texts(DecodeError::Unsupported(m), ext, ext_up).0 == "No soportado ("@ + ext + ")"@,
        failure_texts(DecodeError::UnrecognizedFormat(m), ext, ext_up).0 == "No reconocido ("@ + ext + ")"@,
        failure_texts(DecodeError::Unsupported(m), ext, ext_up).0 != "Error/Corrupto"@,
        failure_texts(DecodeError::UnrecognizedFormat(m), ext, ext_up).0 != "Error/Corrupto"@,
        failure_texts(DecodeError::CorruptedHeader(m), ext, ext_up).0 == "Error/Corrupto"@,
        failure_texts(DecodeError::DecoderInit(m), ext, ext_up).0 == "Error/Corrupto"@,
        failure_texts(DecodeError::PacketDecode(m), ext, ext_up).0 == "Error/Corrupto"@,
{
    reveal_strlit("No soportado (");
    reveal_strlit("No reconocido (");
    reveal_strlit("Error/Corrupto");
    assert(("No soportado ("@ + ext + ")"@)[0] == 'N');
    assert(("No reconocido ("@ + ext + ")"@)[0] == 'N');
    assert("Error/Corrupto"@[0] == 'E');
}

} // verus!
