//! Rules of the report store that do not touch the database: the text codes
//! under which enums are stored, escaping of search text, the shape of the
//! listing queries, the schema migration plan and the content fingerprint.
use vstd::prelude::*;
use crate::types::{Codec, CutoffKind, Verdict};
use crate::text::{text_contains, text_contains_spec, text_eq};
use crate::wrappers::{blake3_hex, blake3_hex_of, chars_to_string};

verus! {

/// Columns read back for every report, in order.
pub open spec fn select_fields_spec() -> Seq<char> {
    "id, path, file_size, engine_rev, container, codec, sample_rate, bit_depth, channels, duration_ms, container_bitrate_kbps, is_lossless_declared, verdict, confidence, score_llr, effective_bandwidth_hz, cutoff_slope_db_oct, true_peak_dbtp, lufs_integrated, clipped_samples, dc_offset, dynamic_range_db, stereo_correlation, guards_json, evidences_json, verdict_summary, codec_type, spectrum_json, cutoff_kind"@
}

/// Columns read back for every report, in order.
pub fn select_fields() -> (r: &'static str)
    ensures
        r@ == select_fields_spec(),
{
    "id, path, file_size, engine_rev, container, codec, sample_rate, bit_depth, channels, duration_ms, container_bitrate_kbps, is_lossless_declared, verdict, confidence, score_llr, effective_bandwidth_hz, cutoff_slope_db_oct, true_peak_dbtp, lufs_integrated, clipped_samples, dc_offset, dynamic_range_db, stereo_correlation, guards_json, evidences_json, verdict_summary, codec_type, spectrum_json, cutoff_kind"
}

/// Schema version of the store.
pub const SCHEMA_VERSION: i32 = 3;

/// Bytes of the start of a file that its content fingerprint covers.
pub const FINGERPRINT_BYTES: usize = 65536;

/// Progress record of a scan job.
#[derive(Debug, Clone, PartialEq, Eq)]
pub struct ScanJobRecord {
    pub job_id: i64,
    pub roots_json: String,
    pub total_found: u64,
    pub analyzed_count: u64,
    pub status: String,
    pub last_path: String,
    pub updated_at: i64,
}

pub open spec fn verdict_code_spec(v: Verdict) -> Seq<char> {
    match v {
        Verdict::LosslessVerified => "LosslessVerified"@,
        Verdict::LikelyLossless => "LikelyLossless"@,
        Verdict::Inconclusive => "Inconclusive"@,
        Verdict::Suspicious => "Suspicious"@,
        Verdict::ProbableTranscode => "ProbableTranscode"@,
        Verdict::DeclaredLossy => "DeclaredLossy"@,
    }
}

/// Text under which a verdict is stored.
pub fn verdict_code(v: Verdict) -> (r: &'static str)
    ensures
        r@ == verdict_code_spec(v),
{
    match v {
        Verdict::LosslessVerified => "LosslessVerified",
        Verdict::LikelyLossless => "LikelyLossless",
        Verdict::Inconclusive => "Inconclusive",
        Verdict::Suspicious => "Suspicious",
        Verdict::ProbableTranscode => "ProbableTranscode",
        Verdict::DeclaredLossy => "DeclaredLossy",
    }
}

/// The verdict a stored text stands for; anything unknown reads as `DeclaredLossy`.
pub open spec fn parse_verdict_spec(s: Seq<char>) -> Verdict {
    if s == "LosslessVerified"@ {
        Verdict::LosslessVerified
    } else if s == "LikelyLossless"@ {
        Verdict::LikelyLossless
    } else if s == "Inconclusive"@ {
        Verdict::Inconclusive
    } else if s == "Suspicious"@ {
        Verdict::Suspicious
    } else if s == "ProbableTranscode"@ {
        Verdict::ProbableTranscode
    } else {
        Verdict::DeclaredLossy
    }
}

/// Reads a stored verdict.
pub fn parse_verdict(s: &str) -> (v: Verdict)
    ensures
        v == parse_verdict_spec(s@),
{
    if text_eq(s, "LosslessVerified") {
        Verdict::LosslessVerified
    } else if text_eq(s, "LikelyLossless") {
        Verdict::LikelyLossless
    } else if text_eq(s, "Inconclusive") {
        Verdict::Inconclusive
    } else if text_eq(s, "Suspicious") {
        Verdict::Suspicious
    } else if text_eq(s, "ProbableTranscode") {
        Verdict::ProbableTranscode
    } else {
        Verdict::DeclaredLossy
    }
}

pub open spec fn codec_code_spec(c: Codec) -> Seq<char> {
    match c {
        Codec::PcmS16Le => "PcmS16Le"@,
        Codec::PcmS24Le => "PcmS24Le"@,
        Codec::PcmS32Le => "PcmS32Le"@,
        Codec::PcmF32Le => "PcmF32Le"@,
        Codec::PcmS16Be => "PcmS16Be"@,
        Codec::PcmS24Be => "PcmS24Be"@,
        Codec::PcmS32Be => "PcmS32Be"@,
        Codec::PcmF32Be => "PcmF32Be"@,
        Codec::PcmU8 => "PcmU8"@,
        Codec::PcmOther => "PcmOther"@,
        Codec::Flac => "Flac"@,
        Codec::Alac => "Alac"@,
        Codec::WavPack => "WavPack"@,
        Codec::Mp3 => "Mp3"@,
        Codec::Aac => "Aac"@,
        Codec::Vorbis => "Vorbis"@,
        Codec::Opus => "Opus"@,
        Codec::Wma => "Wma"@,
        Codec::Unknown => "Unknown"@,
    }
}

/// Text under which a codec is stored.
pub fn codec_code(c: Codec) -> (r: &'static str)
    ensures
        r@ == codec_code_spec(c),
{
    match c {
        Codec::PcmS16Le => "PcmS16Le",
        Codec::PcmS24Le => "PcmS24Le",
        Codec::PcmS32Le => "PcmS32Le",
        Codec::PcmF32Le => "PcmF32Le",
        Codec::PcmS16Be => "PcmS16Be",
        Codec::PcmS24Be => "PcmS24Be",
        Codec::PcmS32Be => "PcmS32Be",
        Codec::PcmF32Be => "PcmF32Be",
        Codec::PcmU8 => "PcmU8",
        Codec::PcmOther => "PcmOther",
        Codec::Flac => "Flac",
        Codec::Alac => "Alac",
        Codec::WavPack => "WavPack",
        Codec::Mp3 => "Mp3",
        Codec::Aac => "Aac",
        Codec::Vorbis => "Vorbis",
        Codec::Opus => "Opus",
        Codec::Wma => "Wma",
        Codec::Unknown => "Unknown",
    }
}

/// The codec a stored text stands for. Only these codes are read back;
/// every other text reads as `Unknown`.
pub open spec fn parse_codec_spec(s: Seq<char>) -> Codec {
    if s == "PcmS16Le"@ {
        Codec::PcmS16Le
    } else if s == "PcmS24Le"@ {
        Codec::PcmS24Le
    } else if s == "PcmS32Le"@ {
        Codec::PcmS32Le
    } else if s == "PcmF32Le"@ {
        Codec::PcmF32Le
    } else if s == "Flac"@ {
        Codec::Flac
    } else if s == "Alac"@ {
        Codec::Alac
    } else if s == "Mp3"@ {
        Codec::Mp3
    } else if s == "Aac"@ {
        Codec::Aac
    } else if s == "Vorbis"@ {
        Codec::Vorbis
    } else if s == "Opus"@ {
        Codec::Opus
    } else {
        Codec::Unknown
    }
}

/// Reads a stored codec.
pub fn parse_codec_type(s: &str) -> (c: Codec)
    ensures
        c == parse_codec_spec(s@),
{
    if text_eq(s, "PcmS16Le") {
        Codec::PcmS16Le
    } else if text_eq(s, "PcmS24Le") {
        Codec::PcmS24Le
    } else if text_eq(s, "PcmS32Le") {
        Codec::PcmS32Le
    } else if text_eq(s, "PcmF32Le") {
        Codec::PcmF32Le
    } else if text_eq(s, "Flac") {
        Codec::Flac
    } else if text_eq(s, "Alac") {
        Codec::Alac
    } else if text_eq(s, "Mp3") {
        Codec::Mp3
    } else if text_eq(s, "Aac") {
        Codec::Aac
    } else if text_eq(s, "Vorbis") {
        Codec::Vorbis
    } else if text_eq(s, "Opus") {
        Codec::Opus
    } else {
        Codec::Unknown
    }
}

pub open spec fn cutoff_code_spec(k: CutoffKind) -> Seq<char> {
    match k {
        CutoffKind::BrickwallCutoff => "BrickwallCutoff"@,
        CutoffKind::FullSpectrum => "FullSpectrum"@,
        CutoffKind::NaturalRolloff => "NaturalRolloff"@,
    }
}

/// Text under which a cutoff kind is stored.
pub fn cutoff_code(k: CutoffKind) -> (r: &'static str)
    ensures
        r@ == cutoff_code_spec(k),
{
    match k {
        CutoffKind::BrickwallCutoff => "BrickwallCutoff",
        CutoffKind::FullSpectrum => "FullSpectrum",
        CutoffKind::NaturalRolloff => "NaturalRolloff",
    }
}

pub open spec fn parse_cutoff_spec(s: Seq<char>) -> Option<CutoffKind> {
    if s == "BrickwallCutoff"@ {
        Some(CutoffKind::BrickwallCutoff)
    } else if s == "FullSpectrum"@ {
        Some(CutoffKind::FullSpectrum)
    } else if s == "NaturalRolloff"@ {
        Some(CutoffKind::NaturalRolloff)
    } else {
        None
    }
}

/// Reads a stored cutoff kind; unknown texts read as absent.
pub fn parse_cutoff_kind(s: &str) -> (r: Option<CutoffKind>)
    ensures
        r == parse_cutoff_spec(s@),
{
    if text_eq(s, "BrickwallCutoff") {
        Some(CutoffKind::BrickwallCutoff)
    } else if text_eq(s, "FullSpectrum") {
        Some(CutoffKind::FullSpectrum)
    } else if text_eq(s, "NaturalRolloff") {
        Some(CutoffKind::NaturalRolloff)
    } else {
        None
    }
}

/// Every verdict survives a store round trip.
pub proof fn law_verdict_code_roundtrip(v: Verdict)
    ensures
        parse_verdict_spec(verdict_code_spec(v)) == v,
{
    reveal_strlit("LosslessVerified");
    reveal_strlit("LikelyLossless");
    reveal_strlit("Inconclusive");
    reveal_strlit("Suspicious");
    reveal_strlit("ProbableTranscode");
    reveal_strlit("DeclaredLossy");
    assert("LosslessVerified"@.len() == 16);
    assert("LikelyLossless"@.len() == 14);
    assert("Inconclusive"@.len() == 12);
    assert("Suspicious"@.len() == 10);
    assert("ProbableTranscode"@.len() == 17);
    assert("DeclaredLossy"@.len() == 13);
}

/// The codecs that are read back survive a store round trip.
pub open spec fn codec_is_stored_exactly(c: Codec) -> bool {
    c == Codec::PcmS16Le || c == Codec::PcmS24Le || c == Codec::PcmS32Le || c == Codec::PcmF32Le
        || c == Codec::Flac || c == Codec::Alac || c == Codec::Mp3 || c == Codec::Aac || c
        == Codec::Vorbis || c == Codec::Opus || c == Codec::Unknown
}

/// A codec among those the store reads back survives a round trip.
pub proof fn law_codec_code_roundtrip(c: Codec)
    requires
        codec_is_stored_exactly(c),
    ensures
        parse_codec_spec(codec_code_spec(c)) == c,
{
    reveal_strlit("PcmS16Le");
    reveal_strlit("PcmS24Le");
    reveal_strlit("PcmS32Le");
    reveal_strlit("PcmF32Le");
    reveal_strlit("Flac");
    reveal_strlit("Alac");
    reveal_strlit("Mp3");
    reveal_strlit("Aac");
    reveal_strlit("Vorbis");
    reveal_strlit("Opus");
    reveal_strlit("Unknown");
    assert("PcmS16Le"@.len() == 8);
    assert("PcmS24Le"@.len() == 8);
    assert("PcmS32Le"@.len() == 8);
    assert("PcmF32Le"@.len() == 8);
    assert("Flac"@.len() == 4);
    assert("Alac"@.len() == 4);
    assert("Mp3"@.len() == 3);
    assert("Aac"@.len() == 3);
    assert("Vorbis"@.len() == 6);
    assert("Opus"@.len() == 4);
    assert("Unknown"@.len() == 7);
    assert("PcmS16Le"@[4] != "PcmS24Le"@[4]);
    assert("PcmS16Le"@[4] != "PcmS32Le"@[4]);
    assert("PcmS24Le"@[4] != "PcmS32Le"@[4]);
    assert("PcmF32Le"@[3] != "PcmS16Le"@[3]);
    assert("PcmF32Le"@[3] != "PcmS24Le"@[3]);
    assert("PcmF32Le"@[3] != "PcmS32Le"@[3]);
    assert("Flac"@[0] != "Alac"@[0]);
    assert("Flac"@[0] != "Opus"@[0]);
    assert("Alac"@[0] != "Opus"@[0]);
    assert("Mp3"@[0] != "Aac"@[0]);
}

/// Every cutoff kind survives a store round trip.
pub proof fn law_cutoff_code_roundtrip(k: CutoffKind)
    ensures
        parse_cutoff_spec(cutoff_code_spec(k)) == Some(k),
{
    reveal_strlit("BrickwallCutoff");
    reveal_strlit("FullSpectrum");
    reveal_strlit("NaturalRolloff");
    assert("BrickwallCutoff"@.len() == 15);
    assert("FullSpectrum"@.len() == 12);
    assert("NaturalRolloff"@.len() == 14);
}


/// A codec the store does not read back reads back as unknown.
pub proof fn law_other_codecs_read_back_unknown(c: Codec)
    requires
        !codec_is_stored_exactly(c),
    ensures
        parse_codec_spec(codec_code_spec(c)) == Codec::Unknown,
{
    reveal_strlit("PcmS16Le");
    reveal_strlit("PcmS24Le");
    reveal_strlit("PcmS32Le");
    reveal_strlit("PcmF32Le");
    reveal_strlit("PcmS16Be");
    reveal_strlit("PcmS24Be");
    reveal_strlit("PcmS32Be");
    reveal_strlit("PcmF32Be");
    reveal_strlit("PcmU8");
    reveal_strlit("PcmOther");
    reveal_strlit("Flac");
    reveal_strlit("Alac");
    reveal_strlit("WavPack");
    reveal_strlit("Mp3");
    reveal_strlit("Aac");
    reveal_strlit("Vorbis");
    reveal_strlit("Opus");
    reveal_strlit("Wma");
    reveal_strlit("Unknown");
    let t = codec_code_spec(c);
    if c == Codec::PcmS16Be || c == Codec::PcmS24Be || c == Codec::PcmS32Be || c == Codec::PcmF32Be {
        assert(t.len() == 8);
        assert(t[6] == 'B');
        assert("PcmS16Le"@[6] == 'L');
        assert("PcmS24Le"@[6] == 'L');
        assert("PcmS32Le"@[6] == 'L');
        assert("PcmF32Le"@[6] == 'L');
    } else if c == Codec::PcmOther {
        assert(t.len() == 8);
        assert(t[3] == 'O');
        assert("PcmS16Le"@[3] == 'S');
        assert("PcmS24Le"@[3] == 'S');
        assert("PcmS32Le"@[3] == 'S');
        assert("PcmF32Le"@[3] == 'F');
    } else if c == Codec::PcmU8 {
        assert(t.len() == 5);
    } else if c == Codec::WavPack {
        assert(t.len() == 7);
        assert(t[0] == 'W');
        assert("Unknown"@[0] == 'U');
    } else {
        assert(c == Codec::Wma);
        assert(t.len() == 3);
        assert(t[0] == 'W');
        assert("Mp3"@[0] == 'M');
        assert("Aac"@[0] == 'A');
    }
}

/// The coded columns of a stored report read back as written: its verdict
/// and its cutoff kind always, its codec when the store reads that codec
/// back (any other reads back as unknown).
pub proof fn law_stored_codes_read_back(v: Verdict, c: Codec, k: Option<CutoffKind>)
    ensures
        parse_verdict_spec(verdict_code_spec(v)) == v,
        codec_is_stored_exactly(c) ==> parse_codec_spec(codec_code_spec(c)) == c,
        !codec_is_stored_exactly(c) ==> parse_codec_spec(codec_code_spec(c)) == Codec::Unknown,
        (match k {
            Some(kind) => parse_cutoff_spec(cutoff_code_spec(kind)),
            None => None,
        }) == k,
{
    law_verdict_code_roundtrip(v);
    if codec_is_stored_exactly(c) {
        law_codec_code_roundtrip(c);
    } else {
        law_other_codecs_read_back_unknown(c);
    }
    if let Some(kind) = k {
        law_cutoff_code_roundtrip(kind);
    }
}

/// One character of a search text, escaped for a `LIKE ... ESCAPE '\'` pattern.
pub open spec fn escape_like_char(c: char) -> Seq<char> {
    if c == '\\' || c == '%' || c == '_' {
        seq!['\\', c]
    } else {
        seq![c]
    }
}

/// A search text with `\`, `%` and `_` escaped by a backslash.
pub open spec fn escape_like_spec(s: Seq<char>) -> Seq<char>
    decreases s.len(),
{
    if s.len() == 0 {
        Seq::empty()
    } else {
        escape_like_char(s[0]) + escape_like_spec(s.drop_first())
    }
}

/// Reading an escaped pattern back: a backslash takes the next character literally.
pub open spec fn unescape_like_spec(t: Seq<char>) -> Seq<char>
    decreases t.len(),
{
    if t.len() == 0 {
        Seq::empty()
    } else if t[0] == '\\' && t.len() >= 2 {
        seq![t[1]] + unescape_like_spec(t.subrange(2, t.len() as int))
    } else {
        seq![t[0]] + unescape_like_spec(t.drop_first())
    }
}

proof fn lemma_escape_push(s: Seq<char>, c: char)
    ensures
        escape_like_spec(s.push(c)) == escape_like_spec(s) + escape_like_char(c),
    decreases s.len(),
{
    if s.len() == 0 {
        assert(s.push(c).drop_first() =~= Seq::<char>::empty());
        assert(escape_like_spec(Seq::<char>::empty()) == Seq::<char>::empty());
        assert(escape_like_char(c) + Seq::<char>::empty() =~= escape_like_char(c));
        assert(Seq::<char>::empty() + escape_like_char(c) =~= escape_like_char(c));
    } else {
        assert(s.push(c).drop_first() =~= s.drop_first().push(c));
        lemma_escape_push(s.drop_first(), c);
        assert(s.push(c)[0] == s[0]);
        assert(escape_like_char(s[0]) + (escape_like_spec(s.drop_first()) + escape_like_char(c))
            =~= (escape_like_char(s[0]) + escape_like_spec(s.drop_first())) + escape_like_char(c));
    }
}

/// Escaping loses nothing: reading the escaped pattern back gives the search text.
pub proof fn law_escape_like_roundtrip(s: Seq<char>)
    ensures
        unescape_like_spec(escape_like_spec(s)) == s,
    decreases s.len(),
{
    if s.len() > 0 {
        let rest = escape_like_spec(s.drop_first());
        let t = escape_like_char(s[0]) + rest;
        law_escape_like_roundtrip(s.drop_first());
        if s[0] == '\\' || s[0] == '%' || s[0] == '_' {
            assert(t.subrange(2, t.len() as int) =~= rest);
        } else {
            assert(t.drop_first() =~= rest);
        }
        assert(seq![s[0]] + s.drop_first() =~= s);
    }
}

/// Escapes `\`, `%` and `_` of a search text with a backslash.
pub fn escape_like(s: &str) -> (r: String)
    ensures
        r@ == escape_like_spec(s@),
{
    let n = s.unicode_len();
    let mut out: Vec<char> = Vec::new();
    let mut i: usize = 0;
    assert(s@.subrange(0, 0) =~= Seq::<char>::empty());
    while i < n
        invariant
            n == s@.len(),
            i <= n,
            out@ == escape_like_spec(s@.subrange(0, i as int)),
        decreases n - i,
    {
        let c = s.get_char(i);
        proof {
            lemma_escape_push(s@.subrange(0, i as int), c);
            assert(s@.subrange(0, i as int).push(c) =~= s@.subrange(0, i + 1));
        }
        if c == '\\' || c == '%' || c == '_' {
            out.push('\\');
        }
        out.push(c);
        proof {
            assert(out@ =~= escape_like_spec(s@.subrange(0, i as int)) + escape_like_char(c));
        }
        i = i + 1;
    }
    assert(s@.subrange(0, n as int) =~= s@);
    chars_to_string(&out)
}

/// Whether a verdict filter restricts the listing.
pub open spec fn verdict_filter_active(f: Option<Seq<char>>) -> bool {
    match f {
        Some(v) => v.len() > 0 && v != "ALL"@,
        None => false,
    }
}

/// Whether a search text restricts the listing.
pub open spec fn search_active(s: Option<Seq<char>>) -> bool {
    match s {
        Some(t) => t.len() > 0,
        None => false,
    }
}

/// The WHERE conditions and their text parameters, in order.
pub open spec fn filter_spec(f: Option<Seq<char>>, s: Option<Seq<char>>) -> (Seq<char>, Seq<Seq<char>>) {
    let (c1, p1) = if verdict_filter_active(f) {
        (" AND verdict = ?"@, seq![f.unwrap()])
    } else {
        (Seq::<char>::empty(), Seq::<Seq<char>>::empty())
    };
    if search_active(s) {
        (
            c1 + " AND path LIKE ? ESCAPE '\\'"@,
            p1.push("%"@ + escape_like_spec(s.unwrap()) + "%"@),
        )
    } else {
        (c1, p1)
    }
}

/// A query over the reports with its text parameters; a paginated query
/// takes the limit and the offset as its two last parameters.
#[derive(Debug, Clone, PartialEq, Eq)]
pub struct ReportQuery {
    pub sql: String,
    pub text_params: Vec<String>,
}

pub open spec fn opt_str(o: Option<&str>) -> Option<Seq<char>> {
    match o {
        Some(t) => Some(t@),
        None => None,
    }
}

pub open spec fn texts(v: Seq<String>) -> Seq<Seq<char>> {
    v.map_values(|t: String| t@)
}

fn push_param(v: &mut Vec<String>, t: String)
    ensures
        texts(final(v)@) == texts(old(v)@).push(t@),
{
    let ghost before = v@;
    v.push(t);
    assert(texts(v@) =~= texts(before).push(t@));
}

fn append_filters(sql: &mut String, params: &mut Vec<String>, verdict_filter: Option<&str>, search: Option<&str>)
    ensures
        final(sql)@ == old(sql)@ + filter_spec(opt_str(verdict_filter), opt_str(search)).0,
        texts(final(params)@) == texts(old(params)@) + filter_spec(opt_str(verdict_filter), opt_str(search)).1,
{
    let ghost sql0 = sql@;
    let ghost p0 = texts(params@);
    if let Some(v) = verdict_filter {
        if v.unicode_len() > 0 && !text_eq(v, "ALL") {
            sql.append(" AND verdict = ?");
            push_param(params, String::from_str(v));
        }
    }
    assert(sql@ == sql0 + (if verdict_filter_active(opt_str(verdict_filter)) { " AND verdict = ?"@ } else { Seq::<char>::empty() }));
    if let Some(t) = search {
        if t.unicode_len() > 0 {
            sql.append(" AND path LIKE ? ESCAPE '\\'");
            let mut pattern = String::from_str("%");
            let escaped = escape_like(t);
            pattern.append(escaped.as_str());
            pattern.append("%");
            push_param(params, pattern);
        }
    }
    assert(sql@ =~= sql0 + filter_spec(opt_str(verdict_filter), opt_str(search)).0);
    assert(texts(params@) =~= p0 + filter_spec(opt_str(verdict_filter), opt_str(search)).1);
}

/// The paginated listing of reports, newest first, optionally restricted to
/// one verdict and to paths containing a search text.
pub fn build_list_query(verdict_filter: Option<&str>, search: Option<&str>) -> (q: ReportQuery)
    ensures
        q.sql@ == "SELECT "@ + select_fields_spec() + " FROM file_report WHERE 1=1"@ + filter_spec(
            opt_str(verdict_filter),
            opt_str(search),
        ).0 + " ORDER BY id DESC LIMIT ? OFFSET ?"@,
        texts(q.text_params@) == filter_spec(opt_str(verdict_filter), opt_str(search)).1,
{
    let mut sql = String::from_str("SELECT ");
    sql.append(select_fields());
    sql.append(" FROM file_report WHERE 1=1");
    let mut params: Vec<String> = Vec::new();
    assert(texts(params@) =~= Seq::<Seq<char>>::empty());
    append_filters(&mut sql, &mut params, verdict_filter, search);
    sql.append(" ORDER BY id DESC LIMIT ? OFFSET ?");
    assert(texts(params@) =~= filter_spec(opt_str(verdict_filter), opt_str(search)).1);
    ReportQuery { sql, text_params: params }
}

/// The count of reports under the same restrictions as the listing.
pub fn build_count_query(verdict_filter: Option<&str>, search: Option<&str>) -> (q: ReportQuery)
    ensures
        q.sql@ == "SELECT COUNT(*) FROM file_report WHERE 1=1"@ + filter_spec(
            opt_str(verdict_filter),
            opt_str(search),
        ).0,
        texts(q.text_params@) == filter_spec(opt_str(verdict_filter), opt_str(search)).1,
{
    let mut sql = String::from_str("SELECT COUNT(*) FROM file_report WHERE 1=1");
    let mut params: Vec<String> = Vec::new();
    assert(texts(params@) =~= Seq::<Seq<char>>::empty());
    append_filters(&mut sql, &mut params, verdict_filter, search);
    assert(texts(params@) =~= filter_spec(opt_str(verdict_filter), opt_str(search)).1);
    ReportQuery { sql, text_params: params }
}

/// One step of bringing a database to the current schema.
#[derive(Debug, Clone, Copy, PartialEq, Eq)]
pub enum SchemaStep {
    /// Create the complete current schema and stamp its version.
    CreateFresh,
    /// Add the second-version columns (tolerating ones that exist), the hash
    /// index and the scan-job table, and stamp version 2.
    AddV2Columns,
    /// Add the cutoff-kind column (tolerating it if it exists) and stamp version 3.
    AddV3Column,
}

/// The steps that bring a database at `version` to the current schema. Only
/// a database that has no version and no report table is created fresh; a
/// report table without a version goes through every migration.
pub open spec fn schema_plan_spec(version: int, table_exists: bool) -> Seq<SchemaStep> {
    if version == 0 && !table_exists {
        seq![SchemaStep::CreateFresh]
    } else {
        let s1: Seq<SchemaStep> = if version < 2 {
            seq![SchemaStep::AddV2Columns]
        } else {
            Seq::empty()
        };
        if version < 3 {
            s1.push(SchemaStep::AddV3Column)
        } else {
            s1
        }
    }
}

/// Migration plan of a database.
pub fn schema_plan(version: i32, table_exists: bool) -> (r: Vec<SchemaStep>)
    ensures
        r@ == schema_plan_spec(version as int, table_exists),
{
    let mut steps: Vec<SchemaStep> = Vec::new();
    if version == 0 && !table_exists {
        steps.push(SchemaStep::CreateFresh);
        assert(steps@ =~= seq![SchemaStep::CreateFresh]);
        return steps;
    }
    if version < 2 {
        steps.push(SchemaStep::AddV2Columns);
    }
    if version < 3 {
        steps.push(SchemaStep::AddV3Column);
    }
    assert(steps@ =~= schema_plan_spec(version as int, table_exists));
    steps
}

/// What a schema holds: its stamped version, the report table, the
/// second-version columns and the cutoff-kind column.
pub struct SchemaState {
    pub version: int,
    pub table: bool,
    pub v2_columns: bool,
    pub v3_column: bool,
}

pub open spec fn apply_step(s: SchemaState, step: SchemaStep) -> SchemaState {
    match step {
        SchemaStep::CreateFresh => SchemaState { version: 3, table: true, v2_columns: true, v3_column: true },
        SchemaStep::AddV2Columns => SchemaState { version: 2, v2_columns: true, ..s },
        SchemaStep::AddV3Column => SchemaState { version: 3, v3_column: true, ..s },
    }
}

pub open spec fn apply_steps(s: SchemaState, steps: Seq<SchemaStep>) -> SchemaState
    decreases steps.len(),
{
    if steps.len() == 0 {
        s
    } else {
        apply_steps(apply_step(s, steps[0]), steps.drop_first())
    }
}

/// A database whose version stamp does not overstate its columns.
pub open spec fn schema_consistent(s: SchemaState) -> bool {
    &&& 0 <= s.version <= SCHEMA_VERSION
    &&& s.version >= 1 ==> s.table
    &&& s.version >= 2 ==> s.v2_columns
    &&& s.version >= 3 ==> s.v3_column
}

pub open spec fn current_schema() -> SchemaState {
    SchemaState { version: 3, table: true, v2_columns: true, v3_column: true }
}

/// Whatever state a consistent database is in, versioned or not, new or
/// pre-existing, its migration plan leaves it at the current version with
/// the report table and every column of the current schema.
pub proof fn law_migration_reaches_current_schema(s: SchemaState)
    requires
        schema_consistent(s),
    ensures
        apply_steps(s, schema_plan_spec(s.version, s.table)) == current_schema(),
{
    let plan = schema_plan_spec(s.version, s.table);
    if s.version == 0 && !s.table {
        assert(plan.drop_first() =~= Seq::<SchemaStep>::empty());
        assert(apply_steps(apply_step(s, plan[0]), plan.drop_first()) == apply_step(s, plan[0]));
    } else if s.version < 2 {
        assert(plan =~= seq![SchemaStep::AddV2Columns, SchemaStep::AddV3Column]);
        let s1 = apply_step(s, SchemaStep::AddV2Columns);
        let s2 = apply_step(s1, SchemaStep::AddV3Column);
        assert(plan.drop_first() =~= seq![SchemaStep::AddV3Column]);
        assert(plan.drop_first().drop_first() =~= Seq::<SchemaStep>::empty());
        assert(apply_steps(s2, plan.drop_first().drop_first()) == s2);
        assert(apply_steps(s1, plan.drop_first()) == s2);
    } else if s.version < 3 {
        assert(plan =~= seq![SchemaStep::AddV3Column]);
        assert(plan.drop_first() =~= Seq::<SchemaStep>::empty());
        let s1 = apply_step(s, SchemaStep::AddV3Column);
        assert(apply_steps(s1, plan.drop_first()) == s1);
    } else {
        assert(plan =~= Seq::<SchemaStep>::empty());
    }
}

/// Content fingerprint of a file from its first bytes: the BLAKE3 digest, in
/// lower-case hex, of at most its first 64 KiB.
pub fn content_fingerprint(head: &[u8]) -> (r: String)
    ensures
        r@ == blake3_hex_of(head@.subrange(0, if head@.len() <= FINGERPRINT_BYTES { head@.len() as int } else { FINGERPRINT_BYTES as int })),
        r@.len() == 64,
{
    let n = if head.len() <= FINGERPRINT_BYTES {
        head.len()
    } else {
        FINGERPRINT_BYTES
    };
    blake3_hex(&head[0..n])
}


/// Header line of the CSV export.
pub open spec fn csv_header_spec() -> Seq<char> {
    "ID,Ruta,Tamano_Bytes,Contenedor,Codec,SampleRate,BitDepth,Canales,Duracion_ms,Veredicto,Confianza,LLR,AnchoBanda_Hz,Pendiente_dBOct,TruePeak_dBTP,LUFS,Clipping,Offset_DC,CorrelacionEstereo,Resumen"@
}

/// Header line of the CSV export.
pub fn csv_header() -> (r: &'static str)
    ensures
        r@ == csv_header_spec(),
{
    "ID,Ruta,Tamano_Bytes,Contenedor,Codec,SampleRate,BitDepth,Canales,Duracion_ms,Veredicto,Confianza,LLR,AnchoBanda_Hz,Pendiente_dBOct,TruePeak_dBTP,LUFS,Clipping,Offset_DC,CorrelacionEstereo,Resumen"
}

/// A text with every double quote doubled, for a quoted CSV field.
pub open spec fn csv_escape_spec(s: Seq<char>) -> Seq<char>
    decreases s.len(),
{
    if s.len() == 0 {
        Seq::empty()
    } else {
        csv_escape_spec(s.drop_last()) + (if s.last() == '"' {
            seq!['"', '"']
        } else {
            seq![s.last()]
        })
    }
}

/// Doubles the double quotes of a text for a quoted CSV field.
pub fn csv_escape_quotes(s: &str) -> (r: String)
    ensures
        r@ == csv_escape_spec(s@),
{
    let n = s.unicode_len();
    let mut out: Vec<char> = Vec::new();
    let mut i: usize = 0;
    assert(s@.subrange(0, 0) =~= Seq::<char>::empty());
    while i < n
        invariant
            n == s@.len(),
            i <= n,
            out@ == csv_escape_spec(s@.subrange(0, i as int)),
        decreases n - i,
    {
        let c = s.get_char(i);
        assert(s@.subrange(0, i + 1).drop_last() =~= s@.subrange(0, i as int));
        if c == '"' {
            out.push('"');
        }
        out.push(c);
        assert(out@ =~= csv_escape_spec(s@.subrange(0, i + 1)));
        i = i + 1;
    }
    assert(s@.subrange(0, n as int) =~= s@);
    chars_to_string(&out)
}

/// Reading a doubled-quote field back: a pair of quotes is one quote.
pub open spec fn csv_unescape_spec(t: Seq<char>) -> Seq<char>
    decreases t.len(),
{
    if t.len() == 0 {
        Seq::empty()
    } else if t.len() >= 2 && t[0] == '"' && t[1] == '"' {
        seq!['"'] + csv_unescape_spec(t.subrange(2, t.len() as int))
    } else {
        seq![t[0]] + csv_unescape_spec(t.drop_first())
    }
}

proof fn lemma_csv_escape_front(s: Seq<char>)
    requires
        s.len() > 0,
    ensures
        csv_escape_spec(s) == (if s[0] == '"' {
            seq!['"', '"']
        } else {
            seq![s[0]]
        }) + csv_escape_spec(s.drop_first()),
    decreases s.len(),
{
    if s.len() == 1 {
        assert(s.drop_last() =~= Seq::<char>::empty());
        assert(s.drop_first() =~= Seq::<char>::empty());
    } else {
        lemma_csv_escape_front(s.drop_last());
        assert(s.drop_last().drop_first() =~= s.drop_first().drop_last());
        assert(s.drop_first().last() == s.last());
        let h = if s[0] == '"' {
            seq!['"', '"']
        } else {
            seq![s[0]]
        };
        let t = if s.last() == '"' {
            seq!['"', '"']
        } else {
            seq![s.last()]
        };
        assert((h + csv_escape_spec(s.drop_first().drop_last())) + t =~= h + (csv_escape_spec(
            s.drop_first().drop_last(),
        ) + t));
    }
}

/// Quote doubling loses nothing: reading the field back gives the text.
pub proof fn law_csv_escape_roundtrip(s: Seq<char>)
    ensures
        csv_unescape_spec(csv_escape_spec(s)) == s,
    decreases s.len(),
{
    if s.len() > 0 {
        lemma_csv_escape_front(s);
        law_csv_escape_roundtrip(s.drop_first());
        let rest = csv_escape_spec(s.drop_first());
        if s[0] == '"' {
            let t = seq!['"', '"'] + rest;
            assert(t.subrange(2, t.len() as int) =~= rest);
        } else {
            let t = seq![s[0]] + rest;
            assert(t.drop_first() =~= rest);
            if t.len() >= 2 {
                assert(t[0] != '"');
            }
        }
        assert(seq![s[0]] + s.drop_first() =~= s);
    }
}

/// Whether a failed `ALTER TABLE ... ADD COLUMN` of a migration only met a
/// column that already exists, which a migration tolerates; any other
/// failure (I/O, lock, full disk) is a real error.
pub fn is_duplicate_column_error(message: &str) -> (r: bool)
    ensures
        r == text_contains_spec(message@, "duplicate column name"@),
{
    text_contains(message, "duplicate column name")
}

/// The restrictions of a listing: a verdict filter other than "" or "ALL"
/// binds the verdict as the first parameter; a non-empty search binds a
/// pattern that holds the search text escaped between two `%` wildcards,
/// from which the text reads back unchanged; with neither, the listing is
/// not restricted at all. Every condition comes with exactly one parameter.
pub proof fn law_listing_restrictions(f: Option<Seq<char>>, s: Option<Seq<char>>)
    ensures
        ({
            let (cond, params) = filter_spec(f, s);
            let fa = f matches Some(v) && v.len() > 0 && v != "ALL"@;
            let sa = s matches Some(t) && t.len() > 0;
            &&& params.len() == (if fa { 1int } else { 0 }) + (if sa { 1int } else { 0 })
            &&& !fa && !sa ==> cond.len() == 0
            &&& fa ==> params[0] == f.unwrap()
            &&& sa ==> params.last().len() >= 2 && params.last()[0] == '%' && params.last().last() == '%'
                && unescape_like_spec(params.last().subrange(1, params.last().len() - 1)) == s.unwrap()
        }),
{
    if s matches Some(t) && t.len() > 0 {
        let t = s.unwrap();
        let p = "%"@ + escape_like_spec(t) + "%"@;
        reveal_strlit("%");
        assert(p.subrange(1, p.len() - 1) =~= escape_like_spec(t));
        law_escape_like_roundtrip(t);
    }
}

} // verus!
