//! Forensic inspection of the first and last bytes of an audio file:
//! real container magic, extension lies, residual lossy-encoder signatures
//! and legitimate DJ or export-software metadata.
use vstd::prelude::*;
use vstd::utf8::{decode_utf8, valid_utf8};
use crate::text::{strip_char, strip_char_ends, text_eq};
use crate::wrappers::{lowercase_of, to_lowercase_text, utf8_to_string};

verus! {

/// Whether `needle` stands in `hay` at offset `i`.
pub open spec fn occurs_at(hay: Seq<u8>, needle: Seq<u8>, i: int) -> bool {
    0 <= i && i + needle.len() <= hay.len() && hay.subrange(i, i + needle.len()) == needle
}

/// First offset at or after `i` where `needle` stands in `hay`.
pub open spec fn find_from(hay: Seq<u8>, needle: Seq<u8>, i: int) -> Option<int>
    decreases hay.len() - i,
{
    if i < 0 || i >= hay.len() || i + needle.len() > hay.len() {
        None
    } else if hay.subrange(i, i + needle.len()) == needle {
        Some(i)
    } else {
        find_from(hay, needle, i + 1)
    }
}

/// First offset where `needle` stands in `hay`.
pub open spec fn find_spec(hay: Seq<u8>, needle: Seq<u8>) -> Option<int> {
    find_from(hay, needle, 0)
}

proof fn lemma_find_from_first(hay: Seq<u8>, needle: Seq<u8>, i: int)
    requires
        0 <= i,
        needle.len() > 0,
    ensures
        match find_from(hay, needle, i) {
            Some(p) => i <= p && occurs_at(hay, needle, p) && forall|j: int|
                i <= j < p ==> !occurs_at(hay, needle, j),
            None => forall|j: int| i <= j ==> !occurs_at(hay, needle, j),
        },
    decreases hay.len() - i,
{
    if i >= hay.len() || i + needle.len() > hay.len() {
    } else if hay.subrange(i, i + needle.len()) == needle {
    } else {
        lemma_find_from_first(hay, needle, i + 1);
    }
}

/// `find_spec` is the first occurrence, and `None` means no occurrence.
pub proof fn lemma_find_is_first_occurrence(hay: Seq<u8>, needle: Seq<u8>)
    requires
        needle.len() > 0,
    ensures
        match find_spec(hay, needle) {
            Some(p) => occurs_at(hay, needle, p) && forall|j: int|
                0 <= j < p ==> !occurs_at(hay, needle, j),
            None => forall|j: int| !occurs_at(hay, needle, j),
        },
{
    lemma_find_from_first(hay, needle, 0);
}

/// Whether `needle` occurs at offset `off` of `hay`.
pub fn occurs_at_offset(hay: &[u8], needle: &[u8], off: usize) -> (r: bool)
    ensures
        r == occurs_at(hay@, needle@, off as int),
{
    if off > hay.len() || needle.len() > hay.len() - off {
        return false;
    }
    let mut k: usize = 0;
    while k < needle.len()
        invariant
            off + needle.len() <= hay.len(),
            k <= needle.len(),
            forall|t: int| 0 <= t < k ==> hay@[off + t] == needle@[t],
        decreases needle.len() - k,
    {
        if hay[off + k] != needle[k] {
            assert(hay@.subrange(off as int, off + needle.len())[k as int] != needle@[k as int]);
            return false;
        }
        k = k + 1;
    }
    assert(hay@.subrange(off as int, off + needle@.len()) =~= needle@);
    true
}

/// Offset of the first occurrence of `needle` in `haystack`.
pub fn find_subsequence_pos(haystack: &[u8], needle: &[u8]) -> (r: Option<usize>)
    requires
        needle@.len() > 0,
    ensures
        r matches Some(p) ==> find_spec(haystack@, needle@) == Some(p as int),
        r is None ==> find_spec(haystack@, needle@) is None,
        match r {
            Some(p) => occurs_at(haystack@, needle@, p as int) && forall|j: int|
                0 <= j < p ==> !occurs_at(haystack@, needle@, j),
            None => forall|j: int| !occurs_at(haystack@, needle@, j),
        },
{
    proof {
        lemma_find_is_first_occurrence(haystack@, needle@);
    }
    if needle.len() > haystack.len() {
        return None;
    }
    let last = haystack.len() - needle.len();
    let mut i: usize = 0;
    while i <= last
        invariant
            needle@.len() > 0,
            last + needle.len() == haystack.len(),
            i <= last + 1,
            find_spec(haystack@, needle@) == find_from(haystack@, needle@, i as int),
            forall|j: int| 0 <= j < i ==> !occurs_at(haystack@, needle@, j),
        decreases last + 1 - i,
    {
        if occurs_at_offset(haystack, needle, i) {
            assert(find_from(haystack@, needle@, i as int) == Some(i as int));
            return Some(i);
        }
        i = i + 1;
    }
    None
}

/// Whether `needle` occurs anywhere in `haystack`.
pub fn find_subsequence(haystack: &[u8], needle: &[u8]) -> (r: bool)
    requires
        needle@.len() > 0,
    ensures
        r == find_spec(haystack@, needle@) is Some,
        r == exists|j: int| occurs_at(haystack@, needle@, j),
{
    let p = find_subsequence_pos(haystack, needle);
    p.is_some()
}

} // verus!

verus! {

pub open spec fn tag_riff() -> Seq<u8> { seq![0x52u8, 0x49, 0x46, 0x46] }
pub open spec fn tag_wave() -> Seq<u8> { seq![0x57u8, 0x41, 0x56, 0x45] }
pub open spec fn tag_flac() -> Seq<u8> { seq![0x66u8, 0x4C, 0x61, 0x43] }
pub open spec fn tag_form() -> Seq<u8> { seq![0x46u8, 0x4F, 0x52, 0x4D] }
pub open spec fn tag_aiff() -> Seq<u8> { seq![0x41u8, 0x49, 0x46, 0x46] }
pub open spec fn tag_aifc() -> Seq<u8> { seq![0x41u8, 0x49, 0x46, 0x43] }
pub open spec fn tag_id3() -> Seq<u8> { seq![0x49u8, 0x44, 0x33] }
pub open spec fn tag_ftyp() -> Seq<u8> { seq![0x66u8, 0x74, 0x79, 0x70] }
pub open spec fn tag_moov() -> Seq<u8> { seq![0x6Du8, 0x6F, 0x6F, 0x76] }
pub open spec fn tag_oggs() -> Seq<u8> { seq![0x4Fu8, 0x67, 0x67, 0x53] }
pub open spec fn tag_id3_chunk_lower() -> Seq<u8> { seq![0x69u8, 0x64, 0x33, 0x20] }
pub open spec fn tag_id3_chunk_upper() -> Seq<u8> { seq![0x49u8, 0x44, 0x33, 0x20] }
pub open spec fn tag_xing() -> Seq<u8> { seq![0x58u8, 0x69, 0x6E, 0x67] }
pub open spec fn tag_info() -> Seq<u8> { seq![0x49u8, 0x6E, 0x66, 0x6F] }
pub open spec fn tag_lame() -> Seq<u8> { seq![0x4Cu8, 0x41, 0x4D, 0x45] }
pub open spec fn tag_lame3() -> Seq<u8> { seq![0x4Cu8, 0x41, 0x4D, 0x45, 0x33, 0x2E] }
pub open spec fn tag_lavf() -> Seq<u8> { seq![0x4Cu8, 0x61, 0x76, 0x66] }

/// What the forensic inspection found, as the view of [`ForensicEvidence`].
pub struct ForensicView {
    pub has_xing_lame_header: bool,
    pub has_lossy_encoder_signature: bool,
    pub encoder_string: Option<Seq<char>>,
    pub is_extension_mismatch: bool,
    pub has_dj_metadata: bool,
    pub declared_extension: Seq<char>,
    pub detected_magic_type: Seq<char>,
    pub descriptions: Seq<Seq<char>>,
}

/// What the forensic inspection found in the bytes of one file.
#[derive(Debug, Clone, PartialEq, Eq)]
pub struct ForensicEvidence {
    pub has_xing_lame_header: bool,
    pub has_lossy_encoder_signature: bool,
    pub encoder_string: Option<String>,
    pub is_extension_mismatch: bool,
    pub has_dj_metadata: bool,
    pub declared_extension: String,
    pub detected_magic_type: String,
    pub descriptions: Vec<String>,
}

pub open spec fn opt_text(o: Option<String>) -> Option<Seq<char>> {
    match o {
        Some(s) => Some(s@),
        None => None,
    }
}

impl View for ForensicEvidence {
    type V = ForensicView;

    open spec fn view(&self) -> ForensicView {
        ForensicView {
            has_xing_lame_header: self.has_xing_lame_header,
            has_lossy_encoder_signature: self.has_lossy_encoder_signature,
            encoder_string: opt_text(self.encoder_string),
            is_extension_mismatch: self.is_extension_mismatch,
            has_dj_metadata: self.has_dj_metadata,
            declared_extension: self.declared_extension@,
            detected_magic_type: self.detected_magic_type@,
            descriptions: self.descriptions@.map_values(|d: String| d@),
        }
    }
}

pub open spec fn is_riff_wav(h: Seq<u8>) -> bool {
    occurs_at(h, tag_riff(), 0) && occurs_at(h, tag_wave(), 8)
}

pub open spec fn is_flac(h: Seq<u8>) -> bool {
    occurs_at(h, tag_flac(), 0)
}

pub open spec fn is_aiff(h: Seq<u8>) -> bool {
    occurs_at(h, tag_form(), 0) && (occurs_at(h, tag_aiff(), 8) || occurs_at(h, tag_aifc(), 8))
}

pub open spec fn is_mp3_id3(h: Seq<u8>) -> bool {
    occurs_at(h, tag_id3(), 0)
}

/// An MPEG audio frame sync: eleven set bits.
pub open spec fn is_mp3_sync(h: Seq<u8>) -> bool {
    h.len() >= 2 && h[0] == 0xFF && h[1] >= 0xE0
}

pub open spec fn is_mp4(h: Seq<u8>) -> bool {
    occurs_at(h, tag_ftyp(), 4) || occurs_at(h, tag_moov(), 4)
}

pub open spec fn is_ogg(h: Seq<u8>) -> bool {
    occurs_at(h, tag_oggs(), 0)
}

/// The container that the magic bytes reveal.
pub open spec fn magic_type(h: Seq<u8>) -> Seq<char> {
    if is_riff_wav(h) {
        "WAV (RIFF)"@
    } else if is_flac(h) {
        "FLAC"@
    } else if is_aiff(h) {
        "AIFF"@
    } else if is_mp3_id3(h) || is_mp3_sync(h) {
        "MP3"@
    } else if is_mp4(h) {
        "MP4 / AAC"@
    } else if is_ogg(h) {
        "OGG"@
    } else {
        "UNKNOWN"@
    }
}

/// A lossless extension on a file whose bytes are a lossy bitstream.
pub open spec fn extension_mismatch(ext: Seq<char>, h: Seq<u8>) -> bool {
    ((ext == "wav"@ && !is_riff_wav(h)) || (ext == "flac"@ && !is_flac(h)) || (ext == "aif"@
        && !is_aiff(h)) || (ext == "aiff"@ && !is_aiff(h))) && (is_mp3_id3(h) || is_mp3_sync(h)
        || is_mp4(h) || is_ogg(h))
}

/// A RIFF WAV with an ID3 chunk, as DJ software writes it.
pub open spec fn dj_metadata(h: Seq<u8>) -> bool {
    is_riff_wav(h) && (find_spec(h, tag_id3_chunk_lower()) is Some || find_spec(
        h,
        tag_id3_chunk_upper(),
    ) is Some)
}

/// Offset of the residual Xing (or else Info) frame header.
pub open spec fn xing_pos(h: Seq<u8>) -> Option<int> {
    if find_spec(h, tag_xing()) is Some {
        find_spec(h, tag_xing())
    } else {
        find_spec(h, tag_info())
    }
}

/// The 160-byte window after a Xing header is read whenever more than 128
/// bytes follow the header, so such a header must have 160 bytes after it.
pub open spec fn xing_window_fits(h: Seq<u8>) -> bool {
    match xing_pos(h) {
        Some(p) => h.len() <= p + 128 || p + 160 <= h.len(),
        None => true,
    }
}

pub open spec fn min_int(a: int, b: int) -> int {
    if a <= b {
        a
    } else {
        b
    }
}

/// Length of the leading run of printable ASCII bytes (0x20 to 0x7E).
pub open spec fn printable_run(s: Seq<u8>, k: int) -> int
    decreases s.len() - k,
{
    if k < 0 || k >= s.len() || s[k] < 0x20 || s[k] > 0x7E {
        k
    } else {
        printable_run(s, k + 1)
    }
}

/// Spaces removed at both ends (in a printable ASCII run, the only whitespace).
pub open spec fn trim_spaces(s: Seq<char>) -> Seq<char> {
    strip_char_ends(s, ' ')
}

/// Findings of the magic, mismatch and DJ-metadata checks.
pub open spec fn container_findings(ext: Seq<char>, h: Seq<u8>) -> ForensicView {
    let magic = magic_type(h);
    let mismatch = extension_mismatch(ext, h);
    let dj = dj_metadata(h);
    let d1: Seq<Seq<char>> = if mismatch {
        seq![
            "Discrepancia crítica de extensión: declarada ."@ + ext
                + " pero el contenedor binario real es "@ + magic,
        ]
    } else {
        Seq::empty()
    };
    let d2: Seq<Seq<char>> = if dj {
        d1.push("Chunk ID3 de metadatos detectado (legítimo de software DJ: Rekordbox/Serato)"@)
    } else {
        d1
    };
    ForensicView {
        has_xing_lame_header: false,
        has_lossy_encoder_signature: false,
        encoder_string: None,
        is_extension_mismatch: mismatch,
        has_dj_metadata: dj,
        declared_extension: ext,
        detected_magic_type: magic,
        descriptions: d2,
    }
}

/// Findings of the encoder-signature scan of the header.
pub open spec fn signature_findings(v: ForensicView, h: Seq<u8>) -> ForensicView {
    if let Some(p) = xing_pos(h) {
        let v1 = ForensicView {
            has_xing_lame_header: true,
            has_lossy_encoder_signature: true,
            descriptions: v.descriptions.push("Cabecera Xing/Info residual de trama MP3 detectada"@),
            ..v
        };
        if h.len() > p + 128 {
            let window = h.subrange(p, p + 160);
            match find_spec(window, tag_lame()) {
                Some(l) => {
                    let bytes = window.subrange(l, min_int(l + 9, window.len() as int));
                    if valid_utf8(bytes) {
                        ForensicView {
                            encoder_string: Some(decode_utf8(bytes)),
                            descriptions: v1.descriptions.push(
                                "Firma de encoder MP3 residual: "@ + decode_utf8(bytes),
                            ),
                            ..v1
                        }
                    } else {
                        v1
                    }
                },
                None => v1,
            }
        } else {
            v1
        }
    } else if let Some(p) = find_spec(h, tag_lame3()) {
        let bytes = h.subrange(p, min_int(p + 9, h.len() as int));
        let v1 = ForensicView {
            has_xing_lame_header: true,
            has_lossy_encoder_signature: true,
            ..v
        };
        if valid_utf8(bytes) {
            ForensicView {
                encoder_string: Some(decode_utf8(bytes)),
                descriptions: v1.descriptions.push(
                    "Firma LAME3 residual encontrada: "@ + decode_utf8(bytes),
                ),
                ..v1
            }
        } else {
            v1
        }
    } else if let Some(p) = find_spec(h, tag_lavf()) {
        let window = h.subrange(p, min_int(p + 32, h.len() as int));
        let bytes = window.subrange(0, printable_run(window, 0));
        if valid_utf8(bytes) {
            let clean = trim_spaces(decode_utf8(bytes));
            ForensicView {
                encoder_string: Some(clean),
                descriptions: v.descriptions.push("Software de exportación: "@ + clean),
                ..v
            }
        } else {
            v
        }
    } else {
        v
    }
}

/// Findings of the LAME scan of the last bytes of the file.
pub open spec fn tail_findings(v: ForensicView, tail: Option<Seq<u8>>) -> ForensicView {
    match tail {
        Some(t) => match find_spec(t, tag_lame3()) {
            Some(p) => {
                let bytes = t.subrange(p, min_int(p + 9, t.len() as int));
                let v1 = ForensicView {
                    has_xing_lame_header: true,
                    has_lossy_encoder_signature: true,
                    ..v
                };
                if valid_utf8(bytes) && v1.encoder_string is None {
                    ForensicView {
                        encoder_string: Some(decode_utf8(bytes)),
                        descriptions: v1.descriptions.push(
                            "Firma LAME residual al final del archivo: "@ + decode_utf8(bytes),
                        ),
                        ..v1
                    }
                } else {
                    v1
                }
            },
            None => v,
        },
        None => v,
    }
}

/// The whole forensic inspection. Files shorter than 32 bytes are not inspected.
pub open spec fn forensic_spec(
    ext: Seq<char>,
    file_len: int,
    h: Seq<u8>,
    tail: Option<Seq<u8>>,
) -> ForensicView {
    if file_len < 32 {
        ForensicView {
            has_xing_lame_header: false,
            has_lossy_encoder_signature: false,
            encoder_string: None,
            is_extension_mismatch: false,
            has_dj_metadata: false,
            declared_extension: ext,
            detected_magic_type: Seq::empty(),
            descriptions: Seq::empty(),
        }
    } else {
        tail_findings(signature_findings(container_findings(ext, h), h), tail)
    }
}

pub open spec fn opt_bytes(o: Option<&[u8]>) -> Option<Seq<u8>> {
    match o {
        Some(t) => Some(t@),
        None => None,
    }
}


fn bytes_of(v: Vec<u8>, Ghost(expected): Ghost<Seq<u8>>) -> (r: Vec<u8>)
    requires
        v@ =~= expected,
    ensures
        r@ == expected,
{
    v
}

fn make_tag_riff() -> (r: Vec<u8>) ensures r@ == tag_riff() {
    bytes_of(vec![0x52u8, 0x49, 0x46, 0x46], Ghost(tag_riff()))
}
fn make_tag_wave() -> (r: Vec<u8>) ensures r@ == tag_wave() {
    bytes_of(vec![0x57u8, 0x41, 0x56, 0x45], Ghost(tag_wave()))
}
fn make_tag_flac() -> (r: Vec<u8>) ensures r@ == tag_flac() {
    bytes_of(vec![0x66u8, 0x4C, 0x61, 0x43], Ghost(tag_flac()))
}
fn make_tag_form() -> (r: Vec<u8>) ensures r@ == tag_form() {
    bytes_of(vec![0x46u8, 0x4F, 0x52, 0x4D], Ghost(tag_form()))
}
fn make_tag_aiff() -> (r: Vec<u8>) ensures r@ == tag_aiff() {
    bytes_of(vec![0x41u8, 0x49, 0x46, 0x46], Ghost(tag_aiff()))
}
fn make_tag_aifc() -> (r: Vec<u8>) ensures r@ == tag_aifc() {
    bytes_of(vec![0x41u8, 0x49, 0x46, 0x43], Ghost(tag_aifc()))
}
fn make_tag_id3() -> (r: Vec<u8>) ensures r@ == tag_id3() {
    bytes_of(vec![0x49u8, 0x44, 0x33], Ghost(tag_id3()))
}
fn make_tag_ftyp() -> (r: Vec<u8>) ensures r@ == tag_ftyp() {
    bytes_of(vec![0x66u8, 0x74, 0x79, 0x70], Ghost(tag_ftyp()))
}
fn make_tag_moov() -> (r: Vec<u8>) ensures r@ == tag_moov() {
    bytes_of(vec![0x6Du8, 0x6F, 0x6F, 0x76], Ghost(tag_moov()))
}
fn make_tag_oggs() -> (r: Vec<u8>) ensures r@ == tag_oggs() {
    bytes_of(vec![0x4Fu8, 0x67, 0x67, 0x53], Ghost(tag_oggs()))
}
fn make_tag_id3_chunk_lower() -> (r: Vec<u8>) ensures r@ == tag_id3_chunk_lower() {
    bytes_of(vec![0x69u8, 0x64, 0x33, 0x20], Ghost(tag_id3_chunk_lower()))
}
fn make_tag_id3_chunk_upper() -> (r: Vec<u8>) ensures r@ == tag_id3_chunk_upper() {
    bytes_of(vec![0x49u8, 0x44, 0x33, 0x20], Ghost(tag_id3_chunk_upper()))
}
fn make_tag_xing() -> (r: Vec<u8>) ensures r@ == tag_xing() {
    bytes_of(vec![0x58u8, 0x69, 0x6E, 0x67], Ghost(tag_xing()))
}
fn make_tag_info() -> (r: Vec<u8>) ensures r@ == tag_info() {
    bytes_of(vec![0x49u8, 0x6E, 0x66, 0x6F], Ghost(tag_info()))
}
fn make_tag_lame() -> (r: Vec<u8>) ensures r@ == tag_lame() {
    bytes_of(vec![0x4Cu8, 0x41, 0x4D, 0x45], Ghost(tag_lame()))
}
fn make_tag_lame3() -> (r: Vec<u8>) ensures r@ == tag_lame3() {
    bytes_of(vec![0x4Cu8, 0x41, 0x4D, 0x45, 0x33, 0x2E], Ghost(tag_lame3()))
}
fn make_tag_lavf() -> (r: Vec<u8>) ensures r@ == tag_lavf() {
    bytes_of(vec![0x4Cu8, 0x61, 0x76, 0x66], Ghost(tag_lavf()))
}

/// The container that the magic bytes of a header reveal.
pub fn detect_magic_type(h: &[u8]) -> (r: String)
    ensures
        r@ == magic_type(h@),
{
    let riff = occurs_at_offset(h, make_tag_riff().as_slice(), 0)
        && occurs_at_offset(h, make_tag_wave().as_slice(), 8);
    if riff {
        return String::from_str("WAV (RIFF)");
    }
    if occurs_at_offset(h, make_tag_flac().as_slice(), 0) {
        return String::from_str("FLAC");
    }
    if occurs_at_offset(h, make_tag_form().as_slice(), 0) && (occurs_at_offset(
        h,
        make_tag_aiff().as_slice(),
        8,
    ) || occurs_at_offset(h, make_tag_aifc().as_slice(), 8)) {
        return String::from_str("AIFF");
    }
    if occurs_at_offset(h, make_tag_id3().as_slice(), 0) || has_mp3_sync(h) {
        return String::from_str("MP3");
    }
    if occurs_at_offset(h, make_tag_ftyp().as_slice(), 4) || occurs_at_offset(
        h,
        make_tag_moov().as_slice(),
        4,
    ) {
        return String::from_str("MP4 / AAC");
    }
    if occurs_at_offset(h, make_tag_oggs().as_slice(), 0) {
        return String::from_str("OGG");
    }
    String::from_str("UNKNOWN")
}

/// Whether the header starts with an MPEG audio frame sync.
pub fn has_mp3_sync(h: &[u8]) -> (r: bool)
    ensures
        r == is_mp3_sync(h@),
{
    if h.len() < 2 {
        return false;
    }
    let b1 = h[1];
    assert((b1 & 0xE0 == 0xE0) == (b1 >= 0xE0)) by (bit_vector);
    h[0] == 0xFF && (b1 & 0xE0) == 0xE0
}

fn is_riff_wav_exec(h: &[u8]) -> (r: bool)
    ensures
        r == is_riff_wav(h@),
{
    occurs_at_offset(h, make_tag_riff().as_slice(), 0) && occurs_at_offset(
        h,
        make_tag_wave().as_slice(),
        8,
    )
}

fn is_aiff_exec(h: &[u8]) -> (r: bool)
    ensures
        r == is_aiff(h@),
{
    occurs_at_offset(h, make_tag_form().as_slice(), 0) && (occurs_at_offset(
        h,
        make_tag_aiff().as_slice(),
        8,
    ) || occurs_at_offset(h, make_tag_aifc().as_slice(), 8))
}

fn is_lossy_bitstream_exec(h: &[u8]) -> (r: bool)
    ensures
        r == (is_mp3_id3(h@) || is_mp3_sync(h@) || is_mp4(h@) || is_ogg(h@)),
{
    occurs_at_offset(h, make_tag_id3().as_slice(), 0) || has_mp3_sync(h) || occurs_at_offset(
        h,
        make_tag_ftyp().as_slice(),
        4,
    ) || occurs_at_offset(h, make_tag_moov().as_slice(), 4) || occurs_at_offset(
        h,
        make_tag_oggs().as_slice(),
        0,
    )
}

/// Whether a lossless extension hides a lossy bitstream.
pub fn has_extension_mismatch(ext: &str, h: &[u8]) -> (r: bool)
    ensures
        r == extension_mismatch(ext@, h@),
{
    let riff = is_riff_wav_exec(h);
    let flac = occurs_at_offset(h, make_tag_flac().as_slice(), 0);
    let aiff = is_aiff_exec(h);
    let lie = (text_eq(ext, "wav") && !riff) || (text_eq(ext, "flac") && !flac) || (text_eq(
        ext,
        "aif",
    ) && !aiff) || (text_eq(ext, "aiff") && !aiff);
    lie && is_lossy_bitstream_exec(h)
}

fn push_text(v: &mut Vec<String>, s: String)
    ensures
        final(v)@.map_values(|d: String| d@) == old(v)@.map_values(|d: String| d@).push(s@),
{
    let ghost before = v@;
    v.push(s);
    assert(v@.map_values(|d: String| d@) =~= before.map_values(|d: String| d@).push(s@));
}

fn container_step(ext: &str, h: &[u8]) -> (r: ForensicEvidence)
    ensures
        r@ == container_findings(ext@, h@),
{
    let magic = detect_magic_type(h);
    let mismatch = has_extension_mismatch(ext, h);
    let dj = is_riff_wav_exec(h) && (find_subsequence(h, make_tag_id3_chunk_lower().as_slice())
        || find_subsequence(h, make_tag_id3_chunk_upper().as_slice()));
    let mut descriptions: Vec<String> = Vec::new();
    assert(descriptions@.map_values(|d: String| d@) =~= Seq::<Seq<char>>::empty());
    if mismatch {
        let mut d = String::from_str("Discrepancia crítica de extensión: declarada .");
        d.append(ext);
        d.append(" pero el contenedor binario real es ");
        d.append(magic.as_str());
        push_text(&mut descriptions, d);
    }
    if dj {
        push_text(
            &mut descriptions,
            String::from_str(
                "Chunk ID3 de metadatos detectado (legítimo de software DJ: Rekordbox/Serato)",
            ),
        );
    }
    let r = ForensicEvidence {
        has_xing_lame_header: false,
        has_lossy_encoder_signature: false,
        encoder_string: None,
        is_extension_mismatch: mismatch,
        has_dj_metadata: dj,
        declared_extension: String::from_str(ext),
        detected_magic_type: magic,
        descriptions,
    };
    assert(r@.descriptions =~= container_findings(ext@, h@).descriptions);
    r
}

/// Number of leading bytes of `s` that are printable ASCII.
fn printable_prefix_len(s: &[u8]) -> (r: usize)
    ensures
        r as int == printable_run(s@, 0),
        r <= s.len(),
{
    let mut k: usize = 0;
    while k < s.len() && s[k] >= 0x20 && s[k] <= 0x7E
        invariant
            k <= s.len(),
            printable_run(s@, 0) == printable_run(s@, k as int),
        decreases s.len() - k,
    {
        k = k + 1;
    }
    k
}

/// Removes the spaces at both ends of a text.
pub fn trim_space_ends(s: &str) -> (r: String)
    ensures
        r@ == trim_spaces(s@),
{
    strip_char(s, ' ')
}

fn set_encoder(v: &mut ForensicEvidence, text: String, prefix: &str)
    ensures
        final(v)@ == (ForensicView {
            encoder_string: Some(text@),
            descriptions: old(v)@.descriptions.push(prefix@ + text@),
            ..old(v)@
        }),
{
    let mut d = String::from_str(prefix);
    d.append(text.as_str());
    push_text(&mut v.descriptions, d);
    v.encoder_string = Some(text);
}

fn signature_step(v: ForensicEvidence, h: &[u8]) -> (r: ForensicEvidence)
    requires
        xing_window_fits(h@),
    ensures
        r@ == signature_findings(v@, h@),
{
    let mut v = v;
    let xing = find_subsequence_pos(h, make_tag_xing().as_slice());
    let pos = if xing.is_some() {
        xing
    } else {
        find_subsequence_pos(h, make_tag_info().as_slice())
    };
    if let Some(p) = pos {
        v.has_xing_lame_header = true;
        v.has_lossy_encoder_signature = true;
        push_text(
            &mut v.descriptions,
            String::from_str("Cabecera Xing/Info residual de trama MP3 detectada"),
        );
        if h.len() > p && h.len() - p > 128 {
            let window = &h[p..p + 160];
            if let Some(l) = find_subsequence_pos(window, make_tag_lame().as_slice()) {
                let end = if l + 9 <= window.len() {
                    l + 9
                } else {
                    window.len()
                };
                if let Some(text) = utf8_to_string(&window[l..end]) {
                    set_encoder(&mut v, text, "Firma de encoder MP3 residual: ");
                }
            }
        }
        return v;
    }
    if let Some(p) = find_subsequence_pos(h, make_tag_lame3().as_slice()) {
        v.has_xing_lame_header = true;
        v.has_lossy_encoder_signature = true;
        let end = if h.len() - p >= 9 {
            p + 9
        } else {
            h.len()
        };
        if let Some(text) = utf8_to_string(&h[p..end]) {
            set_encoder(&mut v, text, "Firma LAME3 residual encontrada: ");
        }
        return v;
    }
    if let Some(p) = find_subsequence_pos(h, make_tag_lavf().as_slice()) {
        let end = if h.len() - p >= 32 {
            p + 32
        } else {
            h.len()
        };
        let window = &h[p..end];
        let run = printable_prefix_len(window);
        if let Some(text) = utf8_to_string(&window[0..run]) {
            let clean = trim_space_ends(text.as_str());
            set_encoder(&mut v, clean, "Software de exportación: ");
        }
    }
    v
}

fn tail_step(v: ForensicEvidence, tail: Option<&[u8]>) -> (r: ForensicEvidence)
    ensures
        r@ == tail_findings(v@, opt_bytes(tail)),
{
    let mut v = v;
    if let Some(t) = tail {
        if let Some(p) = find_subsequence_pos(t, make_tag_lame3().as_slice()) {
            v.has_xing_lame_header = true;
            v.has_lossy_encoder_signature = true;
            let end = if t.len() - p >= 9 {
                p + 9
            } else {
                t.len()
            };
            if let Some(text) = utf8_to_string(&t[p..end]) {
                if v.encoder_string.is_none() {
                    set_encoder(&mut v, text, "Firma LAME residual al final del archivo: ");
                }
            }
        }
    }
    v
}

/// Whether the forensic scan can read the 160-byte window that follows a
/// residual Xing/Info header; the scan is defined only on such headers.
pub fn xing_window_is_readable(h: &[u8]) -> (r: bool)
    ensures
        r == xing_window_fits(h@),
{
    let xing = find_subsequence_pos(h, make_tag_xing().as_slice());
    let pos = if xing.is_some() {
        xing
    } else {
        find_subsequence_pos(h, make_tag_info().as_slice())
    };
    match pos {
        Some(p) => h.len() - p <= 128 || h.len() - p >= 160,
        None => true,
    }
}

/// Forensic inspection of a file from its lower-cased extension, its length,
/// its first bytes (at most 64 KiB) and, when the file is longer than 4 KiB,
/// its last 4 KiB.
pub fn inspect_forensic_bytes(
    extension_lower: &str,
    file_len: u64,
    header: &[u8],
    tail: Option<&[u8]>,
) -> (r: ForensicEvidence)
    requires
        xing_window_fits(header@),
    ensures
        r@ == forensic_spec(extension_lower@, file_len as int, header@, opt_bytes(tail)),
{
    if file_len < 32 {
        let r = ForensicEvidence {
            has_xing_lame_header: false,
            has_lossy_encoder_signature: false,
            encoder_string: None,
            is_extension_mismatch: false,
            has_dj_metadata: false,
            declared_extension: String::from_str(extension_lower),
            detected_magic_type: String::new(),
            descriptions: Vec::new(),
        };
        assert(r@.descriptions =~= Seq::<Seq<char>>::empty());
        return r;
    }
    let v0 = container_step(extension_lower, header);
    let v1 = signature_step(v0, header);
    tail_step(v1, tail)
}


/// Forensic inspection of a file from its declared extension (any case), its
/// length, its first bytes (at most 64 KiB) and, when the file is longer than
/// 4 KiB and its end could be read, its last 4 KiB. The extension is compared
/// lower-cased.
pub fn analyze_forensic_headers(
    extension: &str,
    file_len: u64,
    header: &[u8],
    tail: Option<&[u8]>,
) -> (r: ForensicEvidence)
    requires
        xing_window_fits(header@),
    ensures
        r@ == forensic_spec(lowercase_of(extension@), file_len as int, header@, opt_bytes(tail)),
{
    let ext = to_lowercase_text(extension);
    inspect_forensic_bytes(ext.as_str(), file_len, header, tail)
}

/// Residual MPEG frame tags in the bytes: a Xing or Info header or a LAME3
/// tag in the header, or a LAME3 tag in the last bytes.
pub open spec fn has_mpeg_residue(h: Seq<u8>, tail: Option<Seq<u8>>) -> bool {
    xing_pos(h) is Some || find_spec(h, tag_lame3()) is Some || (tail matches Some(t) && find_spec(
        t,
        tag_lame3(),
    ) is Some)
}

/// Only residual MPEG frame tags mark a lossy encoder signature: the tag of
/// export software (Lavf), DJ metadata in a WAV or a mismatched extension
/// never do, and a file of fewer than 32 bytes is never marked.
pub proof fn law_lossy_signature_only_from_mpeg_residue(
    ext: Seq<char>,
    file_len: int,
    h: Seq<u8>,
    tail: Option<Seq<u8>>,
)
    ensures
        forensic_spec(ext, file_len, h, tail).has_lossy_encoder_signature <==> (file_len >= 32
            && has_mpeg_residue(h, tail)),
        forensic_spec(ext, file_len, h, tail).has_xing_lame_header
            == forensic_spec(ext, file_len, h, tail).has_lossy_encoder_signature,
{
}

/// Four bytes `a b c d` stand at offset `i` of `h`.
pub open spec fn bytes4_at(h: Seq<u8>, i: int, a: u8, b: u8, c: u8, d: u8) -> bool {
    0 <= i && i + 4 <= h.len() && h[i] == a && h[i + 1] == b && h[i + 2] == c && h[i + 3] == d
}

proof fn lemma_bytes4_tag(h: Seq<u8>, i: int, t: Seq<u8>)
    requires
        t.len() == 4,
        bytes4_at(h, i, t[0], t[1], t[2], t[3]),
    ensures
        occurs_at(h, t, i),
{
    assert(h.subrange(i, i + 4) =~= t);
}

/// The magic bytes decide the container a header is detected as, whatever
/// its extension: "RIFF" at 0 with "WAVE" at 8 is a WAV; "fLaC" at 0 is a
/// FLAC; "FORM" at 0 with "AIFF" or "AIFC" at 8 is an AIFF; "ID3" at 0 or an
/// MPEG frame sync is an MP3; "OggS" at 0 is an OGG (unless an MP4 box tag
/// "ftyp" or "moov" stands at 4). The inspection of a
/// file of at least 32 bytes reports that container.
pub proof fn law_magic_bytes_decide_the_container(ext: Seq<char>, file_len: int, h: Seq<u8>, tail: Option<Seq<u8>>)
    ensures
        bytes4_at(h, 0, 0x52, 0x49, 0x46, 0x46) && bytes4_at(h, 8, 0x57, 0x41, 0x56, 0x45)
            ==> magic_type(h) == "WAV (RIFF)"@,
        bytes4_at(h, 0, 0x66, 0x4C, 0x61, 0x43) ==> magic_type(h) == "FLAC"@,
        bytes4_at(h, 0, 0x46, 0x4F, 0x52, 0x4D) && (bytes4_at(h, 8, 0x41, 0x49, 0x46, 0x46)
            || bytes4_at(h, 8, 0x41, 0x49, 0x46, 0x43)) ==> magic_type(h) == "AIFF"@,
        h.len() >= 3 && h[0] == 0x49 && h[1] == 0x44 && h[2] == 0x33 ==> magic_type(h) == "MP3"@,
        h.len() >= 2 && h[0] == 0xFF && h[1] >= 0xE0 ==> magic_type(h) == "MP3"@,
        bytes4_at(h, 0, 0x4F, 0x67, 0x67, 0x53) && !bytes4_at(h, 4, 0x66, 0x74, 0x79, 0x70)
            && !bytes4_at(h, 4, 0x6D, 0x6F, 0x6F, 0x76) ==> magic_type(h) == "OGG"@,
        file_len >= 32 ==> forensic_spec(ext, file_len, h, tail).detected_magic_type == magic_type(h),
{
    if bytes4_at(h, 0, 0x52, 0x49, 0x46, 0x46) && bytes4_at(h, 8, 0x57, 0x41, 0x56, 0x45) {
        lemma_bytes4_tag(h, 0, tag_riff());
        lemma_bytes4_tag(h, 8, tag_wave());
    }
    if bytes4_at(h, 0, 0x66, 0x4C, 0x61, 0x43) {
        lemma_bytes4_tag(h, 0, tag_flac());
        assert(!occurs_at(h, tag_riff(), 0));
    }
    if bytes4_at(h, 0, 0x46, 0x4F, 0x52, 0x4D) {
        lemma_bytes4_tag(h, 0, tag_form());
        assert(!occurs_at(h, tag_riff(), 0));
        assert(!occurs_at(h, tag_flac(), 0));
        if bytes4_at(h, 8, 0x41, 0x49, 0x46, 0x46) {
            lemma_bytes4_tag(h, 8, tag_aiff());
        }
        if bytes4_at(h, 8, 0x41, 0x49, 0x46, 0x43) {
            lemma_bytes4_tag(h, 8, tag_aifc());
        }
    }
    if h.len() >= 3 && h[0] == 0x49 && h[1] == 0x44 && h[2] == 0x33 {
        assert(h.subrange(0, 3) =~= tag_id3());
        assert(!occurs_at(h, tag_riff(), 0));
        assert(!occurs_at(h, tag_flac(), 0));
        assert(!occurs_at(h, tag_form(), 0));
    }
    if h.len() >= 2 && h[0] == 0xFF && h[1] >= 0xE0 {
        assert(!occurs_at(h, tag_riff(), 0));
        assert(!occurs_at(h, tag_flac(), 0));
        assert(!occurs_at(h, tag_form(), 0));
    }
    if bytes4_at(h, 0, 0x4F, 0x67, 0x67, 0x53) {
        lemma_bytes4_tag(h, 0, tag_oggs());
        assert(!occurs_at(h, tag_riff(), 0));
        assert(!occurs_at(h, tag_flac(), 0));
        assert(!occurs_at(h, tag_form(), 0));
        assert(!occurs_at(h, tag_id3(), 0));
        if occurs_at(h, tag_ftyp(), 4) {
            assert(h.subrange(4, 8)[0] == h[4] && h.subrange(4, 8)[1] == h[5]);
            assert(h.subrange(4, 8)[2] == h[6] && h.subrange(4, 8)[3] == h[7]);
        }
        if occurs_at(h, tag_moov(), 4) {
            assert(h.subrange(4, 8)[0] == h[4] && h.subrange(4, 8)[1] == h[5]);
            assert(h.subrange(4, 8)[2] == h[6] && h.subrange(4, 8)[3] == h[7]);
        }
    }
}

/// The bytes "ID3" at offset 0.
pub open spec fn id3_bytes_at_start(h: Seq<u8>) -> bool {
    h.len() >= 3 && h[0] == 0x49 && h[1] == 0x44 && h[2] == 0x33
}

/// The bytes "RIFF" at offset 0 and "WAVE" at offset 8.
pub open spec fn riff_wave_bytes(h: Seq<u8>) -> bool {
    bytes4_at(h, 0, 0x52, 0x49, 0x46, 0x46) && bytes4_at(h, 8, 0x57, 0x41, 0x56, 0x45)
}

/// An "id3 " or "ID3 " chunk tag at offset `i`.
pub open spec fn id3_chunk_bytes_at(h: Seq<u8>, i: int) -> bool {
    bytes4_at(h, i, 0x69, 0x64, 0x33, 0x20) || bytes4_at(h, i, 0x49, 0x44, 0x33, 0x20)
}

proof fn lemma_riff_wave_bytes(h: Seq<u8>)
    ensures
        riff_wave_bytes(h) <==> is_riff_wav(h),
{
    if riff_wave_bytes(h) {
        lemma_bytes4_tag(h, 0, tag_riff());
        lemma_bytes4_tag(h, 8, tag_wave());
    }
    if is_riff_wav(h) {
        assert(h.subrange(0, 4)[0] == h[0] && h.subrange(0, 4)[1] == h[1]);
        assert(h.subrange(0, 4)[2] == h[2] && h.subrange(0, 4)[3] == h[3]);
        assert(h.subrange(8, 12)[0] == h[8] && h.subrange(8, 12)[1] == h[9]);
        assert(h.subrange(8, 12)[2] == h[10] && h.subrange(8, 12)[3] == h[11]);
    }
}

/// An extension lies only when it names a lossless container the bytes are
/// not and the bytes are a lossy bitstream: a .wav, .flac, .aif or .aiff file
/// starting with an ID3 tag lies; a .wav file whose bytes are RIFF/WAVE, a
/// .flac file starting with "fLaC", and a file of any other extension never
/// do. Only a RIFF/WAVE file carries DJ metadata, and one holding an "id3 "
/// or "ID3 " chunk does. Files of fewer than 32 bytes are not inspected.
pub proof fn law_extension_lie_and_dj_metadata(ext: Seq<char>, file_len: int, h: Seq<u8>, tail: Option<Seq<u8>>)
    ensures
        file_len < 32 ==> !forensic_spec(ext, file_len, h, tail).is_extension_mismatch
            && !forensic_spec(ext, file_len, h, tail).has_dj_metadata,
        file_len >= 32 && id3_bytes_at_start(h) && (ext == "wav"@ || ext == "flac"@ || ext == "aif"@
            || ext == "aiff"@) ==> forensic_spec(ext, file_len, h, tail).is_extension_mismatch,
        ext == "wav"@ && riff_wave_bytes(h) ==> !forensic_spec(ext, file_len, h, tail).is_extension_mismatch,
        ext == "flac"@ && bytes4_at(h, 0, 0x66, 0x4C, 0x61, 0x43) ==> !forensic_spec(
            ext,
            file_len,
            h,
            tail,
        ).is_extension_mismatch,
        ext != "wav"@ && ext != "flac"@ && ext != "aif"@ && ext != "aiff"@ ==> !forensic_spec(
            ext,
            file_len,
            h,
            tail,
        ).is_extension_mismatch,
        !riff_wave_bytes(h) ==> !forensic_spec(ext, file_len, h, tail).has_dj_metadata,
        file_len >= 32 && riff_wave_bytes(h) && (exists|i: int| #[trigger] id3_chunk_bytes_at(h, i))
            ==> forensic_spec(ext, file_len, h, tail).has_dj_metadata,
{
    lemma_riff_wave_bytes(h);
    reveal_strlit("wav");
    reveal_strlit("flac");
    reveal_strlit("aif");
    reveal_strlit("aiff");
    assert("wav"@ != "aif"@) by {
        assert("wav"@[0] != "aif"@[0]);
    }
    assert("flac"@ != "aiff"@) by {
        assert("flac"@[0] != "aiff"@[0]);
    }
    assert("wav"@.len() != "flac"@.len() && "wav"@.len() != "aiff"@.len());
    assert("aif"@.len() != "flac"@.len());
    if id3_bytes_at_start(h) {
        assert(h.subrange(0, 3) =~= tag_id3());
    }
    if bytes4_at(h, 0, 0x66, 0x4C, 0x61, 0x43) {
        lemma_bytes4_tag(h, 0, tag_flac());
    }
    if file_len >= 32 && riff_wave_bytes(h) && (exists|i: int| #[trigger] id3_chunk_bytes_at(h, i)) {
        let i = choose|i: int| #[trigger] id3_chunk_bytes_at(h, i);
        lemma_find_is_first_occurrence(h, tag_id3_chunk_lower());
        lemma_find_is_first_occurrence(h, tag_id3_chunk_upper());
        if bytes4_at(h, i, 0x69, 0x64, 0x33, 0x20) {
            lemma_bytes4_tag(h, i, tag_id3_chunk_lower());
        } else {
            lemma_bytes4_tag(h, i, tag_id3_chunk_upper());
        }
    }
}

} // verus!
