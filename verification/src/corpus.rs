//! Corpus validation rules of the command line: argument parsing, how a
//! sample's provenance is read from a manifest row or a path, and the
//! confusion tallies at the two conviction thresholds.
use vstd::prelude::*;
use crate::types::Verdict;
use crate::text::{
    split_char, split_spec, strip_char, strip_char_ends, text_contains, text_contains_spec,
    text_eq, text_occurs_at, text_starts_with, trim_text, trimmed_text, decimal_text, u64_to_text,
    is_white_space, trim_leading_ws, trim_trailing_ws, strip_leading, strip_trailing,
};
use crate::wrappers::{lowercase_of, to_lowercase_text};

verus! {

/// Where the samples of a corpus come from.
#[derive(Debug, Clone, PartialEq, Eq)]
pub enum CorpusSource {
    /// Two independent folders: lossless masters and transcodes.
    Dirs { lossless_dir: String, transcode_dir: String },
    /// A manifest CSV or a folder whose paths name the class.
    Target(String),
}

/// The parsed corpus arguments of `validate` and `calibrate`.
#[derive(Debug, Clone, PartialEq, Eq)]
pub struct CorpusArgs {
    pub source: CorpusSource,
    pub sweep_drop: bool,
}

/// What the argument scan has seen so far.
pub struct ArgScan {
    pub lossless_dir: Option<Seq<char>>,
    pub transcode_dir: Option<Seq<char>>,
    pub manifest: Option<Seq<char>>,
    pub positional: Option<Seq<char>>,
    pub sweep_drop: bool,
}

pub open spec fn starts_with_dashes(a: Seq<char>) -> bool {
    a.len() >= 2 && a[0] == '-' && a[1] == '-'
}

/// The left-to-right scan of the arguments; a flag that needs a path and is
/// last fails with the name of the flag.
pub open spec fn scan_args(args: Seq<Seq<char>>, i: int, st: ArgScan) -> Result<ArgScan, Seq<char>>
    decreases args.len() - i,
{
    if i < 0 || i >= args.len() {
        Ok(st)
    } else {
        let a = args[i];
        if a == "--sweep-drop"@ {
            scan_args(args, i + 1, ArgScan { sweep_drop: true, ..st })
        } else if a == "--lossless-dir"@ {
            if i + 1 < args.len() {
                scan_args(args, i + 2, ArgScan { lossless_dir: Some(args[i + 1]), ..st })
            } else {
                Err("Falta la ruta para --lossless-dir"@)
            }
        } else if a == "--transcode-dir"@ {
            if i + 1 < args.len() {
                scan_args(args, i + 2, ArgScan { transcode_dir: Some(args[i + 1]), ..st })
            } else {
                Err("Falta la ruta para --transcode-dir"@)
            }
        } else if a == "--manifest"@ {
            if i + 1 < args.len() {
                scan_args(args, i + 2, ArgScan { manifest: Some(args[i + 1]), ..st })
            } else {
                Err("Falta la ruta para --manifest"@)
            }
        } else if !starts_with_dashes(a) && st.positional is None {
            scan_args(args, i + 1, ArgScan { positional: Some(a), ..st })
        } else {
            scan_args(args, i + 1, st)
        }
    }
}

pub open spec fn empty_scan() -> ArgScan {
    ArgScan {
        lossless_dir: None,
        transcode_dir: None,
        manifest: None,
        positional: None,
        sweep_drop: false,
    }
}

/// The corpus a command names, as (lossless dir, transcode dir) or a target,
/// with the sweep flag; folders take precedence, then the manifest, then the
/// first positional argument.
pub open spec fn corpus_args_spec(args: Seq<Seq<char>>) -> Result<
    (Option<(Seq<char>, Seq<char>)>, Option<Seq<char>>, bool),
    Seq<char>,
> {
    match scan_args(args, 0, empty_scan()) {
        Err(e) => Err(e),
        Ok(st) => if st.lossless_dir is Some || st.transcode_dir is Some {
            if st.lossless_dir is None || st.transcode_dir is None {
                Err("Debe especificar ambos: --lossless-dir <dir> y --transcode-dir <dir>"@)
            } else {
                Ok((Some((st.lossless_dir.unwrap(), st.transcode_dir.unwrap())), None, st.sweep_drop))
            }
        } else if st.manifest is Some {
            Ok((None, st.manifest, st.sweep_drop))
        } else if st.positional is Some {
            Ok((None, st.positional, st.sweep_drop))
        } else {
            Err("Debe especificar un corpus: '--lossless-dir <dir> --transcode-dir <dir>', '--manifest <csv>' o una ruta posicional."@)
        },
    }
}

pub open spec fn corpus_args_view(r: Result<CorpusArgs, String>) -> Result<
    (Option<(Seq<char>, Seq<char>)>, Option<Seq<char>>, bool),
    Seq<char>,
> {
    match r {
        Err(e) => Err(e@),
        Ok(a) => match a.source {
            CorpusSource::Dirs { lossless_dir, transcode_dir } => Ok(
                (Some((lossless_dir@, transcode_dir@)), None, a.sweep_drop),
            ),
            CorpusSource::Target(t) => Ok((None, Some(t@), a.sweep_drop)),
        },
    }
}

pub open spec fn arg_texts(args: Seq<String>) -> Seq<Seq<char>> {
    args.map_values(|a: String| a@)
}

pub open spec fn opt_view(o: Option<String>) -> Option<Seq<char>> {
    match o {
        Some(s) => Some(s@),
        None => None,
    }
}

fn has_dashes(a: &str) -> (r: bool)
    ensures
        r == starts_with_dashes(a@),
{
    a.unicode_len() >= 2 && a.get_char(0) == '-' && a.get_char(1) == '-'
}

/// Parses the corpus arguments of `validate` and `calibrate`.
pub fn parse_corpus_args(args: &[String]) -> (r: Result<CorpusArgs, String>)
    ensures
        corpus_args_view(r) == corpus_args_spec(arg_texts(args@)),
{
    let ghost a = arg_texts(args@);
    let mut lossless_dir: Option<String> = None;
    let mut transcode_dir: Option<String> = None;
    let mut manifest: Option<String> = None;
    let mut positional: Option<String> = None;
    let mut sweep_drop = false;
    let mut i: usize = 0;
    while i < args.len()
        invariant
            a == arg_texts(args@),
            i <= args.len() + 1,
            scan_args(a, 0, empty_scan()) == scan_args(
                a,
                i as int,
                ArgScan {
                    lossless_dir: opt_view(lossless_dir),
                    transcode_dir: opt_view(transcode_dir),
                    manifest: opt_view(manifest),
                    positional: opt_view(positional),
                    sweep_drop,
                },
            ),
        decreases args.len() + 1 - i,
    {
        let arg = args[i].as_str();
        assert(a[i as int] == arg@);
        if text_eq(arg, "--sweep-drop") {
            sweep_drop = true;
            i = i + 1;
        } else if text_eq(arg, "--lossless-dir") {
            if i + 1 < args.len() {
                lossless_dir = Some(String::from_str(args[i + 1].as_str()));
                i = i + 2;
            } else {
                return Err(String::from_str("Falta la ruta para --lossless-dir"));
            }
        } else if text_eq(arg, "--transcode-dir") {
            if i + 1 < args.len() {
                transcode_dir = Some(String::from_str(args[i + 1].as_str()));
                i = i + 2;
            } else {
                return Err(String::from_str("Falta la ruta para --transcode-dir"));
            }
        } else if text_eq(arg, "--manifest") {
            if i + 1 < args.len() {
                manifest = Some(String::from_str(args[i + 1].as_str()));
                i = i + 2;
            } else {
                return Err(String::from_str("Falta la ruta para --manifest"));
            }
        } else {
            if !has_dashes(arg) && positional.is_none() {
                positional = Some(String::from_str(arg));
            }
            i = i + 1;
        }
    }
    if lossless_dir.is_some() || transcode_dir.is_some() {
        match (lossless_dir, transcode_dir) {
            (Some(l), Some(t)) => {
                return Ok(
                    CorpusArgs {
                        source: CorpusSource::Dirs { lossless_dir: l, transcode_dir: t },
                        sweep_drop,
                    },
                );
            },
            _ => {
                return Err(
                    String::from_str(
                        "Debe especificar ambos: --lossless-dir <dir> y --transcode-dir <dir>",
                    ),
                );
            },
        }
    }
    if let Some(m) = manifest {
        return Ok(CorpusArgs { source: CorpusSource::Target(m), sweep_drop });
    }
    if let Some(p) = positional {
        return Ok(CorpusArgs { source: CorpusSource::Target(p), sweep_drop });
    }
    Err(
        String::from_str(
            "Debe especificar un corpus: '--lossless-dir <dir> --transcode-dir <dir>', '--manifest <csv>' o una ruta posicional.",
        ),
    )
}


/// Provenance class of a corpus sample.
#[derive(Debug, Clone, Copy, PartialEq, Eq)]
pub enum Provenance {
    /// A lossless master: a negative.
    Lossless,
    /// A transcode: a positive.
    Transcode,
    /// A first-generation lossy file with documented provenance; audited apart.
    LossyConfirmed,
    /// Set aside: neither class; audited apart.
    ProvenanceUnknown,
}

/// The class a lower-cased manifest label names.
pub open spec fn label_provenance(label: Seq<char>) -> Provenance {
    if label == "lossy_confirmed"@ {
        Provenance::LossyConfirmed
    } else if label == "provenance_unknown"@ {
        Provenance::ProvenanceUnknown
    } else if text_contains_spec(label, "transcode"@) || text_contains_spec(label, "fake"@)
        || text_contains_spec(label, "lossy"@) || text_contains_spec(label, "upsampled"@)
        || text_contains_spec(label, "mp3"@) || text_contains_spec(label, "aac"@) || label == "1"@
        || label == "true"@ {
        Provenance::Transcode
    } else {
        Provenance::Lossless
    }
}

/// Reads the class of a lower-cased manifest label.
pub fn classify_label(label: &str) -> (r: Provenance)
    ensures
        r == label_provenance(label@),
{
    if text_eq(label, "lossy_confirmed") {
        Provenance::LossyConfirmed
    } else if text_eq(label, "provenance_unknown") {
        Provenance::ProvenanceUnknown
    } else if text_contains(label, "transcode") || text_contains(label, "fake") || text_contains(
        label,
        "lossy",
    ) || text_contains(label, "upsampled") || text_contains(label, "mp3") || text_contains(
        label,
        "aac",
    ) || text_eq(label, "1") || text_eq(label, "true") {
        Provenance::Transcode
    } else {
        Provenance::Lossless
    }
}

/// The class a lower-cased path of a folder corpus names, if any: transcode
/// words first, then lossless words; other files are left out.
pub open spec fn path_provenance(path: Seq<char>) -> Option<Provenance> {
    if text_contains_spec(path, "transcode"@) || text_contains_spec(path, "fake"@)
        || text_contains_spec(path, "upsampled"@) || text_contains_spec(path, "mp3_"@)
        || text_contains_spec(path, "aac_"@) {
        Some(Provenance::Transcode)
    } else if text_contains_spec(path, "lossless"@) || text_contains_spec(path, "genuine"@)
        || text_contains_spec(path, "authentic"@) || text_contains_spec(path, "master"@) {
        Some(Provenance::Lossless)
    } else {
        None
    }
}

/// Reads the class of a sample of a folder corpus from its lower-cased path.
pub fn classify_corpus_path(path: &str) -> (r: Option<Provenance>)
    ensures
        r == path_provenance(path@),
{
    if text_contains(path, "transcode") || text_contains(path, "fake") || text_contains(
        path,
        "upsampled",
    ) || text_contains(path, "mp3_") || text_contains(path, "aac_") {
        Some(Provenance::Transcode)
    } else if text_contains(path, "lossless") || text_contains(path, "genuine") || text_contains(
        path,
        "authentic",
    ) || text_contains(path, "master") {
        Some(Provenance::Lossless)
    } else {
        None
    }
}

/// One sample named by a manifest row. The path is as written (relative
/// paths are resolved against the manifest's folder by the caller).
#[derive(Debug, Clone, PartialEq, Eq)]
pub struct ManifestRow {
    pub path: String,
    pub provenance: Provenance,
    pub codec_origen: Option<String>,
    pub bitrate: Option<String>,
    pub variant_id: Option<String>,
    pub master_source: Option<String>,
}

/// A cell of a row: trimmed, then stripped of surrounding double quotes.
pub open spec fn cell_text(raw: Seq<char>) -> Seq<char> {
    strip_char_ends(trimmed_text(raw), '"')
}

/// An optional column: present when the row has it and it is not empty.
pub open spec fn optional_cell(cells: Seq<Seq<char>>, k: int) -> Option<Seq<char>> {
    if k < cells.len() && cells[k].len() > 0 {
        Some(cells[k])
    } else {
        None
    }
}

/// The view of a parsed row: path, class and the four optional columns.
pub open spec fn row_view(r: ManifestRow) -> (
    Seq<char>,
    Provenance,
    Option<Seq<char>>,
    Option<Seq<char>>,
    Option<Seq<char>>,
    Option<Seq<char>>,
) {
    (
        r.path@,
        r.provenance,
        opt_view(r.codec_origen),
        opt_view(r.bitrate),
        opt_view(r.variant_id),
        opt_view(r.master_source),
    )
}

/// What line `line_index` of a manifest holds: nothing for blank lines,
/// comments, a header on the first line and rows with fewer than two cells;
/// otherwise a sample. Cells are separated by `;` when the line has one, else by `,`.
pub open spec fn manifest_row_spec(line_index: int, line: Seq<char>) -> Option<
    (Seq<char>, Provenance, Option<Seq<char>>, Option<Seq<char>>, Option<Seq<char>>, Option<Seq<char>>),
> {
    let t = trimmed_text(line);
    if t.len() == 0 || t[0] == '#' {
        None
    } else if line_index == 0 && (text_occurs_at(lowercase_of(t), "path"@, 0) || text_occurs_at(
        lowercase_of(t),
        "archivo"@,
        0,
    )) {
        None
    } else {
        let sep = if text_contains_spec(t, ";"@) {
            ';'
        } else {
            ','
        };
        let cells = split_spec(t, sep).map_values(|p: Seq<char>| cell_text(p));
        if cells.len() < 2 {
            None
        } else {
            Some(
                (
                    cells[0],
                    label_provenance(lowercase_of(cells[1])),
                    optional_cell(cells, 2),
                    optional_cell(cells, 3),
                    optional_cell(cells, 4),
                    optional_cell(cells, 5),
                ),
            )
        }
    }
}

fn optional_cell_exec(cells: &Vec<String>, k: usize) -> (r: Option<String>)
    ensures
        opt_view(r) == optional_cell(cells@.map_values(|c: String| c@), k as int),
{
    if k < cells.len() && cells[k].unicode_len() > 0 {
        Some(String::from_str(cells[k].as_str()))
    } else {
        None
    }
}

/// Parses line `line_index` (from 0) of a corpus manifest.
pub fn parse_manifest_line(line_index: usize, line: &str) -> (r: Option<ManifestRow>)
    ensures
        match r {
            Some(row) => manifest_row_spec(line_index as int, line@) == Some(row_view(row)),
            None => manifest_row_spec(line_index as int, line@) is None,
        },
{
    let t = trim_text(line);
    if t.unicode_len() == 0 || t.get_char(0) == '#' {
        return None;
    }
    if line_index == 0 {
        let lower = to_lowercase_text(t.as_str());
        if text_starts_with(lower.as_str(), "path") || text_starts_with(lower.as_str(), "archivo") {
            return None;
        }
    }
    let sep = if text_contains(t.as_str(), ";") {
        ';'
    } else {
        ','
    };
    let raw = split_char(t.as_str(), sep);
    let ghost raw_view = raw@.map_values(|p: String| p@);
    let mut cells: Vec<String> = Vec::new();
    let mut k: usize = 0;
    while k < raw.len()
        invariant
            raw_view == raw@.map_values(|p: String| p@),
            k <= raw.len(),
            cells@.map_values(|c: String| c@) == raw_view.subrange(0, k as int).map_values(
                |p: Seq<char>| cell_text(p),
            ),
        decreases raw.len() - k,
    {
        let trimmed = trim_text(raw[k].as_str());
        let cell = strip_char(trimmed.as_str(), '"');
        let ghost before = cells@;
        assert(raw_view[k as int] == raw@[k as int]@);
        assert(cell@ == cell_text(raw_view[k as int]));
        cells.push(cell);
        assert(cells@.map_values(|c: String| c@) =~= before.map_values(|c: String| c@).push(cell@));
        assert(raw_view.subrange(0, k + 1) =~= raw_view.subrange(0, k as int).push(raw_view[k as int]));
        assert(cells@.map_values(|c: String| c@) =~= raw_view.subrange(0, k + 1).map_values(
            |p: Seq<char>| cell_text(p),
        ));
        k = k + 1;
    }
    assert(raw_view.subrange(0, raw@.len() as int) =~= raw_view);
    let ghost cv = cells@.map_values(|c: String| c@);
    assert(cv =~= split_spec(t@, sep).map_values(|p: Seq<char>| cell_text(p)));
    if cells.len() < 2 {
        return None;
    }
    let label = to_lowercase_text(cells[1].as_str());
    let provenance = classify_label(label.as_str());
    let row = ManifestRow {
        path: String::from_str(cells[0].as_str()),
        provenance,
        codec_origen: optional_cell_exec(&cells, 2),
        bitrate: optional_cell_exec(&cells, 3),
        variant_id: optional_cell_exec(&cells, 4),
        master_source: optional_cell_exec(&cells, 5),
    };
    Some(row)
}

/// The conviction thresholds: strict is a probable transcode, permissive is
/// suspicious or worse.
pub open spec fn strict_convicted(v: Verdict) -> bool {
    v == Verdict::ProbableTranscode
}

pub open spec fn permissive_convicted(v: Verdict) -> bool {
    v == Verdict::ProbableTranscode || v == Verdict::Suspicious
}

/// Confusion counts of a validation run at both thresholds.
#[derive(Debug, Clone, Copy, PartialEq, Eq)]
pub struct ValidationTally {
    pub tp_strict: u64,
    pub fn_strict: u64,
    pub tn_strict: u64,
    pub fp_strict: u64,
    pub tp_perm: u64,
    pub fn_perm: u64,
    pub tn_perm: u64,
    pub fp_perm: u64,
    pub inconclusive: u64,
}

impl ValidationTally {
    /// Counts that two thresholds applied to the same samples can produce.
    pub open spec fn consistent(self) -> bool {
        &&& self.tp_strict <= self.tp_perm
        &&& self.fp_strict <= self.fp_perm
        &&& self.tp_strict + self.fn_strict == self.tp_perm + self.fn_perm
        &&& self.tn_strict + self.fp_strict == self.tn_perm + self.fp_perm
    }

    /// Positives evaluated.
    pub open spec fn positives(self) -> int {
        self.tp_perm + self.fn_perm
    }

    /// Negatives evaluated.
    pub open spec fn negatives(self) -> int {
        self.tn_perm + self.fp_perm
    }

    /// Whether one more sample can be counted.
    pub open spec fn has_room(self) -> bool {
        self.tp_perm + self.fn_perm < u64::MAX && self.tn_perm + self.fp_perm < u64::MAX
            && self.inconclusive < u64::MAX
    }

    /// An empty tally.
    pub fn new() -> (r: ValidationTally)
        ensures
            r.consistent(),
            r.positives() == 0,
            r.negatives() == 0,
            r.inconclusive == 0,
    {
        ValidationTally {
            tp_strict: 0,
            fn_strict: 0,
            tn_strict: 0,
            fp_strict: 0,
            tp_perm: 0,
            fn_perm: 0,
            tn_perm: 0,
            fp_perm: 0,
            inconclusive: 0,
        }
    }

    /// Counts the verdict of one evaluated sample of the given class.
    pub fn record(&mut self, is_transcode: bool, verdict: Verdict)
        requires
            old(self).consistent(),
            old(self).has_room(),
        ensures
            final(self).consistent(),
            final(self).tp_strict == old(self).tp_strict + (if is_transcode && strict_convicted(verdict) { 1int } else { 0 }),
            final(self).fn_strict == old(self).fn_strict + (if is_transcode && !strict_convicted(verdict) { 1int } else { 0 }),
            final(self).fp_strict == old(self).fp_strict + (if !is_transcode && strict_convicted(verdict) { 1int } else { 0 }),
            final(self).tn_strict == old(self).tn_strict + (if !is_transcode && !strict_convicted(verdict) { 1int } else { 0 }),
            final(self).tp_perm == old(self).tp_perm + (if is_transcode && permissive_convicted(verdict) { 1int } else { 0 }),
            final(self).fn_perm == old(self).fn_perm + (if is_transcode && !permissive_convicted(verdict) { 1int } else { 0 }),
            final(self).fp_perm == old(self).fp_perm + (if !is_transcode && permissive_convicted(verdict) { 1int } else { 0 }),
            final(self).tn_perm == old(self).tn_perm + (if !is_transcode && !permissive_convicted(verdict) { 1int } else { 0 }),
            final(self).inconclusive == old(self).inconclusive + (if verdict == Verdict::Inconclusive { 1int } else { 0 }),
    {
        let strict = match verdict {
            Verdict::ProbableTranscode => true,
            _ => false,
        };
        let perm = match verdict {
            Verdict::ProbableTranscode | Verdict::Suspicious => true,
            _ => false,
        };
        let inc = match verdict {
            Verdict::Inconclusive => true,
            _ => false,
        };
        if is_transcode {
            if strict {
                self.tp_strict = self.tp_strict + 1;
            } else {
                self.fn_strict = self.fn_strict + 1;
            }
            if perm {
                self.tp_perm = self.tp_perm + 1;
            } else {
                self.fn_perm = self.fn_perm + 1;
            }
        } else {
            if strict {
                self.fp_strict = self.fp_strict + 1;
            } else {
                self.tn_strict = self.tn_strict + 1;
            }
            if perm {
                self.fp_perm = self.fp_perm + 1;
            } else {
                self.tn_perm = self.tn_perm + 1;
            }
        }
        if inc {
            self.inconclusive = self.inconclusive + 1;
        }
    }

    /// Counts a sample that could not be decoded as inconclusive.
    pub fn record_decode_error(&mut self)
        requires
            old(self).inconclusive < u64::MAX,
        ensures
            *final(self) == (ValidationTally { inconclusive: (old(self).inconclusive + 1) as u64, ..*old(self) }),
    {
        self.inconclusive = self.inconclusive + 1;
    }
}

/// Whether a verdict clears a file (verified or likely lossless).
pub fn is_cleared(v: Verdict) -> (r: bool)
    ensures
        r == (v == Verdict::LosslessVerified || v == Verdict::LikelyLossless),
{
    match v {
        Verdict::LosslessVerified | Verdict::LikelyLossless => true,
        _ => false,
    }
}

/// Key of a transcode variant: "codec bitrate", either alone, else the
/// variant id (possibly empty).
pub open spec fn variant_key_spec(
    codec: Option<Seq<char>>,
    bitrate: Option<Seq<char>>,
    variant_id: Option<Seq<char>>,
) -> Seq<char> {
    match (codec, bitrate) {
        (Some(c), Some(b)) => c + " "@ + b,
        (Some(c), None) => c,
        (None, Some(b)) => b,
        (None, None) => match variant_id {
            Some(v) => v,
            None => Seq::empty(),
        },
    }
}

/// Key under which a transcode sample's variant is tallied.
pub fn variant_key(codec: &Option<String>, bitrate: &Option<String>, variant_id: &Option<String>) -> (r: String)
    ensures
        r@ == variant_key_spec(opt_view(*codec), opt_view(*bitrate), opt_view(*variant_id)),
{
    match (codec, bitrate) {
        (Some(c), Some(b)) => {
            let mut s = String::from_str(c.as_str());
            s.append(" ");
            s.append(b.as_str());
            s
        },
        (Some(c), None) => String::from_str(c.as_str()),
        (None, Some(b)) => String::from_str(b.as_str()),
        (None, None) => match variant_id {
            Some(v) => String::from_str(v.as_str()),
            None => String::new(),
        },
    }
}

/// Label of a missed variant in the per-master breakdown: "codec bitrate"
/// when both are known, else the variant id, else "transcode".
pub open spec fn variant_label_spec(
    codec: Option<Seq<char>>,
    bitrate: Option<Seq<char>>,
    variant_id: Option<Seq<char>>,
) -> Seq<char> {
    match (codec, bitrate) {
        (Some(c), Some(b)) => c + " "@ + b,
        _ => match variant_id {
            Some(v) => v,
            None => "transcode"@,
        },
    }
}

/// Label of a sample's variant in the per-master breakdown.
pub fn variant_label(codec: &Option<String>, bitrate: &Option<String>, variant_id: &Option<String>) -> (r: String)
    ensures
        r@ == variant_label_spec(opt_view(*codec), opt_view(*bitrate), opt_view(*variant_id)),
{
    match (codec, bitrate) {
        (Some(c), Some(b)) => {
            let mut s = String::from_str(c.as_str());
            s.append(" ");
            s.append(b.as_str());
            s
        },
        _ => match variant_id {
            Some(v) => String::from_str(v.as_str()),
            None => String::from_str("transcode"),
        },
    }
}

/// Description of a corpus made of two folders with their sample counts.
pub fn describe_dirs_corpus(lossless_dir: &str, n_lossless: u64, transcode_dir: &str, n_transcode: u64) -> (r: String)
    ensures
        r@ == "Carpetas independientes (Lossless: '"@ + lossless_dir@ + "' ["@ + decimal_text(
            n_lossless as nat,
        ) + " pistas], Transcode: '"@ + transcode_dir@ + "' ["@ + decimal_text(n_transcode as nat)
            + " pistas])"@,
{
    let mut s = String::from_str("Carpetas independientes (Lossless: '");
    s.append(lossless_dir);
    s.append("' [");
    let a = u64_to_text(n_lossless);
    s.append(a.as_str());
    s.append(" pistas], Transcode: '");
    s.append(transcode_dir);
    s.append("' [");
    let b = u64_to_text(n_transcode);
    s.append(b.as_str());
    s.append(" pistas])");
    s
}

/// Description of a corpus given by a manifest or a folder.
pub fn describe_target_corpus(target: &str) -> (r: String)
    ensures
        r@ == "Corpus: '"@ + target@ + "'"@,
{
    let mut s = String::from_str("Corpus: '");
    s.append(target);
    s.append("'");
    s
}

/// Whether a sample of this provenance enters the confusion counts;
/// lossy-confirmed and unknown-provenance files are audited apart.
pub fn counts_in_validation(p: Provenance) -> (r: bool)
    ensures
        r == (p == Provenance::Lossless || p == Provenance::Transcode),
{
    match p {
        Provenance::Lossless | Provenance::Transcode => true,
        _ => false,
    }
}

/// Recall counts of one transcode variant.
#[derive(Debug, Clone, Copy, PartialEq, Eq)]
pub struct VariantStats {
    pub total: u64,
    pub tp_strict: u64,
    pub tp_perm: u64,
    pub inconclusive: u64,
}

impl VariantStats {
    /// Counts that one run over the variant's samples can produce.
    pub open spec fn consistent(self) -> bool {
        &&& self.tp_strict <= self.tp_perm
        &&& self.tp_perm + self.inconclusive <= self.total
    }

    /// No sample counted yet.
    pub fn new() -> (r: VariantStats)
        ensures
            r.consistent(),
            r == (VariantStats { total: 0, tp_strict: 0, tp_perm: 0, inconclusive: 0 }),
    {
        VariantStats { total: 0, tp_strict: 0, tp_perm: 0, inconclusive: 0 }
    }

    /// Counts the verdict of one more transcode of the variant.
    pub fn record(&mut self, verdict: Verdict)
        requires
            old(self).consistent(),
            old(self).total < u64::MAX,
        ensures
            final(self).consistent(),
            final(self).total == old(self).total + 1,
            final(self).tp_strict == old(self).tp_strict + (if strict_convicted(verdict) { 1int } else { 0 }),
            final(self).tp_perm == old(self).tp_perm + (if permissive_convicted(verdict) { 1int } else { 0 }),
            final(self).inconclusive == old(self).inconclusive + (if verdict == Verdict::Inconclusive { 1int } else { 0 }),
    {
        self.total = self.total + 1;
        match verdict {
            Verdict::ProbableTranscode => {
                self.tp_strict = self.tp_strict + 1;
                self.tp_perm = self.tp_perm + 1;
            },
            Verdict::Suspicious => {
                self.tp_perm = self.tp_perm + 1;
            },
            Verdict::Inconclusive => {
                self.inconclusive = self.inconclusive + 1;
            },
            _ => {},
        }
    }
}

/// What one master's family of files gave: its lossless master and the
/// transcodes made from it, with the variants each threshold missed.
#[derive(Debug, Clone, PartialEq, Eq)]
pub struct MasterStats {
    pub lossless_ok: bool,
    pub lossless_evaluated: bool,
    pub lossless_verdict: Option<Verdict>,
    pub transcodes_total: u64,
    pub transcodes_strict_tp: u64,
    pub transcodes_perm_tp: u64,
    pub missed_variants_strict: Vec<String>,
    pub missed_variants_perm: Vec<String>,
}

impl MasterStats {
    /// Every transcode is either caught or listed as missed at each
    /// threshold, and the lossless master is cleared exactly when neither
    /// threshold convicts it.
    pub open spec fn consistent(self) -> bool {
        &&& self.transcodes_strict_tp + self.missed_variants_strict@.len() == self.transcodes_total
        &&& self.transcodes_perm_tp + self.missed_variants_perm@.len() == self.transcodes_total
        &&& self.transcodes_strict_tp <= self.transcodes_perm_tp
        &&& self.lossless_evaluated == (self.lossless_verdict is Some)
        &&& (self.lossless_verdict matches Some(v) ==> self.lossless_ok == !permissive_convicted(v))
        &&& (self.lossless_verdict is None ==> !self.lossless_ok)
    }

    /// Nothing seen of the master yet.
    pub fn new() -> (r: MasterStats)
        ensures
            r.consistent(),
            r.transcodes_total == 0,
            !r.lossless_evaluated,
    {
        MasterStats {
            lossless_ok: false,
            lossless_evaluated: false,
            lossless_verdict: None,
            transcodes_total: 0,
            transcodes_strict_tp: 0,
            transcodes_perm_tp: 0,
            missed_variants_strict: Vec::new(),
            missed_variants_perm: Vec::new(),
        }
    }

    /// Counts one transcode of the master under its variant label.
    pub fn record_transcode(&mut self, verdict: Verdict, label: &str)
        requires
            old(self).consistent(),
            old(self).transcodes_total < u64::MAX,
        ensures
            final(self).consistent(),
            final(self).transcodes_total == old(self).transcodes_total + 1,
            final(self).missed_variants_strict@.map_values(|v: String| v@) == (if strict_convicted(verdict) {
                old(self).missed_variants_strict@.map_values(|v: String| v@)
            } else {
                old(self).missed_variants_strict@.map_values(|v: String| v@).push(label@)
            }),
            final(self).missed_variants_perm@.map_values(|v: String| v@) == (if permissive_convicted(verdict) {
                old(self).missed_variants_perm@.map_values(|v: String| v@)
            } else {
                old(self).missed_variants_perm@.map_values(|v: String| v@).push(label@)
            }),
            final(self).lossless_verdict == old(self).lossless_verdict,
            final(self).lossless_ok == old(self).lossless_ok,
    {
        let ghost s0 = self.missed_variants_strict@;
        let ghost p0 = self.missed_variants_perm@;
        self.transcodes_total = self.transcodes_total + 1;
        let strict = match verdict {
            Verdict::ProbableTranscode => true,
            _ => false,
        };
        let perm = match verdict {
            Verdict::ProbableTranscode | Verdict::Suspicious => true,
            _ => false,
        };
        if strict {
            self.transcodes_strict_tp = self.transcodes_strict_tp + 1;
        } else {
            self.missed_variants_strict.push(String::from_str(label));
            assert(self.missed_variants_strict@.map_values(|v: String| v@) =~= s0.map_values(|v: String| v@).push(label@));
        }
        if perm {
            self.transcodes_perm_tp = self.transcodes_perm_tp + 1;
        } else {
            self.missed_variants_perm.push(String::from_str(label));
            assert(self.missed_variants_perm@.map_values(|v: String| v@) =~= p0.map_values(|v: String| v@).push(label@));
        }
    }

    /// Records the verdict of the lossless master itself.
    pub fn record_lossless(&mut self, verdict: Verdict)
        requires
            old(self).consistent(),
        ensures
            final(self).consistent(),
            final(self).lossless_evaluated,
            final(self).lossless_verdict == Some(verdict),
            final(self).lossless_ok == !permissive_convicted(verdict),
            final(self).transcodes_total == old(self).transcodes_total,
            final(self).missed_variants_perm@ == old(self).missed_variants_perm@,
            final(self).missed_variants_strict@ == old(self).missed_variants_strict@,
    {
        let perm = match verdict {
            Verdict::ProbableTranscode | Verdict::Suspicious => true,
            _ => false,
        };
        self.lossless_evaluated = true;
        self.lossless_verdict = Some(verdict);
        self.lossless_ok = !perm;
    }

    /// A master is listed among the failures when it was
    /// convicted or some transcode escaped either threshold; equivalently,
    /// when it was convicted or some variant is listed as missed.
    pub fn is_failing(&self) -> (r: bool)
        requires
            self.consistent(),
        ensures
            r == ((self.lossless_evaluated && !self.lossless_ok) || self.transcodes_strict_tp
                < self.transcodes_total || self.transcodes_perm_tp < self.transcodes_total),
            r == ((self.lossless_evaluated && !self.lossless_ok) || self.missed_variants_strict@.len() > 0
                || self.missed_variants_perm@.len() > 0),
    {
        (self.lossless_evaluated && !self.lossless_ok) || self.transcodes_strict_tp < self.transcodes_total
            || self.transcodes_perm_tp < self.transcodes_total
    }
}

/// Fewest lossless negatives for which a false-positive rate of at most 1 %
/// can be certified.
pub const MIN_NEGATIVES_FOR_FPR: u64 = 300;

/// The production target at the strict threshold: a recall of at least 95 %
/// and a false-positive rate of at most 1 %, measured on at least 300
/// negatives. Rates are exact ratios of the counts (an empty class has a
/// rate of 0).
pub open spec fn strict_target_met(t: ValidationTally) -> bool {
    let pos = t.tp_strict + t.fn_strict;
    let neg = t.fp_strict + t.tn_strict;
    &&& pos > 0 && 100 * t.tp_strict >= 95 * pos
    &&& 100 * t.fp_strict <= neg
    &&& neg >= MIN_NEGATIVES_FOR_FPR
}

/// Whether a validation run meets the production target at the strict threshold.
pub fn strict_target_passes(t: &ValidationTally) -> (r: bool)
    ensures
        r == strict_target_met(*t),
{
    let pos: u128 = t.tp_strict as u128 + t.fn_strict as u128;
    let neg: u128 = t.fp_strict as u128 + t.tn_strict as u128;
    pos > 0 && 100 * (t.tp_strict as u128) >= 95 * pos && 100 * (t.fp_strict as u128) <= neg
        && neg >= MIN_NEGATIVES_FOR_FPR as u128
}

/// One sample of a validation run as the tally sees it: its provenance, its
/// class, and its verdict (`None` when the file could not be decoded).
#[derive(Debug, Clone, Copy, PartialEq, Eq)]
pub struct SampleOutcome {
    pub provenance: Provenance,
    pub is_transcode: bool,
    pub verdict: Option<Verdict>,
}

/// Whether a sample of this provenance enters the confusion counts.
pub open spec fn counted_provenance(p: Provenance) -> bool {
    p == Provenance::Lossless || p == Provenance::Transcode
}

/// The tally after counting one evaluated sample of the given class.
pub open spec fn tally_recorded(t: ValidationTally, is_transcode: bool, v: Verdict) -> ValidationTally {
    ValidationTally {
        tp_strict: (t.tp_strict + (if is_transcode && strict_convicted(v) { 1int } else { 0 })) as u64,
        fn_strict: (t.fn_strict + (if is_transcode && !strict_convicted(v) { 1int } else { 0 })) as u64,
        tn_strict: (t.tn_strict + (if !is_transcode && !strict_convicted(v) { 1int } else { 0 })) as u64,
        fp_strict: (t.fp_strict + (if !is_transcode && strict_convicted(v) { 1int } else { 0 })) as u64,
        tp_perm: (t.tp_perm + (if is_transcode && permissive_convicted(v) { 1int } else { 0 })) as u64,
        fn_perm: (t.fn_perm + (if is_transcode && !permissive_convicted(v) { 1int } else { 0 })) as u64,
        tn_perm: (t.tn_perm + (if !is_transcode && !permissive_convicted(v) { 1int } else { 0 })) as u64,
        fp_perm: (t.fp_perm + (if !is_transcode && permissive_convicted(v) { 1int } else { 0 })) as u64,
        inconclusive: (t.inconclusive + (if v == Verdict::Inconclusive { 1int } else { 0 })) as u64,
    }
}

/// The tally after one sample of a run: a file that could not be decoded
/// is inconclusive; a set-aside file is not counted; any other is recorded.
pub open spec fn tally_outcome(t: ValidationTally, o: SampleOutcome) -> ValidationTally {
    match o.verdict {
        None => ValidationTally { inconclusive: (t.inconclusive + 1) as u64, ..t },
        Some(v) => if counted_provenance(o.provenance) {
            tally_recorded(t, o.is_transcode, v)
        } else {
            t
        },
    }
}

pub open spec fn empty_tally() -> ValidationTally {
    ValidationTally {
        tp_strict: 0,
        fn_strict: 0,
        tn_strict: 0,
        fp_strict: 0,
        tp_perm: 0,
        fn_perm: 0,
        tn_perm: 0,
        fp_perm: 0,
        inconclusive: 0,
    }
}

/// The tally of a whole run, sample by sample in order.
pub open spec fn run_tally(s: Seq<SampleOutcome>) -> ValidationTally
    decreases s.len(),
{
    if s.len() == 0 {
        empty_tally()
    } else {
        tally_outcome(run_tally(s.drop_last()), s.last())
    }
}

/// The confusion counts at both thresholds: everything the recall, the
/// false-positive rate, the precision and the production gate are read from.
pub open spec fn confusion(t: ValidationTally) -> (u64, u64, u64, u64, u64, u64, u64, u64) {
    (t.tp_strict, t.fn_strict, t.tn_strict, t.fp_strict, t.tp_perm, t.fn_perm, t.tn_perm, t.fp_perm)
}

/// The samples of a run that enter the confusion counts, in order.
pub open spec fn counted_samples(s: Seq<SampleOutcome>) -> Seq<SampleOutcome>
    decreases s.len(),
{
    if s.len() == 0 {
        s
    } else if counted_provenance(s.last().provenance) {
        counted_samples(s.drop_last()).push(s.last())
    } else {
        counted_samples(s.drop_last())
    }
}

/// Tallies a whole validation run.
pub fn tally_run(samples: &[SampleOutcome]) -> (r: ValidationTally)
    ensures
        r == run_tally(samples@),
{
    let mut t = ValidationTally::new();
    let mut i: usize = 0;
    assert(samples@.subrange(0, 0) =~= Seq::<SampleOutcome>::empty());
    while i < samples.len()
        invariant
            i <= samples.len(),
            t == run_tally(samples@.subrange(0, i as int)),
            t.consistent(),
            t.tp_perm + t.fn_perm + t.tn_perm + t.fp_perm <= i,
            t.inconclusive <= i,
        decreases samples.len() - i,
    {
        let o = samples[i];
        let ghost before = t;
        assert(samples@.subrange(0, i + 1).drop_last() =~= samples@.subrange(0, i as int));
        assert(samples@.subrange(0, i + 1).last() == o);
        match o.verdict {
            None => {
                t.record_decode_error();
            },
            Some(v) => {
                if counts_in_validation(o.provenance) {
                    t.record(o.is_transcode, v);
                    assert(t == tally_recorded(before, o.is_transcode, v));
                }
            },
        }
        i = i + 1;
    }
    assert(samples@.subrange(0, samples@.len() as int) =~= samples@);
    t
}

proof fn lemma_outcome_keeps_confusion_congruent(t1: ValidationTally, t2: ValidationTally, o: SampleOutcome)
    requires
        confusion(t1) == confusion(t2),
    ensures
        confusion(tally_outcome(t1, o)) == confusion(tally_outcome(t2, o)),
{
}

proof fn lemma_run_confusion_is_that_of_counted_samples(s: Seq<SampleOutcome>)
    ensures
        confusion(run_tally(s)) == confusion(run_tally(counted_samples(s))),
    decreases s.len(),
{
    if s.len() > 0 {
        let prev = s.drop_last();
        lemma_run_confusion_is_that_of_counted_samples(prev);
        if counted_provenance(s.last().provenance) {
            let c = counted_samples(s);
            assert(c.drop_last() =~= counted_samples(prev));
            assert(c.last() == s.last());
            lemma_outcome_keeps_confusion_congruent(
                run_tally(prev),
                run_tally(counted_samples(prev)),
                s.last(),
            );
        }
    }
}

/// Setting a file aside is not reclassifying it: two runs whose counted
/// samples (lossless and transcode, in order, with their verdicts) are the
/// same have the same confusion counts at both thresholds, and so the same
/// recall, false-positive rate, precision and production gate, whatever
/// the set-aside files (lossy-confirmed or of unknown provenance) were judged.
pub proof fn law_set_aside_samples_never_change_the_counts(s1: Seq<SampleOutcome>, s2: Seq<SampleOutcome>)
    requires
        counted_samples(s1) == counted_samples(s2),
    ensures
        confusion(run_tally(s1)) == confusion(run_tally(s2)),
        strict_target_met(run_tally(s1)) == strict_target_met(run_tally(s2)),
{
    lemma_run_confusion_is_that_of_counted_samples(s1);
    lemma_run_confusion_is_that_of_counted_samples(s2);
}

/// `word` stands somewhere in `s`.
pub open spec fn has_word(s: Seq<char>, word: Seq<char>) -> bool {
    exists|i: int| 0 <= i && i + word.len() <= s.len() && #[trigger] s.subrange(i, i + word.len()) == word
}

proof fn lemma_has_word(s: Seq<char>, word: Seq<char>)
    ensures
        has_word(s, word) <==> text_contains_spec(s, word),
{
    if has_word(s, word) {
        let i = choose|i: int| 0 <= i && i + word.len() <= s.len() && #[trigger] s.subrange(i, i + word.len()) == word;
        assert(text_occurs_at(s, word, i));
    }
    if text_contains_spec(s, word) {
        let i = choose|i: int| text_occurs_at(s, word, i);
        assert(s.subrange(i, i + word.len()) == word);
    }
}

/// How a folder corpus classes a lower-cased path: any of the words
/// "transcode", "fake", "upsampled", "mp3_", "aac_" makes it a transcode;
/// otherwise any of "lossless", "genuine", "authentic", "master" makes it a
/// lossless master; a path with none of these words is left out.
pub proof fn law_corpus_path_classes(path: Seq<char>)
    ensures
        ({
            let transcode = has_word(path, "transcode"@) || has_word(path, "fake"@) || has_word(path, "upsampled"@)
                || has_word(path, "mp3_"@) || has_word(path, "aac_"@);
            let lossless = has_word(path, "lossless"@) || has_word(path, "genuine"@) || has_word(path, "authentic"@)
                || has_word(path, "master"@);
            &&& transcode ==> path_provenance(path) == Some(Provenance::Transcode)
            &&& !transcode && lossless ==> path_provenance(path) == Some(Provenance::Lossless)
            &&& !transcode && !lossless ==> path_provenance(path) is None
        }),
{
    lemma_has_word(path, "transcode"@);
    lemma_has_word(path, "fake"@);
    lemma_has_word(path, "upsampled"@);
    lemma_has_word(path, "mp3_"@);
    lemma_has_word(path, "aac_"@);
    lemma_has_word(path, "lossless"@);
    lemma_has_word(path, "genuine"@);
    lemma_has_word(path, "authentic"@);
    lemma_has_word(path, "master"@);
}

/// How a lower-cased manifest label names a class: "lossy_confirmed" and
/// "provenance_unknown" are set apart; any other label holding "transcode",
/// "fake", "lossy", "upsampled", "mp3" or "aac", or being "1" or "true", is
/// a transcode; every other label is a lossless master.
pub proof fn law_manifest_label_classes(label: Seq<char>)
    ensures
        ({
            let transcode = has_word(label, "transcode"@) || has_word(label, "fake"@) || has_word(label, "lossy"@)
                || has_word(label, "upsampled"@) || has_word(label, "mp3"@) || has_word(label, "aac"@)
                || label == "1"@ || label == "true"@;
            let apart = label == "lossy_confirmed"@ || label == "provenance_unknown"@;
            &&& label == "lossy_confirmed"@ ==> label_provenance(label) == Provenance::LossyConfirmed
            &&& label == "provenance_unknown"@ ==> label_provenance(label) == Provenance::ProvenanceUnknown
            &&& !apart && transcode ==> label_provenance(label) == Provenance::Transcode
            &&& !apart && !transcode ==> label_provenance(label) == Provenance::Lossless
        }),
{
    lemma_has_word(label, "transcode"@);
    lemma_has_word(label, "fake"@);
    lemma_has_word(label, "lossy"@);
    lemma_has_word(label, "upsampled"@);
    lemma_has_word(label, "mp3"@);
    lemma_has_word(label, "aac"@);
    reveal_strlit("lossy_confirmed");
    reveal_strlit("provenance_unknown");
    assert("lossy_confirmed"@.len() != "provenance_unknown"@.len());
}

/// The two conviction thresholds of a validation run: strictly, only a
/// probable transcode convicts; permissively, a suspicious verdict does too.
/// Lossless and transcode samples are counted; the others are set apart.
pub proof fn law_conviction_thresholds(v: Verdict, p: Provenance)
    ensures
        strict_convicted(v) <==> v == Verdict::ProbableTranscode,
        permissive_convicted(v) <==> (v == Verdict::ProbableTranscode || v == Verdict::Suspicious),
        counted_provenance(p) <==> (p == Provenance::Lossless || p == Provenance::Transcode),
{
}

/// A cell written plainly: not empty, no white space or double quote at
/// either end, and no `,` or `;` inside.
pub open spec fn plain_cell(w: Seq<char>) -> bool {
    &&& w.len() > 0
    &&& !is_white_space(w[0])
    &&& !is_white_space(w.last())
    &&& w[0] != '"'
    &&& w.last() != '"'
    &&& forall|i: int| 0 <= i < w.len() ==> #[trigger] w[i] != ',' && w[i] != ';'
}

proof fn lemma_split_without_separator(s: Seq<char>, c: char)
    requires
        forall|i: int| 0 <= i < s.len() ==> #[trigger] s[i] != c,
    ensures
        split_spec(s, c) == seq![s],
    decreases s.len(),
{
    if s.len() == 0 {
        assert(s =~= Seq::<char>::empty());
        assert(seq![Seq::<char>::empty()] =~= seq![s]);
    } else {
        let d = s.drop_last();
        assert forall|i: int| 0 <= i < d.len() implies #[trigger] d[i] != c by {
            assert(d[i] == s[i]);
        }
        lemma_split_without_separator(d, c);
        assert(s.last() == s[s.len() - 1]);
        assert(s.last() != c);
        assert(d.push(s.last()) =~= s);
        assert(seq![d].update(0, d.push(s.last())) =~= seq![s]);
    }
}

proof fn lemma_split_after_separator(a: Seq<char>, b: Seq<char>, c: char)
    requires
        forall|i: int| 0 <= i < b.len() ==> #[trigger] b[i] != c,
    ensures
        split_spec(a + seq![c] + b, c) == split_spec(a, c).push(b),
    decreases b.len(),
{
    let s = a + seq![c] + b;
    if b.len() == 0 {
        assert(b =~= Seq::<char>::empty());
        assert(s.drop_last() =~= a);
        assert(s.last() == c);
        assert(split_spec(a, c).push(Seq::<char>::empty()) =~= split_spec(a, c).push(b));
    } else {
        let b1 = b.drop_last();
        assert forall|i: int| 0 <= i < b1.len() implies #[trigger] b1[i] != c by {
            assert(b1[i] == b[i]);
        }
        lemma_split_after_separator(a, b1, c);
        assert(s.drop_last() =~= a + seq![c] + b1);
        assert(s.last() == b.last());
        let prev = split_spec(a, c).push(b1);
        assert(b.last() == b[b.len() - 1]);
        assert(b.last() != c);
        assert(b1.push(b.last()) =~= b);
        assert(prev.last() == b1);
        assert(prev.update(prev.len() - 1, prev.last().push(s.last())) =~= split_spec(a, c).push(b));
    }
}

proof fn lemma_plain_cell_is_kept(w: Seq<char>)
    requires
        plain_cell(w),
    ensures
        cell_text(w) == w,
{
    assert(trim_leading_ws(w) == w);
    assert(trim_trailing_ws(w) == w);
    assert(strip_leading(w, '"') == w);
    assert(strip_trailing(w, '"') == w);
}

/// A manifest row written plainly as `path,label` (not the first line, the
/// path not starting with `#`) names one sample: that path, the class its
/// lower-cased label names, and none of the optional columns.
pub proof fn law_plain_manifest_row(line_index: int, path: Seq<char>, label: Seq<char>)
    requires
        line_index > 0,
        plain_cell(path),
        plain_cell(label),
        path[0] != '#',
    ensures
        manifest_row_spec(line_index, path + seq![','] + label) == Some(
            (path, label_provenance(lowercase_of(label)), None::<Seq<char>>, None::<Seq<char>>, None::<Seq<char>>, None::<Seq<char>>),
        ),
{
    let t = path + seq![','] + label;
    assert(t[0] == path[0]);
    assert(t.last() == label.last());
    assert(trim_leading_ws(t) == t);
    assert(trim_trailing_ws(t) == t);
    assert(trimmed_text(t) == t);
    assert forall|i: int| 0 <= i < t.len() implies #[trigger] t[i] != ';' by {
        if i < path.len() {
            assert(t[i] == path[i]);
        } else if i > path.len() {
            assert(t[i] == label[i - path.len() - 1]);
        }
    }
    reveal_strlit(";");
    assert(!text_contains_spec(t, ";"@)) by {
        if text_contains_spec(t, ";"@) {
            let i = choose|i: int| text_occurs_at(t, ";"@, i);
            assert(t.subrange(i, i + 1)[0] == t[i]);
        }
    }
    assert forall|i: int| 0 <= i < path.len() implies #[trigger] path[i] != ',' by {}
    assert forall|i: int| 0 <= i < label.len() implies #[trigger] label[i] != ',' by {}
    lemma_split_without_separator(path, ',');
    lemma_split_after_separator(path, label, ',');
    lemma_plain_cell_is_kept(path);
    lemma_plain_cell_is_kept(label);
    let cells = split_spec(t, ',').map_values(|p: Seq<char>| cell_text(p));
    assert(split_spec(t, ',') == seq![path, label]);
    assert(cells =~= seq![path, label]);
}

} // verus!
