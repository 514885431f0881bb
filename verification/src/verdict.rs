//! The verdict engine: fuses the evidences of one file into one of the six
//! verdict states. Log-likelihood ratios are carried in hundredths, the
//! resolution at which the engine rounds its score.
use vstd::prelude::*;
use crate::types::{evidence_is_strong, evidence_label, EvidenceCode, FormatFacts, Verdict};
use crate::text::{join_spec, join_strs};

verus! {

/// One evidence of the catalogue as the verdict engine reads it.
#[derive(Debug, Clone, PartialEq, Eq)]
pub struct Evidence {
    pub code: EvidenceCode,
    /// Log-likelihood ratio, in hundredths (+2.20 is 220).
    pub llr_centi: i64,
    pub applicable: bool,
    pub description: String,
}

/// Outcome of the verdict engine.
#[derive(Debug, Clone, PartialEq, Eq)]
pub struct VerdictResult {
    pub verdict: Verdict,
    /// Rounded score, in hundredths.
    pub score_centi: i128,
    pub summary: String,
}

/// Score thresholds of the verdict bands, in hundredths.
pub const VERIFIED_MAX_CENTI: i128 = -400;
pub const LIKELY_MAX_CENTI: i128 = -150;
pub const SUSPICIOUS_MIN_CENTI: i128 = 150;
pub const TRANSCODE_MIN_CENTI: i128 = 400;
/// An applicable strong evidence is named in the summary from this LLR on (+1.40).
pub const STRONG_NAMED_MIN_CENTI: i64 = 140;

/// Sum of the LLRs of the applicable evidences.
pub open spec fn applicable_llr_sum(evs: Seq<Evidence>) -> int
    decreases evs.len(),
{
    if evs.len() == 0 {
        0
    } else {
        applicable_llr_sum(evs.drop_last()) + (if evs.last().applicable {
            evs.last().llr_centi as int
        } else {
            0
        })
    }
}

/// The band decision of the engine, for a lossless-declared file.
pub open spec fn classify(score: int, has_guards: bool, strong_present: bool) -> Verdict {
    if score <= VERIFIED_MAX_CENTI {
        Verdict::LosslessVerified
    } else if score <= LIKELY_MAX_CENTI {
        Verdict::LikelyLossless
    } else if has_guards && !strong_present {
        Verdict::Inconclusive
    } else if score < SUSPICIOUS_MIN_CENTI {
        Verdict::Inconclusive
    } else if score < TRANSCODE_MIN_CENTI || !strong_present || has_guards {
        Verdict::Suspicious
    } else {
        Verdict::ProbableTranscode
    }
}

/// The evidences named as strong in a conviction summary.
pub open spec fn names_strong(e: Evidence) -> bool {
    e.applicable && evidence_is_strong(e.code) && e.llr_centi >= STRONG_NAMED_MIN_CENTI
}

/// Labels of the strong evidences, in the order of the evidences.
pub open spec fn strong_labels(evs: Seq<Evidence>) -> Seq<Seq<char>>
    decreases evs.len(),
{
    if evs.len() == 0 {
        Seq::empty()
    } else {
        let prev = strong_labels(evs.drop_last());
        if names_strong(evs.last()) {
            prev.push(evidence_label(evs.last().code))
        } else {
            prev
        }
    }
}

pub open spec fn declared_lossy_summary(codec: Seq<char>) -> Seq<char> {
    codec + ". Formato con perdida declarado; contenedor y codec legitimos."@
}

/// The summary sentence of a verdict of a lossless-declared file.
pub open spec fn verdict_summary(
    v: Verdict,
    guards: Seq<Seq<char>>,
    labels: Seq<Seq<char>>,
) -> Seq<char> {
    match v {
        Verdict::LosslessVerified =>
            "No se encontraron evidencias de una fuente con perdida. Espectro completo y coherente."@,
        Verdict::LikelyLossless =>
            "Sin evidencias relevantes de compresion. Algun indicador menor, compatible con el master de origen."@,
        Verdict::Inconclusive => if guards.len() > 0 {
            "Inconcluso: Se activaron salvaguardas ("@ + guards[0]
                + "). Ante duda, el sistema se abstiene de acusar."@
        } else {
            "No hay informacion suficiente para determinar la procedencia con alta confianza."@
        },
        Verdict::Suspicious =>
            "El archivo declara formato sin perdida, pero presenta caida o anomalias compatibles con perdida de alta frecuencia."@,
        Verdict::ProbableTranscode => if labels.len() > 0 {
            "Evidencia solida compatible con transcode de fuente con perdida. Evidencias fuertes: "@
                + join_spec(labels, ", "@) + "."@
        } else {
            "Evidencia solida compatible con transcode de fuente previamente comprimida (MP3/AAC)."@
        },
        Verdict::DeclaredLossy => Seq::empty(),
    }
}

/// Everything the engine decides, as one mathematical function.
pub open spec fn verdict_spec(
    facts_codec: Seq<char>,
    lossless_declared: bool,
    evs: Seq<Evidence>,
    guards: Seq<Seq<char>>,
    strong_present: bool,
) -> (Verdict, int, Seq<char>) {
    if !lossless_declared {
        (Verdict::DeclaredLossy, 0, declared_lossy_summary(facts_codec))
    } else {
        let score = applicable_llr_sum(evs);
        let v = classify(score, guards.len() > 0, strong_present);
        (v, score, verdict_summary(v, guards, strong_labels(evs)))
    }
}

pub open spec fn guard_texts(guards: Seq<String>) -> Seq<Seq<char>> {
    guards.map_values(|g: String| g@)
}

/// Confidence band of each verdict, in hundredths: the engine's confidence
/// always lies in `[lo, hi]`.
pub open spec fn confidence_band(v: Verdict) -> (u32, u32) {
    match v {
        Verdict::DeclaredLossy => (99, 99),
        Verdict::ProbableTranscode => (85, 99),
        Verdict::LosslessVerified => (85, 99),
        Verdict::LikelyLossless => (70, 85),
        Verdict::Suspicious => (65, 84),
        Verdict::Inconclusive => (50, 65),
    }
}

/// The confidence band of a verdict (lower and upper bound, in hundredths).
pub fn confidence_bounds(v: Verdict) -> (r: (u32, u32))
    ensures
        r == confidence_band(v),
{
    match v {
        Verdict::DeclaredLossy => (99, 99),
        Verdict::ProbableTranscode => (85, 99),
        Verdict::LosslessVerified => (85, 99),
        Verdict::LikelyLossless => (70, 85),
        Verdict::Suspicious => (65, 84),
        Verdict::Inconclusive => (50, 65),
    }
}

/// Band decision of the engine.
pub fn classify_score(score_centi: i128, has_guards: bool, strong_present: bool) -> (v: Verdict)
    ensures
        v == classify(score_centi as int, has_guards, strong_present),
{
    if score_centi <= VERIFIED_MAX_CENTI {
        Verdict::LosslessVerified
    } else if score_centi <= LIKELY_MAX_CENTI {
        Verdict::LikelyLossless
    } else if has_guards && !strong_present {
        Verdict::Inconclusive
    } else if score_centi < SUSPICIOUS_MIN_CENTI {
        Verdict::Inconclusive
    } else if score_centi < TRANSCODE_MIN_CENTI || !strong_present || has_guards {
        Verdict::Suspicious
    } else {
        Verdict::ProbableTranscode
    }
}

/// Sum of the applicable LLRs.
pub fn sum_applicable_llr(evidences: &[Evidence]) -> (s: i128)
    ensures
        s as int == applicable_llr_sum(evidences@),
{
    let mut acc: i128 = 0;
    let mut i: usize = 0;
    while i < evidences.len()
        invariant
            i <= evidences.len(),
            acc as int == applicable_llr_sum(evidences@.subrange(0, i as int)),
            -(i as int) * 0x8000_0000_0000_0000 <= acc <= (i as int) * 0x8000_0000_0000_0000,
        decreases evidences.len() - i,
    {
        proof {
            assert(evidences@.subrange(0, i + 1).drop_last() =~= evidences@.subrange(0, i as int));
        }
        let ev = &evidences[i];
        if ev.applicable {
            acc = acc + ev.llr_centi as i128;
        }
        i = i + 1;
    }
    proof {
        assert(evidences@.subrange(0, evidences@.len() as int) =~= evidences@);
    }
    acc
}

/// Labels of the applicable strong evidences with an LLR of at least +1.40.
pub fn collect_strong_labels(evidences: &[Evidence]) -> (r: Vec<&'static str>)
    ensures
        r@.map_values(|s: &str| s@) == strong_labels(evidences@),
{
    let mut out: Vec<&'static str> = Vec::new();
    let mut i: usize = 0;
    while i < evidences.len()
        invariant
            i <= evidences.len(),
            out@.map_values(|s: &str| s@) == strong_labels(evidences@.subrange(0, i as int)),
        decreases evidences.len() - i,
    {
        proof {
            assert(evidences@.subrange(0, i + 1).drop_last() =~= evidences@.subrange(0, i as int));
        }
        let ev = &evidences[i];
        if ev.applicable && ev.code.is_strong() && ev.llr_centi >= STRONG_NAMED_MIN_CENTI {
            let ghost before = out@;
            out.push(ev.code.label());
            proof {
                assert(out@.map_values(|s: &str| s@) =~= before.map_values(|s: &str| s@).push(
                    evidence_label(ev.code),
                ));
            }
        }
        i = i + 1;
    }
    proof {
        assert(evidences@.subrange(0, evidences@.len() as int) =~= evidences@);
    }
    out
}

/// Evaluates the verdict of one file from its facts, evidences and guards.
///
/// A file that declares a lossy codec is `DeclaredLossy`. Otherwise the score
/// is the sum of the applicable LLRs and the verdict is its band: at most
/// -4.00 verified, at most -1.50 likely lossless; an active guard without a
/// strong evidence never convicts; below +1.50 inconclusive; a probable
/// transcode needs +4.00, a strong evidence and no guard, else suspicious.
pub fn evaluate_verdict(
    facts: &FormatFacts,
    evidences: &[Evidence],
    guards_triggered: &[String],
    is_strong_evidence_present: bool,
) -> (r: VerdictResult)
    ensures
        (r.verdict, r.score_centi as int, r.summary@) == verdict_spec(
            facts.codec@,
            facts.is_lossless_declared,
            evidences@,
            guard_texts(guards_triggered@),
            is_strong_evidence_present,
        ),
{
    if !facts.is_lossless_declared {
        let mut summary = facts.codec.clone();
        summary.append(". Formato con perdida declarado; contenedor y codec legitimos.");
        return VerdictResult { verdict: Verdict::DeclaredLossy, score_centi: 0, summary };
    }
    let score_centi = sum_applicable_llr(evidences);
    let has_guards = guards_triggered.len() > 0;
    let verdict = classify_score(score_centi, has_guards, is_strong_evidence_present);
    let ghost guards = guard_texts(guards_triggered@);
    let summary = match verdict {
        Verdict::LosslessVerified => String::from_str(
            "No se encontraron evidencias de una fuente con perdida. Espectro completo y coherente.",
        ),
        Verdict::LikelyLossless => String::from_str(
            "Sin evidencias relevantes de compresion. Algun indicador menor, compatible con el master de origen.",
        ),
        Verdict::Inconclusive => {
            if has_guards {
                let mut s = String::from_str("Inconcluso: Se activaron salvaguardas (");
                s.append(guards_triggered[0].as_str());
                s.append("). Ante duda, el sistema se abstiene de acusar.");
                s
            } else {
                String::from_str(
                    "No hay informacion suficiente para determinar la procedencia con alta confianza.",
                )
            }
        },
        Verdict::Suspicious => String::from_str(
            "El archivo declara formato sin perdida, pero presenta caida o anomalias compatibles con perdida de alta frecuencia.",
        ),
        Verdict::ProbableTranscode => {
            let labels = collect_strong_labels(evidences);
            if labels.len() > 0 {
                let mut s = String::from_str(
                    "Evidencia solida compatible con transcode de fuente con perdida. Evidencias fuertes: ",
                );
                let joined = join_strs(&labels, ", ");
                s.append(joined.as_str());
                s.append(".");
                s
            } else {
                String::from_str(
                    "Evidencia solida compatible con transcode de fuente previamente comprimida (MP3/AAC).",
                )
            }
        },
        Verdict::DeclaredLossy => String::new(),
    };
    VerdictResult { verdict, score_centi, summary }
}

/// Severity order of the verdicts of a lossless-declared file.
pub open spec fn verdict_rank(v: Verdict) -> int {
    match v {
        Verdict::LosslessVerified => 0,
        Verdict::LikelyLossless => 1,
        Verdict::Inconclusive => 2,
        Verdict::Suspicious => 3,
        Verdict::ProbableTranscode => 4,
        Verdict::DeclaredLossy => 5,
    }
}

/// A file that declares a lossy codec is always `DeclaredLossy`, with a zero
/// score, whatever its evidences and guards; a lossless-declared file never is.
pub proof fn law_declared_lossy_iff_not_lossless(
    codec: Seq<char>,
    lossless_declared: bool,
    evs: Seq<Evidence>,
    guards: Seq<Seq<char>>,
    strong: bool,
)
    ensures
        (verdict_spec(codec, lossless_declared, evs, guards, strong).0 == Verdict::DeclaredLossy)
            <==> !lossless_declared,
        !lossless_declared ==> verdict_spec(codec, lossless_declared, evs, guards, strong).1 == 0,
{
}

/// Strong-evidence gate: a probable transcode needs a lossless declaration,
/// a score of at least +4.00, a strong evidence and no active guard.
pub proof fn law_conviction_gate(
    codec: Seq<char>,
    lossless_declared: bool,
    evs: Seq<Evidence>,
    guards: Seq<Seq<char>>,
    strong: bool,
)
    ensures
        verdict_spec(codec, lossless_declared, evs, guards, strong).0 == Verdict::ProbableTranscode
            ==> lossless_declared && strong && guards.len() == 0 && applicable_llr_sum(evs)
            >= TRANSCODE_MIN_CENTI,
{
}

/// False-positive veto: with an active guard and no strong evidence the engine
/// never accuses; such a file is at most `Inconclusive`.
pub proof fn law_guards_veto_accusation(
    codec: Seq<char>,
    evs: Seq<Evidence>,
    guards: Seq<Seq<char>>,
)
    requires
        guards.len() > 0,
    ensures
        verdict_rank(verdict_spec(codec, true, evs, guards, false).0) <= 2,
{
}

/// The bands are ordered: a higher score never yields a milder verdict.
pub proof fn law_verdict_monotone_in_score(s1: int, s2: int, has_guards: bool, strong: bool)
    requires
        s1 <= s2,
    ensures
        verdict_rank(classify(s1, has_guards, strong)) <= verdict_rank(
            classify(s2, has_guards, strong),
        ),
{
}

/// Exoneration does not depend on guards nor on strong evidence: a score of at
/// most -1.50 is `LikelyLossless` or better whatever they are.
pub proof fn law_exoneration_by_score_alone(s: int, g1: bool, st1: bool, g2: bool, st2: bool)
    requires
        s <= LIKELY_MAX_CENTI,
    ensures
        classify(s, g1, st1) == classify(s, g2, st2),
        verdict_rank(classify(s, g1, st1)) <= 1,
{
}

/// Evidences that are not applicable never move the score.
pub proof fn law_inapplicable_evidence_is_neutral(evs: Seq<Evidence>, e: Evidence)
    requires
        !e.applicable,
    ensures
        applicable_llr_sum(evs.push(e)) == applicable_llr_sum(evs),
{
    assert(evs.push(e).drop_last() =~= evs);
}

/// Adding an applicable evidence with a non-negative LLR never makes the
/// verdict of a lossless-declared file milder.
pub proof fn law_accusing_evidence_never_exonerates(
    codec: Seq<char>,
    evs: Seq<Evidence>,
    e: Evidence,
    guards: Seq<Seq<char>>,
    strong: bool,
)
    requires
        e.applicable,
        e.llr_centi >= 0,
    ensures
        verdict_rank(verdict_spec(codec, true, evs, guards, strong).0) <= verdict_rank(
            verdict_spec(codec, true, evs.push(e), guards, strong).0,
        ),
{
    assert(evs.push(e).drop_last() =~= evs);
    law_verdict_monotone_in_score(
        applicable_llr_sum(evs),
        applicable_llr_sum(evs.push(e)),
        guards.len() > 0,
        strong,
    );
}

/// The verdict bands of a lossless-declared file, in terms of its score `s`
/// (in hundredths), whether a guard is active and whether a strong evidence
/// is present: at most -4.00 is verified lossless; up to -1.50 likely
/// lossless; below +1.50 inconclusive; an active guard without a strong
/// evidence abstains; from +1.50 on, a strong evidence makes the file at
/// least suspicious even under a guard, and only +4.00 with a strong
/// evidence and no guard convicts.
pub proof fn law_verdict_bands(
    codec: Seq<char>,
    evs: Seq<Evidence>,
    guards: Seq<Seq<char>>,
    strong: bool,
)
    ensures
        ({
            let s = applicable_llr_sum(evs);
            let g = guards.len() > 0;
            let v = verdict_spec(codec, true, evs, guards, strong).0;
            &&& s <= -400 ==> v == Verdict::LosslessVerified
            &&& -400 < s <= -150 ==> v == Verdict::LikelyLossless
            &&& -150 < s < 150 ==> v == Verdict::Inconclusive
            &&& s >= 150 && g && !strong ==> v == Verdict::Inconclusive
            &&& s >= 150 && g && strong ==> v == Verdict::Suspicious
            &&& 150 <= s < 400 && !g ==> v == Verdict::Suspicious
            &&& s >= 400 && !g && !strong ==> v == Verdict::Suspicious
            &&& s >= 400 && !g && strong ==> v == Verdict::ProbableTranscode
            &&& verdict_spec(codec, true, evs, guards, strong).1 == s
        }),
{
}

/// The same bands for the band decision alone, as `classify_score` makes it.
pub proof fn law_score_bands(s: int, g: bool, strong: bool)
    ensures
        s <= -400 ==> classify(s, g, strong) == Verdict::LosslessVerified,
        -400 < s <= -150 ==> classify(s, g, strong) == Verdict::LikelyLossless,
        -150 < s < 150 ==> classify(s, g, strong) == Verdict::Inconclusive,
        s >= 150 && g && !strong ==> classify(s, g, strong) == Verdict::Inconclusive,
        s >= 150 && strong ==> verdict_rank(classify(s, g, strong)) >= 3,
        s >= 150 && g && strong ==> classify(s, g, strong) == Verdict::Suspicious,
        150 <= s < 400 && !g ==> classify(s, g, strong) == Verdict::Suspicious,
        s >= 400 && !g && !strong ==> classify(s, g, strong) == Verdict::Suspicious,
        s >= 400 && !g && strong ==> classify(s, g, strong) == Verdict::ProbableTranscode,
{
}

/// The score is the sum of the LLRs of the applicable evidences: no
/// evidence scores zero, and one more evidence adds its LLR exactly when it
/// is applicable.
pub proof fn law_score_adds_applicable_llrs(evs: Seq<Evidence>, e: Evidence)
    ensures
        applicable_llr_sum(Seq::<Evidence>::empty()) == 0,
        e.applicable ==> applicable_llr_sum(evs.push(e)) == applicable_llr_sum(evs) + e.llr_centi,
        !e.applicable ==> applicable_llr_sum(evs.push(e)) == applicable_llr_sum(evs),
{
    assert(evs.push(e).drop_last() =~= evs);
}

} // verus!
