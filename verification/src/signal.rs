//! The decoded signal handed to the analysis: the sample pools filled while
//! decoding and the analysis windows cut from them. The sample type is left
//! open; what is fixed here is the shape of everything decoding hands on.
use vstd::prelude::*;
use crate::decode::{
    analysis_windows, law_analysis_windows_have_the_planned_shape, padded_window,
    window_starts_spec, FAST_SEGMENTS, MAX_DURATION_MS, TARGET_SEGMENTS, WINDOW_SIZE_FAST,
    WINDOW_SIZE_FINE,
};
use crate::forensic::ForensicEvidence;
use crate::types::FormatFacts;

verus! {

/// Most mono samples kept from a decoding (32 fine windows).
pub const MONO_POOL_SAMPLES: usize = 262144;

/// Most samples kept of each of the left and right channels (16 fine windows).
pub const CHANNEL_POOL_SAMPLES: usize = 131072;

/// The samples kept while decoding: the mono mix, and the two channels of
/// the first part of it.
pub struct SamplePools<S> {
    pub mono: Vec<S>,
    pub left: Vec<S>,
    pub right: Vec<S>,
}

impl<S: Copy> SamplePools<S> {
    pub open spec fn well_formed(&self) -> bool {
        &&& self.mono@.len() <= MONO_POOL_SAMPLES
        &&& self.left@.len() == self.right@.len()
        &&& self.left@.len() <= CHANNEL_POOL_SAMPLES
    }

    /// Empty pools.
    pub fn new() -> (r: Self)
        ensures
            r.well_formed(),
            r.mono@.len() == 0,
            r.left@.len() == 0,
            r.right@.len() == 0,
    {
        SamplePools { mono: Vec::new(), left: Vec::new(), right: Vec::new() }
    }

    /// Keeps one decoded frame: its mono mix while the mono pool has room,
    /// and with it the two channel samples while the channel pools have room.
    pub fn push_frame(&mut self, mono: S, left: S, right: S)
        requires
            old(self).well_formed(),
        ensures
            final(self).well_formed(),
            old(self).mono@.len() < MONO_POOL_SAMPLES ==> final(self).mono@ == old(self).mono@.push(mono),
            old(self).mono@.len() >= MONO_POOL_SAMPLES ==> final(self).mono@ == old(self).mono@,
            old(self).mono@.len() < MONO_POOL_SAMPLES && old(self).left@.len() < CHANNEL_POOL_SAMPLES
                ==> final(self).left@ == old(self).left@.push(left) && final(self).right@ == old(
                self,
            ).right@.push(right),
            !(old(self).mono@.len() < MONO_POOL_SAMPLES && old(self).left@.len() < CHANNEL_POOL_SAMPLES)
                ==> final(self).left@ == old(self).left@ && final(self).right@ == old(self).right@,
    {
        if self.mono.len() < MONO_POOL_SAMPLES {
            self.mono.push(mono);
            if self.left.len() < CHANNEL_POOL_SAMPLES {
                self.left.push(left);
                self.right.push(right);
            }
        }
    }
}

/// The windows of `window` samples planned over a pool, as sequences.
pub open spec fn planned_windows<S>(pool: Seq<S>, window: nat, count: nat) -> Seq<Seq<S>> {
    let starts = window_starts_spec(pool.len(), window, count);
    Seq::new(starts.len(), |k: int| pool.subrange(starts[k] as int, (starts[k] + window) as int))
}

/// The windows whose mark is set, in order (`keep` as long as `windows`).
pub open spec fn kept_windows<S>(windows: Seq<Seq<S>>, keep: Seq<bool>) -> Seq<Seq<S>>
    decreases windows.len(),
{
    if windows.len() == 0 {
        Seq::empty()
    } else {
        let prev = kept_windows(windows.drop_last(), keep.drop_last());
        if keep.last() {
            prev.push(windows.last())
        } else {
            prev
        }
    }
}

/// The fine windows of a decoding: the planned 8192-sample windows that
/// carry energy (`keep`); a pool shorter than one window gives that pool
/// completed with silence; an empty pool gives none.
pub open spec fn fine_windows_spec<S>(mono: Seq<S>, keep: Seq<bool>, silence: S) -> Seq<Seq<S>> {
    if mono.len() >= WINDOW_SIZE_FINE {
        kept_windows(planned_windows(mono, WINDOW_SIZE_FINE as nat, TARGET_SEGMENTS as nat), keep)
    } else if mono.len() > 0 {
        seq![mono + Seq::new((WINDOW_SIZE_FINE - mono.len()) as nat, |i: int| silence)]
    } else {
        Seq::empty()
    }
}

pub open spec fn window_views<S>(w: Seq<Vec<S>>) -> Seq<Seq<S>> {
    w.map_values(|v: Vec<S>| v@)
}

/// What decoding hands to the analysis.
pub struct DecodedSignal<S> {
    pub facts: FormatFacts,
    pub forensic: ForensicEvidence,
    pub sample_rate: u32,
    pub channels: u16,
    pub windows_8192: Vec<Vec<S>>,
    pub windows_1024: Vec<Vec<S>>,
    pub left_channel_samples: Vec<S>,
    pub right_channel_samples: Vec<S>,
}

proof fn lemma_planned_windows_shape<S>(pool: Seq<S>, window: nat, count: nat)
    ensures
        planned_windows(pool, window, count).len() <= count,
        forall|k: int|
            0 <= k < planned_windows(pool, window, count).len() ==> (#[trigger] planned_windows(
                pool,
                window,
                count,
            )[k]).len() == window,
{
    law_analysis_windows_have_the_planned_shape(pool.len(), window, count);
}

fn copy_windows<S: Copy>(pool: &Vec<S>, window: usize, count: usize) -> (r: Vec<Vec<S>>)
    ensures
        window_views(r@) == planned_windows(pool@, window as nat, count as nat),
{
    let w = analysis_windows(pool, window, count);
    assert(window_views(w@) =~= planned_windows(pool@, window as nat, count as nat));
    w
}

/// Puts together what decoding hands on: the declared facts (whose
/// container is the one the bytes show), the forensic record, the channel
/// pools, the fine windows that carry energy and the fast windows.
pub fn assemble_decoded<S: Copy>(
    facts: FormatFacts,
    forensic: ForensicEvidence,
    pools: SamplePools<S>,
    keep: Vec<bool>,
    silence: S,
) -> (r: DecodedSignal<S>)
    requires
        facts.container@ == forensic.detected_magic_type@,
        facts.duration_ms <= MAX_DURATION_MS,
        pools.well_formed(),
        keep@.len() == window_starts_spec(
            pools.mono@.len(),
            WINDOW_SIZE_FINE as nat,
            TARGET_SEGMENTS as nat,
        ).len(),
    ensures
        window_views(r.windows_8192@) == fine_windows_spec(pools.mono@, keep@, silence),
        window_views(r.windows_1024@) == planned_windows(
            pools.mono@,
            WINDOW_SIZE_FAST as nat,
            FAST_SEGMENTS as nat,
        ),
        r.left_channel_samples@ == pools.left@,
        r.right_channel_samples@ == pools.right@,
        r.facts == facts,
        r.forensic == forensic,
        r.sample_rate == r.facts.sample_rate,
        r.channels == r.facts.channels,
        r.facts.container@ == r.forensic.detected_magic_type@,
        r.facts.duration_ms <= MAX_DURATION_MS,
        r.windows_8192@.len() <= TARGET_SEGMENTS,
        forall|k: int| 0 <= k < r.windows_8192@.len() ==> (#[trigger] r.windows_8192@[k])@.len() == WINDOW_SIZE_FINE,
        r.windows_1024@.len() <= FAST_SEGMENTS,
        forall|k: int| 0 <= k < r.windows_1024@.len() ==> (#[trigger] r.windows_1024@[k])@.len() == WINDOW_SIZE_FAST,
        r.left_channel_samples@.len() == r.right_channel_samples@.len(),
        r.left_channel_samples@.len() <= CHANNEL_POOL_SAMPLES,
{
    let ghost mono = pools.mono@;
    proof {
        lemma_planned_windows_shape(mono, WINDOW_SIZE_FINE as nat, TARGET_SEGMENTS as nat);
        lemma_planned_windows_shape(mono, WINDOW_SIZE_FAST as nat, FAST_SEGMENTS as nat);
    }
    let fast = copy_windows(&pools.mono, WINDOW_SIZE_FAST, FAST_SEGMENTS);
    assert(fast@.len() == window_views(fast@).len());
    assert forall|k: int| 0 <= k < fast@.len() implies (#[trigger] fast@[k])@.len() == WINDOW_SIZE_FAST by {
        assert(window_views(fast@)[k] == fast@[k]@);
    }
    let mut fine: Vec<Vec<S>> = Vec::new();
    if pools.mono.len() >= WINDOW_SIZE_FINE {
        let planned = copy_windows(&pools.mono, WINDOW_SIZE_FINE, TARGET_SEGMENTS);
        let ghost pv = window_views(planned@);
        assert(planned@.len() == pv.len());
        let mut k: usize = 0;
        assert(pv.subrange(0, 0) =~= Seq::<Seq<S>>::empty());
        while k < planned.len()
            invariant
                pv == window_views(planned@),
                pv == planned_windows(mono, WINDOW_SIZE_FINE as nat, TARGET_SEGMENTS as nat),
                planned@.len() == pv.len(),
                keep@.len() == planned@.len(),
                planned@.len() <= TARGET_SEGMENTS,
                forall|i: int| 0 <= i < pv.len() ==> (#[trigger] pv[i]).len() == WINDOW_SIZE_FINE,
                k <= planned@.len(),
                fine@.len() <= k,
                window_views(fine@) == kept_windows(pv.subrange(0, k as int), keep@.subrange(0, k as int)),
                forall|i: int| 0 <= i < fine@.len() ==> (#[trigger] fine@[i])@.len() == WINDOW_SIZE_FINE,
            decreases planned@.len() - k,
        {
            let ghost before = fine@;
            assert(pv.subrange(0, k + 1).drop_last() =~= pv.subrange(0, k as int));
            assert(keep@.subrange(0, k + 1).drop_last() =~= keep@.subrange(0, k as int));
            assert(pv.subrange(0, k + 1).last() == pv[k as int]);
            assert(keep@.subrange(0, k + 1).last() == keep@[k as int]);
            if keep[k] {
                let copy = vstd::slice::slice_to_vec(planned[k].as_slice());
                assert(copy@ == pv[k as int]);
                fine.push(copy);
                assert(window_views(fine@) =~= window_views(before).push(copy@));
            } else {
                assert(fine@ == before);
            }
            k = k + 1;
        }
        assert(pv.subrange(0, planned@.len() as int) =~= pv);
        assert(keep@.subrange(0, planned@.len() as int) =~= keep@);
    } else if pools.mono.len() > 0 {
        let w = padded_window(&pools.mono, WINDOW_SIZE_FINE, silence);
        assert(w@ =~= mono + Seq::new((WINDOW_SIZE_FINE - mono.len()) as nat, |i: int| silence));
        fine.push(w);
        assert(window_views(fine@) =~= fine_windows_spec(mono, keep@, silence));
    } else {
        assert(window_views(fine@) =~= Seq::<Seq<S>>::empty());
    }
    let sample_rate = facts.sample_rate;
    let channels = facts.channels;
    DecodedSignal {
        facts,
        forensic,
        sample_rate,
        channels,
        windows_8192: fine,
        windows_1024: fast,
        left_channel_samples: pools.left,
        right_channel_samples: pools.right,
    }
}

/// The plans of a decoding: at most twelve windows of 8192 samples and at
/// most thirty-two of 1024, each inside the mono pool of at most 262144
/// samples; the channel pools hold at most 131072 samples each.
pub proof fn law_decoding_plan_bounds(mono_len: nat)
    requires
        mono_len <= 262144,
    ensures
        window_starts_spec(mono_len, 8192, 12).len() <= 12,
        window_starts_spec(mono_len, 1024, 32).len() <= 32,
        forall|k: int|
            0 <= k < window_starts_spec(mono_len, 8192, 12).len() ==> #[trigger] window_starts_spec(
                mono_len,
                8192,
                12,
            )[k] + 8192 <= mono_len,
        forall|k: int|
            0 <= k < window_starts_spec(mono_len, 1024, 32).len() ==> #[trigger] window_starts_spec(
                mono_len,
                1024,
                32,
            )[k] + 1024 <= mono_len,
        MONO_POOL_SAMPLES == 262144,
        CHANNEL_POOL_SAMPLES == 131072,
        MONO_POOL_SAMPLES == 32 * WINDOW_SIZE_FINE,
        CHANNEL_POOL_SAMPLES == 16 * WINDOW_SIZE_FINE,
{
    law_analysis_windows_have_the_planned_shape(mono_len, 8192, 12);
    law_analysis_windows_have_the_planned_shape(mono_len, 1024, 32);
}

} // verus!
