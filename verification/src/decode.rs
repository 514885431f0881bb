//! Decoding rules that do not touch the audio samples: safety limits,
//! duration and bitrate arithmetic, declared format facts, classification of
//! demuxer failures and the stratified window plan.
use vstd::prelude::*;
use crate::types::{codec_display_name, codec_is_lossless, Codec, FormatFacts};
use crate::text::{text_contains, text_occurs_at};

verus! {

/// Errors of the decoding stage.
#[derive(Debug, Clone, PartialEq, Eq)]
pub enum DecodeError {
    /// Input/output failure, with the system's message.
    Io(String),
    ZeroLength,
    FileTooLarge(u64),
    DurationExceeded(u64),
    /// A container was recognised but a codec or feature inside is not supported.
    Unsupported(String),
    /// No container reader recognised the stream.
    UnrecognizedFormat(String),
    CorruptedHeader(String),
    NoAudioTrack,
    DecoderInit(String),
    PacketDecode(String),
    Symphonia(String),
}

/// Largest file the engine accepts: 2 GiB.
pub const MAX_FILE_BYTES: u64 = 2147483648;
/// Longest audio the engine accepts: 3 hours, in milliseconds.
pub const MAX_DURATION_MS: u64 = 10800000;
/// Sample rate assumed when the stream does not declare one.
pub const DEFAULT_SAMPLE_RATE: u32 = 44100;
/// Channel count assumed when the stream does not declare one.
pub const DEFAULT_CHANNELS: u16 = 2;
/// Samples of a fine analysis window.
pub const WINDOW_SIZE_FINE: usize = 8192;
/// Samples of a fast analysis window.
pub const WINDOW_SIZE_FAST: usize = 1024;
/// Fine windows taken across a track.
pub const TARGET_SEGMENTS: usize = 12;
/// Fast windows taken across a track.
pub const FAST_SEGMENTS: usize = 32;

/// Rejects empty files and files over 2 GiB.
pub fn check_file_size(file_size: u64) -> (r: Result<(), DecodeError>)
    ensures
        file_size == 0 ==> r == Err::<(), DecodeError>(DecodeError::ZeroLength),
        file_size > MAX_FILE_BYTES ==> r == Err::<(), DecodeError>(
            DecodeError::FileTooLarge(file_size),
        ),
        0 < file_size <= MAX_FILE_BYTES ==> r is Ok,
{
    if file_size == 0 {
        return Err(DecodeError::ZeroLength);
    }
    if file_size > MAX_FILE_BYTES {
        return Err(DecodeError::FileTooLarge(file_size));
    }
    Ok(())
}

/// Whole milliseconds of `n_frames` frames at `sample_rate` (0 when either is
/// 0), saturated at the largest 64-bit value.
pub open spec fn duration_ms_spec(n_frames: nat, sample_rate: nat) -> nat {
    if sample_rate > 0 && n_frames > 0 {
        let q = (n_frames * 1000) / sample_rate;
        if q > u64::MAX {
            u64::MAX as nat
        } else {
            q
        }
    } else {
        0
    }
}

/// Duration in whole milliseconds of a stream of `n_frames` frames.
pub fn duration_ms(n_frames: u64, sample_rate: u32) -> (r: u64)
    ensures
        r as nat == duration_ms_spec(n_frames as nat, sample_rate as nat),
{
    if sample_rate == 0 || n_frames == 0 {
        return 0;
    }
    let total: u128 = n_frames as u128 * 1000;
    let q: u128 = total / (sample_rate as u128);
    if q > u64::MAX as u128 {
        u64::MAX
    } else {
        q as u64
    }
}

/// Rejects audio longer than 3 hours.
pub fn check_duration(duration_ms: u64) -> (r: Result<(), DecodeError>)
    ensures
        duration_ms > MAX_DURATION_MS ==> r == Err::<(), DecodeError>(
            DecodeError::DurationExceeded(duration_ms),
        ),
        duration_ms <= MAX_DURATION_MS ==> r is Ok,
{
    if duration_ms > MAX_DURATION_MS {
        return Err(DecodeError::DurationExceeded(duration_ms));
    }
    Ok(())
}

/// Bitrate of the whole container in kbit/s (bits per millisecond), wrapped to
/// 32 bits as a `u32` holds it; unknown without a duration.
pub open spec fn container_bitrate_spec(file_size: nat, duration_ms: nat) -> Option<u32> {
    if duration_ms > 0 {
        Some((((file_size * 8) / duration_ms) % 0x1_0000_0000) as u32)
    } else {
        None
    }
}

/// Container bitrate of a file of `file_size` bytes lasting `duration_ms`.
pub fn container_bitrate_kbps(file_size: u64, duration_ms: u64) -> (r: Option<u32>)
    ensures
        r == container_bitrate_spec(file_size as nat, duration_ms as nat),
{
    if duration_ms == 0 {
        return None;
    }
    let bits: u128 = file_size as u128 * 8;
    let q: u128 = bits / (duration_ms as u128);
    let low: u128 = q % 0x1_0000_0000;
    Some(low as u32)
}

/// The format facts that the stream parameters declare.
pub open spec fn format_facts_spec(
    container: Seq<char>,
    codec_type: Codec,
    sample_rate: Option<u32>,
    channels: Option<u16>,
    bit_depth: Option<u16>,
    n_frames: Option<u64>,
    file_size: nat,
) -> (Seq<char>, Seq<char>, Codec, u32, Option<u16>, u16, nat, Option<u32>, bool) {
    let sr = match sample_rate {
        Some(v) => v,
        None => DEFAULT_SAMPLE_RATE,
    };
    let ch = match channels {
        Some(v) => v,
        None => DEFAULT_CHANNELS,
    };
    let frames: nat = match n_frames {
        Some(v) => v as nat,
        None => 0,
    };
    let dur = duration_ms_spec(frames, sr as nat);
    (
        container,
        codec_display_name(codec_type),
        codec_type,
        sr,
        bit_depth,
        ch,
        dur,
        container_bitrate_spec(file_size, dur),
        codec_is_lossless(codec_type),
    )
}

pub open spec fn facts_tuple(f: FormatFacts) -> (
    Seq<char>,
    Seq<char>,
    Codec,
    u32,
    Option<u16>,
    u16,
    nat,
    Option<u32>,
    bool,
) {
    (
        f.container@,
        f.codec@,
        f.codec_type,
        f.sample_rate,
        f.bit_depth,
        f.channels,
        f.duration_ms as nat,
        f.container_bitrate_kbps,
        f.is_lossless_declared,
    )
}

/// Builds the declared format facts of a stream: sample rate and channels
/// default to 44100 Hz and 2, the codec is named by its display name, and
/// the file is lossless-declared exactly when its codec is lossless.
pub fn build_format_facts(
    container: String,
    codec_type: Codec,
    sample_rate: Option<u32>,
    channels: Option<u16>,
    bit_depth: Option<u16>,
    n_frames: Option<u64>,
    file_size: u64,
) -> (r: FormatFacts)
    ensures
        facts_tuple(r) == format_facts_spec(
            container@,
            codec_type,
            sample_rate,
            channels,
            bit_depth,
            n_frames,
            file_size as nat,
        ),
{
    let sr = match sample_rate {
        Some(v) => v,
        None => DEFAULT_SAMPLE_RATE,
    };
    let ch = match channels {
        Some(v) => v,
        None => DEFAULT_CHANNELS,
    };
    let frames = match n_frames {
        Some(v) => v,
        None => 0,
    };
    let dur = duration_ms(frames, sr);
    FormatFacts {
        container,
        codec: String::from_str(codec_type.display_name()),
        codec_type,
        sample_rate: sr,
        bit_depth,
        channels: ch,
        duration_ms: dur,
        container_bitrate_kbps: container_bitrate_kbps(file_size, dur),
        is_lossless_declared: codec_type.is_lossless(),
    }
}

/// How a demuxer or decoder failed, as the decoding edge reports it.
#[derive(Debug, Clone, PartialEq, Eq)]
pub enum StreamFailure {
    /// The reader or decoder does not support the stream; its message.
    Unsupported(String),
    /// Reading the stream failed; the system's message.
    Io(String),
    /// The stream is malformed; its message.
    Malformed(String),
    /// Any other failure; its message.
    Other(String),
}

/// Whether an unsupported-stream message means that no container reader
/// recognised the stream at all.
pub open spec fn no_reader_message(m: Seq<char>) -> bool {
    m == "unsupported format"@ || exists|i: int|
        text_occurs_at(m, "no suitable format reader"@, i)
}

/// The decoding error of a failure while probing the container: an
/// unrecognised container only when no reader accepted the stream, an
/// unsupported codec or feature when a reader did; read failures and
/// malformed headers keep their own kinds.
pub open spec fn probe_error_spec(f: StreamFailure) -> DecodeError {
    match f {
        StreamFailure::Unsupported(m) => if no_reader_message(m@) {
            DecodeError::UnrecognizedFormat(m)
        } else {
            DecodeError::Unsupported(m)
        },
        StreamFailure::Io(m) => DecodeError::Io(m),
        StreamFailure::Malformed(m) => DecodeError::CorruptedHeader(m),
        StreamFailure::Other(m) => DecodeError::UnrecognizedFormat(m),
    }
}

/// Classifies a failure of the container probe.
pub fn classify_probe_failure(f: StreamFailure) -> (r: DecodeError)
    ensures
        r == probe_error_spec(f),
{
    match f {
        StreamFailure::Unsupported(m) => {
            let no_reader = crate::text::text_eq(m.as_str(), "unsupported format") || text_contains(
                m.as_str(),
                "no suitable format reader",
            );
            if no_reader {
                DecodeError::UnrecognizedFormat(m)
            } else {
                DecodeError::Unsupported(m)
            }
        },
        StreamFailure::Io(m) => DecodeError::Io(m),
        StreamFailure::Malformed(m) => DecodeError::CorruptedHeader(m),
        StreamFailure::Other(m) => DecodeError::UnrecognizedFormat(m),
    }
}

/// The decoding error of a failure while creating the decoder: only an
/// unsupported codec is reported as such, anything else is an init failure.
pub open spec fn decoder_init_error_spec(f: StreamFailure) -> DecodeError {
    match f {
        StreamFailure::Unsupported(m) => DecodeError::Unsupported(m),
        StreamFailure::Io(m) => DecodeError::DecoderInit(m),
        StreamFailure::Malformed(m) => DecodeError::DecoderInit(m),
        StreamFailure::Other(m) => DecodeError::DecoderInit(m),
    }
}

/// Classifies a failure while creating the decoder.
pub fn classify_decoder_init_failure(f: StreamFailure) -> (r: DecodeError)
    ensures
        r == decoder_init_error_spec(f),
{
    match f {
        StreamFailure::Unsupported(m) => DecodeError::Unsupported(m),
        StreamFailure::Io(m) => DecodeError::DecoderInit(m),
        StreamFailure::Malformed(m) => DecodeError::DecoderInit(m),
        StreamFailure::Other(m) => DecodeError::DecoderInit(m),
    }
}

/// Start offsets of `count` windows of `window` samples spread evenly over a
/// pool of `pool_len` samples: window `i` starts at `i * ((pool_len - window) / count)`.
/// A pool shorter than one window yields no window.
pub open spec fn window_starts_spec(pool_len: nat, window: nat, count: nat) -> Seq<nat> {
    if pool_len < window || count == 0 {
        Seq::empty()
    } else {
        let step = ((pool_len - window) as nat / count) as nat;
        Seq::new(count, |i: int| (i * step) as nat)
    }
}

/// Start offsets of the evenly spread analysis windows of a sample pool.
pub fn window_starts(pool_len: usize, window: usize, count: usize) -> (r: Vec<usize>)
    ensures
        r@.map_values(|x: usize| x as nat) == window_starts_spec(
            pool_len as nat,
            window as nat,
            count as nat,
        ),
        forall|i: int| 0 <= i < r@.len() ==> r@[i] + window <= pool_len,
{
    let mut out: Vec<usize> = Vec::new();
    if pool_len < window || count == 0 {
        assert(out@.map_values(|x: usize| x as nat) =~= Seq::<nat>::empty());
        return out;
    }
    let step = (pool_len - window) / count;
    let mut i: usize = 0;
    while i < count
        invariant
            pool_len >= window,
            count > 0,
            step as int == (pool_len - window) as int / count as int,
            i <= count,
            out@.len() == i,
            forall|k: int| 0 <= k < i ==> out@[k] == k * step,
            forall|k: int| 0 <= k < i ==> out@[k] + window <= pool_len,
        decreases count - i,
    {
        assert(i * step <= pool_len - window) by (nonlinear_arith)
            requires
                i < count,
                step as int == (pool_len - window) as int / count as int,
                count > 0,
                pool_len >= window,
        ;
        out.push(i * step);
        i = i + 1;
    }
    assert(out@.map_values(|x: usize| x as nat) =~= window_starts_spec(
        pool_len as nat,
        window as nat,
        count as nat,
    ));
    out
}

/// The analysis windows of a sample pool, whatever the sample type: window
/// `k` is the copy of the pool from the `k`-th start of `window_starts_spec`
/// on, `window` samples long. A pool shorter than one window yields none.
pub fn analysis_windows<S: Copy>(pool: &Vec<S>, window: usize, count: usize) -> (r: Vec<Vec<S>>)
    ensures
        r@.len() == window_starts_spec(pool@.len(), window as nat, count as nat).len(),
        forall|k: int|
            0 <= k < r@.len() ==> #[trigger] r@[k]@ == pool@.subrange(
                window_starts_spec(pool@.len(), window as nat, count as nat)[k] as int,
                window_starts_spec(pool@.len(), window as nat, count as nat)[k] + window,
            ),
{
    let starts = window_starts(pool.len(), window, count);
    let ghost spec_starts = window_starts_spec(pool@.len(), window as nat, count as nat);
    assert(starts@.len() == spec_starts.len()) by {
        assert(starts@.map_values(|x: usize| x as nat).len() == starts@.len());
    }
    let mut out: Vec<Vec<S>> = Vec::new();
    let mut k: usize = 0;
    while k < starts.len()
        invariant
            k <= starts@.len(),
            starts@.len() == spec_starts.len(),
            starts@.map_values(|x: usize| x as nat) == spec_starts,
            spec_starts == window_starts_spec(pool@.len(), window as nat, count as nat),
            forall|i: int| 0 <= i < starts@.len() ==> starts@[i] + window <= pool@.len(),
            out@.len() == k,
            forall|i: int|
                0 <= i < k ==> #[trigger] out@[i]@ == pool@.subrange(
                    spec_starts[i] as int,
                    spec_starts[i] + window,
                ),
        decreases starts@.len() - k,
    {
        let start = starts[k];
        let n = pool.len();
        assert(start + window <= n);
        assert(spec_starts[k as int] == starts@[k as int] as nat) by {
            assert(starts@.map_values(|x: usize| x as nat)[k as int] == starts@[k as int] as nat);
        }
        let piece = vstd::slice::slice_to_vec(
            vstd::slice::slice_subrange(pool.as_slice(), start, start + window),
        );
        out.push(piece);
        k = k + 1;
    }
    out
}

/// A pool shorter than one window, completed with `fill` to one window.
pub fn padded_window<S: Copy>(pool: &Vec<S>, window: usize, fill: S) -> (r: Vec<S>)
    requires
        pool@.len() <= window,
    ensures
        r@.len() == window,
        r@.subrange(0, pool@.len() as int) == pool@,
        forall|i: int| pool@.len() <= i < window ==> #[trigger] r@[i] == fill,
{
    let mut out = vstd::slice::slice_to_vec(pool.as_slice());
    while out.len() < window
        invariant
            pool@.len() <= out@.len() <= window,
            out@.subrange(0, pool@.len() as int) == pool@,
            forall|i: int| pool@.len() <= i < out@.len() ==> #[trigger] out@[i] == fill,
        decreases window - out@.len(),
    {
        let ghost before = out@;
        out.push(fill);
        assert(out@.subrange(0, pool@.len() as int) =~= before.subrange(0, pool@.len() as int));
    }
    out
}

/// Every analysis window is exactly as long as asked and there are never
/// more of them than asked: at most twelve windows of 8192 samples and at
/// most thirty-two of 1024 for the plans of a decoding.
pub proof fn law_analysis_windows_have_the_planned_shape(pool_len: nat, window: nat, count: nat)
    ensures
        window_starts_spec(pool_len, window, count).len() <= count,
        forall|k: int|
            0 <= k < window_starts_spec(pool_len, window, count).len() ==> #[trigger] window_starts_spec(
                pool_len,
                window,
                count,
            )[k] + window <= pool_len,
{
    if pool_len >= window && count > 0 {
        let step = ((pool_len - window) as nat / count) as nat;
        assert forall|k: int| 0 <= k < count implies #[trigger] window_starts_spec(pool_len, window, count)[k]
            + window <= pool_len by {
            assert(k * step <= (count - 1) * step) by (nonlinear_arith)
                requires
                    0 <= k < count,
                    step >= 0,
            ;
            assert((count - 1) * step + step == count * step) by (nonlinear_arith);
            let d = (pool_len - window) as int;
            vstd::arithmetic::div_mod::lemma_fundamental_div_mod(d, count as int);
            assert(d % (count as int) >= 0);
            assert(step == d / (count as int));
            assert(count * step == (count as int) * (d / (count as int))) by (nonlinear_arith)
                requires
                    step == d / (count as int),
            ;
        }
    }
}

/// A stream that a container reader rejects as unsupported is reported as
/// an unsupported or unrecognised format, never as a corrupt header.
pub proof fn law_unsupported_stream_is_never_reported_corrupt(m: String)
    ensures
        probe_error_spec(StreamFailure::Unsupported(m)) matches DecodeError::Unsupported(_)
            || probe_error_spec(StreamFailure::Unsupported(m)) matches DecodeError::UnrecognizedFormat(_),
        decoder_init_error_spec(StreamFailure::Unsupported(m)) == DecodeError::Unsupported(m),
{
}

/// The declared facts of a stream, from its parameters: the container is
/// the one given; a missing rate or channel count defaults to 44100 Hz and
/// two channels; the duration is the whole milliseconds of the frames at
/// that rate; the bitrate is the bits of the file per millisecond; the file
/// is lossless-declared exactly unless its codec is MP3, AAC, Vorbis, Opus,
/// WMA or unknown. Files are limited to 2 GiB and three hours.
pub proof fn law_declared_facts(
    container: Seq<char>,
    codec: Codec,
    sample_rate: Option<u32>,
    channels: Option<u16>,
    bit_depth: Option<u16>,
    n_frames: Option<u64>,
    file_size: nat,
)
    ensures
        ({
            let t = format_facts_spec(container, codec, sample_rate, channels, bit_depth, n_frames, file_size);
            let sr: int = match sample_rate { Some(v) => v as int, None => 44100 };
            let frames: int = match n_frames { Some(v) => v as int, None => 0 };
            &&& t.0 == container
            &&& t.2 == codec
            &&& t.3 as int == sr
            &&& t.4 == bit_depth
            &&& t.5 == (match channels { Some(v) => v, None => 2u16 })
            &&& (sr > 0 && frames * 1000 / sr <= u64::MAX) ==> t.6 * sr <= frames * 1000 < (t.6 + 1) * sr
            &&& sr == 0 || frames == 0 ==> t.6 == 0
            &&& t.6 == 0 ==> t.7 is None
            &&& t.6 > 0 && file_size * 8 / t.6 < 0x1_0000_0000 ==> t.7 == Some((file_size * 8 / t.6) as u32)
            &&& t.8 <==> !(codec == Codec::Mp3 || codec == Codec::Aac || codec == Codec::Vorbis
                || codec == Codec::Opus || codec == Codec::Wma || codec == Codec::Unknown)
        }),
        MAX_FILE_BYTES == 2147483648,
        MAX_DURATION_MS == 10800000,
{
    let sr: int = match sample_rate { Some(v) => v as int, None => 44100 };
    let frames: int = match n_frames { Some(v) => v as int, None => 0 };
    if sr > 0 {
        let q = frames * 1000 / sr;
        vstd::arithmetic::div_mod::lemma_fundamental_div_mod(frames * 1000, sr);
        assert(0 <= (frames * 1000) % sr < sr);
        assert(q * sr == sr * q) by (nonlinear_arith);
        assert((q + 1) * sr == q * sr + sr) by (nonlinear_arith);
    }
}

/// The windows of a pool are spread evenly from its start: when a window
/// fits, there are exactly `count` of them, the first at 0 and each the same
/// step `(pool_len - window) / count` after the one before; a pool shorter
/// than one window, or a count of 0, gives none.
pub proof fn law_window_starts_are_evenly_spread(pool_len: nat, window: nat, count: nat)
    ensures
        pool_len < window || count == 0 ==> window_starts_spec(pool_len, window, count).len() == 0,
        pool_len >= window && count > 0 ==> window_starts_spec(pool_len, window, count).len() == count
            && window_starts_spec(pool_len, window, count)[0] == 0,
        pool_len >= window && count > 0 ==> forall|k: int|
            0 <= k < count - 1 ==> #[trigger] window_starts_spec(pool_len, window, count)[k + 1]
                == window_starts_spec(pool_len, window, count)[k] + (pool_len - window) / (count as int),
{
    if pool_len >= window && count > 0 {
        let step = ((pool_len - window) as nat / count) as nat;
        assert forall|k: int| 0 <= k < count - 1 implies #[trigger] window_starts_spec(pool_len, window, count)[k + 1]
            == window_starts_spec(pool_len, window, count)[k] + (pool_len - window) / (count as int) by {
            assert((k + 1) * step == k * step + step) by (nonlinear_arith);
            assert(k * step >= 0) by (nonlinear_arith)
                requires
                    k >= 0,
            ;
        }
    }
}

} // verus!
