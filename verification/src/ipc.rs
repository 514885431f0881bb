//! Worker protocol: length-prefixed framing of messages, and the decisions of
//! the worker and of its supervisor. The message bytes themselves are made by
//! the serialization edge; this module frames and checks them.
use vstd::prelude::*;

verus! {

/// Largest payload a reader accepts: 64 MiB.
pub const MAX_FRAME_PAYLOAD: u32 = 67108864;

/// A request to an analysis worker.
#[derive(Debug, Clone, PartialEq, Eq)]
pub enum WorkerRequest {
    AnalyzeFile { path: String, max_ms: u64 },
    Ping,
    Shutdown,
}

/// Why a frame could not be read.
#[derive(Debug, Clone, Copy, PartialEq, Eq)]
pub enum FrameError {
    /// The bytes end before the header or the payload does.
    Truncated,
    /// The header announces more than 64 MiB.
    TooLarge(u32),
}

/// The four little-endian bytes of a 32-bit length.
pub open spec fn le32(n: nat) -> Seq<u8> {
    seq![
        (n % 256) as u8,
        ((n / 256) % 256) as u8,
        ((n / 65536) % 256) as u8,
        ((n / 16777216) % 256) as u8,
    ]
}

/// The number that four little-endian bytes hold.
pub open spec fn le32_value(b: Seq<u8>) -> nat {
    (b[0] as nat) + 256 * (b[1] as nat) + 65536 * (b[2] as nat) + 16777216 * (b[3] as nat)
}

/// A framed message: the payload length modulo 2^32, little-endian, then the payload.
pub open spec fn frame_spec(payload: Seq<u8>) -> Seq<u8> {
    le32(payload.len() % 0x1_0000_0000) + payload
}

/// What a reader makes of a buffer that starts with a framed message.
pub open spec fn read_frame_spec(bytes: Seq<u8>) -> Result<Seq<u8>, FrameError> {
    if bytes.len() < 4 {
        Err(FrameError::Truncated)
    } else {
        let len = le32_value(bytes.subrange(0, 4));
        if len > MAX_FRAME_PAYLOAD {
            Err(FrameError::TooLarge(len as u32))
        } else if bytes.len() < 4 + len {
            Err(FrameError::Truncated)
        } else {
            Ok(bytes.subrange(4, 4 + len as int))
        }
    }
}

/// Encodes a 32-bit length as four little-endian bytes.
pub fn encode_le32(n: u32) -> (r: Vec<u8>)
    ensures
        r@ == le32(n as nat),
{
    let b0 = (n % 256) as u8;
    let b1 = ((n / 256) % 256) as u8;
    let b2 = ((n / 65536) % 256) as u8;
    let b3 = ((n / 16777216) % 256) as u8;
    let r = vec![b0, b1, b2, b3];
    assert(r@ =~= le32(n as nat));
    r
}

/// Decodes four little-endian bytes.
pub fn decode_le32(b: &[u8]) -> (r: u32)
    requires
        b@.len() >= 4,
    ensures
        r as nat == le32_value(b@),
{
    let v: u64 = b[0] as u64 + 256 * (b[1] as u64) + 65536 * (b[2] as u64) + 16777216 * (
    b[3] as u64);
    assert(v <= 0xFFFF_FFFF);
    v as u32
}

/// Frames a serialized message: its length as a little-endian `u32`, then
/// its bytes. A payload of 4 GiB or more has its length taken modulo 2^32.
pub fn frame_message(payload: &[u8]) -> (r: Vec<u8>)
    ensures
        r@ == frame_spec(payload@),
{
    let len: u32 = (payload.len() as u64 % 0x1_0000_0000) as u32;
    let mut out = encode_le32(len);
    let mut i: usize = 0;
    while i < payload.len()
        invariant
            i <= payload.len(),
            out@ == le32(payload@.len() % 0x1_0000_0000) + payload@.subrange(0, i as int),
        decreases payload.len() - i,
    {
        out.push(payload[i]);
        i = i + 1;
        assert(out@ =~= le32(payload@.len() % 0x1_0000_0000) + payload@.subrange(0, i as int));
    }
    assert(payload@.subrange(0, payload@.len() as int) =~= payload@);
    out
}

/// Reads the length header of a frame; lengths over 64 MiB are refused.
pub fn read_frame_length(header: &[u8]) -> (r: Result<u32, FrameError>)
    requires
        header@.len() >= 4,
    ensures
        le32_value(header@) > MAX_FRAME_PAYLOAD ==> r == Err::<u32, FrameError>(
            FrameError::TooLarge(le32_value(header@) as u32),
        ),
        le32_value(header@) <= MAX_FRAME_PAYLOAD ==> r == Ok::<u32, FrameError>(
            le32_value(header@) as u32,
        ),
{
    let len = decode_le32(header);
    if len > MAX_FRAME_PAYLOAD {
        Err(FrameError::TooLarge(len))
    } else {
        Ok(len)
    }
}

/// Reads the framed message at the start of `bytes`.
pub fn read_frame(bytes: &[u8]) -> (r: Result<Vec<u8>, FrameError>)
    ensures
        match r {
            Ok(p) => read_frame_spec(bytes@) == Ok::<Seq<u8>, FrameError>(p@),
            Err(e) => read_frame_spec(bytes@) == Err::<Seq<u8>, FrameError>(e),
        },
{
    if bytes.len() < 4 {
        return Err(FrameError::Truncated);
    }
    let len = match read_frame_length(&bytes[0..4]) {
        Ok(l) => l,
        Err(e) => {
            assert(bytes@.subrange(0, 4) =~= bytes@.subrange(0, 4));
            return Err(e);
        },
    };
    let len = len as usize;
    if bytes.len() - 4 < len {
        return Err(FrameError::Truncated);
    }
    let payload = vstd::slice::slice_to_vec(&bytes[4..4 + len]);
    Ok(payload)
}

proof fn lemma_le32_roundtrip(n: nat)
    requires
        n < 0x1_0000_0000,
    ensures
        le32_value(le32(n)) == n,
{
    let b0 = n % 256;
    let b1 = (n / 256) % 256;
    let b2 = (n / 65536) % 256;
    let b3 = (n / 16777216) % 256;
    assert(b0 + 256 * b1 + 65536 * b2 + 16777216 * b3 == n) by (nonlinear_arith)
        requires
            n < 0x1_0000_0000,
            b0 == n % 256,
            b1 == (n / 256) % 256,
            b2 == (n / 65536) % 256,
            b3 == (n / 16777216) % 256,
    ;
}

/// Framing round trip: a reader gives back exactly the payload that was
/// framed, whenever the payload is within the 64 MiB limit.
pub proof fn law_frame_roundtrip(payload: Seq<u8>)
    requires
        payload.len() <= MAX_FRAME_PAYLOAD,
    ensures
        read_frame_spec(frame_spec(payload)) == Ok::<Seq<u8>, FrameError>(payload),
{
    let f = frame_spec(payload);
    lemma_le32_roundtrip(payload.len());
    assert(f.subrange(0, 4) =~= le32(payload.len() % 0x1_0000_0000));
    assert(f.subrange(4, 4 + payload.len() as int) =~= payload);
}

/// A framed message may be followed by anything: the reader stops at its end.
pub proof fn law_frame_reads_first_message(payload: Seq<u8>, rest: Seq<u8>)
    requires
        payload.len() <= MAX_FRAME_PAYLOAD,
    ensures
        read_frame_spec(frame_spec(payload) + rest) == Ok::<Seq<u8>, FrameError>(payload),
{
    let f = frame_spec(payload) + rest;
    lemma_le32_roundtrip(payload.len());
    assert(f.subrange(0, 4) =~= le32(payload.len() % 0x1_0000_0000));
    assert(f.subrange(4, 4 + payload.len() as int) =~= payload);
}

/// What a worker does with what it read from its input.
#[derive(Debug, Clone, PartialEq, Eq)]
pub enum WorkerAction {
    /// Analyze this file and send back the report or the error.
    Analyze(String),
    /// Answer a ping.
    ReplyPong,
    /// Leave the loop: shutdown requested, or the input closed or broke.
    Stop,
}

/// The worker loop's decision for one request (`None` when reading failed).
pub fn worker_step(request: Option<WorkerRequest>) -> (a: WorkerAction)
    ensures
        match request {
            Some(WorkerRequest::AnalyzeFile { path, max_ms }) => a == WorkerAction::Analyze(path),
            Some(WorkerRequest::Ping) => a == WorkerAction::ReplyPong,
            _ => a == WorkerAction::Stop,
        },
{
    match request {
        Some(WorkerRequest::AnalyzeFile { path, .. }) => WorkerAction::Analyze(path),
        Some(WorkerRequest::Ping) => WorkerAction::ReplyPong,
        _ => WorkerAction::Stop,
    }
}

/// Whether the supervisor reuses its worker or starts a new one.
#[derive(Debug, Clone, Copy, PartialEq, Eq)]
pub enum WorkerLaunch {
    Reuse,
    Spawn,
}

/// A worker is reused only when one exists and is still alive.
pub fn ensure_worker_action(has_worker: bool, alive: bool) -> (r: WorkerLaunch)
    ensures
        r == (if has_worker && alive { WorkerLaunch::Reuse } else { WorkerLaunch::Spawn }),
{
    if has_worker && alive {
        WorkerLaunch::Reuse
    } else {
        WorkerLaunch::Spawn
    }
}

/// What came back from the worker for an analysis request.
#[derive(Debug, Clone, PartialEq, Eq)]
pub enum AnalyzeReply {
    /// A report.
    Success,
    /// The worker's error text.
    Error(String),
    /// An unexpected pong.
    Pong,
    /// Writing or reading the pipe failed: the failure's text.
    Transport(String),
}

/// The supervisor's decision on a reply.
#[derive(Debug, Clone, PartialEq, Eq)]
pub enum AnalyzeOutcome {
    /// Hand the report to the caller.
    Report,
    /// Fail with this message; when `kill_worker`, the worker is killed and dropped.
    Fail { message: String, kill_worker: bool },
}

pub open spec fn analyze_outcome_spec(path: Seq<char>, reply: AnalyzeReply) -> (bool, Seq<char>, bool) {
    match reply {
        AnalyzeReply::Success => (true, Seq::empty(), false),
        AnalyzeReply::Error(e) => (false, e@, false),
        AnalyzeReply::Pong => (false, "Respuesta inesperada del worker: Pong"@, false),
        AnalyzeReply::Transport(e) => (
            false,
            "Worker falló durante el análisis de "@ + path + ": "@ + e@,
            true,
        ),
    }
}

pub open spec fn outcome_tuple(o: AnalyzeOutcome) -> (bool, Seq<char>, bool) {
    match o {
        AnalyzeOutcome::Report => (true, Seq::empty(), false),
        AnalyzeOutcome::Fail { message, kill_worker } => (false, message@, kill_worker),
    }
}

/// Decides what an analysis reply means: a report is returned, a worker
/// error or an unexpected pong fails the request, and a broken pipe fails it
/// and retires the worker so that the next request starts a fresh one.
pub fn analyze_reply_outcome(path: &str, reply: AnalyzeReply) -> (r: AnalyzeOutcome)
    ensures
        outcome_tuple(r) == analyze_outcome_spec(path@, reply),
{
    match reply {
        AnalyzeReply::Success => AnalyzeOutcome::Report,
        AnalyzeReply::Error(e) => AnalyzeOutcome::Fail { message: e, kill_worker: false },
        AnalyzeReply::Pong => AnalyzeOutcome::Fail {
            message: String::from_str("Respuesta inesperada del worker: Pong"),
            kill_worker: false,
        },
        AnalyzeReply::Transport(e) => {
            let mut m = String::from_str("Worker falló durante el análisis de ");
            m.append(path);
            m.append(": ");
            m.append(e.as_str());
            AnalyzeOutcome::Fail { message: m, kill_worker: true }
        },
    }
}

} // verus!
