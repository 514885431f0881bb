use bdja::ipc::{
    analyze_reply_outcome, decode_le32, encode_le32, ensure_worker_action, frame_message,
    read_frame, read_frame_length, worker_step, AnalyzeOutcome, AnalyzeReply, FrameError,
    WorkerAction, WorkerLaunch, WorkerRequest, MAX_FRAME_PAYLOAD,
};

#[test]
fn test_ipc_framing_roundtrip() {
    // The serialized form of `AnalyzeFile { path, max_ms }`: variant 0, then its fields.
    let payload = bincode::serialize(&(0u32, "C:\\Music\\test.wav".to_string(), 5000u64))
        .expect("Failed to write");
    let buffer = frame_message(&payload);
    assert!(buffer.len() > 4);

    let read = read_frame(&buffer).expect("Failed to read");
    let (variant, path, max_ms): (u32, String, u64) = bincode::deserialize(&read).expect("Failed to read");
    match variant {
        0 => {
            assert_eq!(path, "C:\\Music\\test.wav");
            assert_eq!(max_ms, 5000);
        }
        _ => panic!("Wrong variant decoded"),
    }
}

#[test]
fn frame_header_is_little_endian_length() {
    let framed = frame_message(b"hello");
    assert_eq!(framed, vec![5, 0, 0, 0, b'h', b'e', b'l', b'l', b'o']);
    assert_eq!(encode_le32(0x0102_0304), vec![4, 3, 2, 1]);
    assert_eq!(decode_le32(&[4, 3, 2, 1, 9]), 0x0102_0304);
}

#[test]
fn reader_stops_at_the_end_of_the_first_frame() {
    let mut bytes = frame_message(b"abc");
    bytes.extend_from_slice(&frame_message(b"zz"));
    assert_eq!(read_frame(&bytes), Ok(b"abc".to_vec()));
    assert_eq!(read_frame(&frame_message(b"")), Ok(Vec::new()));
}

#[test]
fn truncated_and_oversized_frames_are_refused() {
    assert_eq!(read_frame(&[1, 0, 0]), Err(FrameError::Truncated));
    assert_eq!(read_frame(&[3, 0, 0, 0, 1, 2]), Err(FrameError::Truncated));
    let too_large = (MAX_FRAME_PAYLOAD + 1).to_le_bytes();
    assert_eq!(read_frame(&too_large), Err(FrameError::TooLarge(MAX_FRAME_PAYLOAD + 1)));
    assert_eq!(read_frame_length(&too_large), Err(FrameError::TooLarge(67108865)));
    assert_eq!(read_frame_length(&MAX_FRAME_PAYLOAD.to_le_bytes()), Ok(67108864));
}

#[test]
fn worker_loop_decisions() {
    assert_eq!(
        worker_step(Some(WorkerRequest::AnalyzeFile { path: "/a.flac".to_string(), max_ms: 1 })),
        WorkerAction::Analyze("/a.flac".to_string())
    );
    assert_eq!(worker_step(Some(WorkerRequest::Ping)), WorkerAction::ReplyPong);
    assert_eq!(worker_step(Some(WorkerRequest::Shutdown)), WorkerAction::Stop);
    assert_eq!(worker_step(None), WorkerAction::Stop);
}

#[test]
fn supervisor_reuses_only_a_live_worker() {
    assert_eq!(ensure_worker_action(true, true), WorkerLaunch::Reuse);
    assert_eq!(ensure_worker_action(true, false), WorkerLaunch::Spawn);
    assert_eq!(ensure_worker_action(false, true), WorkerLaunch::Spawn);
}

#[test]
fn supervisor_outcome_of_each_reply() {
    assert_eq!(analyze_reply_outcome("/x.wav", AnalyzeReply::Success), AnalyzeOutcome::Report);
    assert_eq!(
        analyze_reply_outcome("/x.wav", AnalyzeReply::Error("boom".to_string())),
        AnalyzeOutcome::Fail { message: "boom".to_string(), kill_worker: false }
    );
    assert_eq!(
        analyze_reply_outcome("/x.wav", AnalyzeReply::Pong),
        AnalyzeOutcome::Fail {
            message: "Respuesta inesperada del worker: Pong".to_string(),
            kill_worker: false
        }
    );
    assert_eq!(
        analyze_reply_outcome("/x.wav", AnalyzeReply::Transport("pipe".to_string())),
        AnalyzeOutcome::Fail {
            message: "Worker falló durante el análisis de /x.wav: pipe".to_string(),
            kill_worker: true
        }
    );
}
