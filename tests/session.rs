use libsoxr::{
    Action, Datatype, ErrorKind, IOSpec, ProcessResult, Session, StreamState,
};

fn stereo() -> Session {
    let io = IOSpec::new(Datatype::Float32I, Datatype::Float32I);
    Session::new(io, 2, 44100, 48000).unwrap()
}

fn counts(consumed: usize, produced: usize) -> ProcessResult {
    ProcessResult { consumed, produced }
}

#[test]
fn session_for_stereo_cd_to_dat_is_ready() {
    let s = stereo();
    assert_eq!(s.state(), StreamState::Ready);
    assert_eq!(s.num_channels(), 2);
    assert_eq!(s.input_rate(), 44100);
    assert_eq!(s.output_rate(), 48000);
    assert_eq!(s.io_spec(), IOSpec::new(Datatype::Float32I, Datatype::Float32I));
    assert_eq!(s.total_consumed(), 0);
    assert_eq!(s.total_produced(), 0);
}

#[test]
fn session_refuses_bad_configuration() {
    let io = IOSpec::new(Datatype::Int16I, Datatype::Int16I);
    let e = Session::new(io, 0, 44100, 48000).unwrap_err();
    assert_eq!(e.kind(), ErrorKind::Configuration);
    assert!(!e.message().is_empty());
    assert_eq!(Session::new(io, 2, 0, 48000).unwrap_err().kind(), ErrorKind::Configuration);
    assert_eq!(Session::new(io, 2, 44100, 0).unwrap_err().kind(), ErrorKind::Configuration);
    assert!(Session::new(io, 1, 1, 1).is_ok());
}

#[test]
fn feeding_asks_the_engine_for_input_and_output() {
    let mut s = stereo();
    let a = s.begin(100, 120).unwrap();
    assert_eq!(a, Action::Feed { input_frames: 100, output_frames: 120 });
    assert_eq!(s.state(), StreamState::Ready);
    let r = s.complete(a, Ok(counts(100, 37))).unwrap();
    assert_eq!(r, counts(100, 37));
    assert_eq!(s.total_consumed(), 100);
    assert_eq!(s.total_produced(), 37);
}

#[test]
fn consumed_frames_add_up_over_chunks() {
    let mut s = stereo();
    let chunks: [usize; 4] = [441, 1000, 7, 2962];
    let mut produced: u64 = 0;
    for n in chunks.iter() {
        let a = s.begin(*n, 2 * *n).unwrap();
        let out = *n * 48000 / 44100;
        s.complete(a, Ok(counts(*n, out))).unwrap();
        produced += out as u64;
    }
    assert_eq!(s.total_consumed(), 441 + 1000 + 7 + 2962);
    assert_eq!(s.total_produced(), produced);
}

#[test]
fn input_after_flush_is_invalid_state() {
    let mut s = stereo();
    let a = s.begin(0, 64).unwrap();
    assert_eq!(a, Action::Flush { output_frames: 64 });
    assert_eq!(s.state(), StreamState::Flushing);
    let e = s.begin(10, 64).unwrap_err();
    assert_eq!(e.kind(), ErrorKind::InvalidState);
    assert_eq!(s.state(), StreamState::Flushing);
    s.complete(a, Ok(counts(0, 64))).unwrap();
    assert_eq!(s.begin(1, 64).unwrap_err().kind(), ErrorKind::InvalidState);
}

#[test]
fn flush_drains_then_answers_nothing() {
    let mut s = stereo();
    let a = s.begin(0, 64).unwrap();
    s.complete(a, Ok(counts(0, 64))).unwrap();
    assert_eq!(s.state(), StreamState::Flushing);
    let a = s.begin(0, 64).unwrap();
    assert_eq!(s.complete(a, Ok(counts(0, 0))).unwrap(), counts(0, 0));
    assert_eq!(s.state(), StreamState::Drained);
    for _ in 0..3 {
        let a = s.begin(0, 64).unwrap();
        assert_eq!(a, Action::Immediate { result: counts(0, 0) });
        assert_eq!(s.complete(a, Ok(counts(0, 0))).unwrap(), counts(0, 0));
        assert_eq!(s.state(), StreamState::Drained);
    }
    assert_eq!(s.begin(5, 64).unwrap_err().kind(), ErrorKind::InvalidState);
}

#[test]
fn flush_without_room_does_not_drain() {
    let mut s = stereo();
    let a = s.begin(0, 0).unwrap();
    s.complete(a, Ok(counts(0, 0))).unwrap();
    assert_eq!(s.state(), StreamState::Flushing);
}

#[test]
fn engine_failure_is_processing_error() {
    let mut s = stereo();
    let a = s.begin(10, 10).unwrap();
    let e = s.complete(a, Err(String::from("out of memory"))).unwrap_err();
    assert_eq!(e.kind(), ErrorKind::Processing);
    assert_eq!(e.message(), "out of memory");
    assert_eq!(s.total_consumed(), 0);
    assert_eq!(s.state(), StreamState::Ready);
}

#[test]
fn engine_counts_beyond_buffers_are_refused() {
    let mut s = stereo();
    let a = s.begin(10, 10).unwrap();
    assert_eq!(s.complete(a, Ok(counts(11, 0))).unwrap_err().kind(), ErrorKind::Processing);
    assert_eq!(s.complete(a, Ok(counts(0, 11))).unwrap_err().kind(), ErrorKind::Processing);
    assert_eq!(s.total_consumed(), 0);
    let f = s.begin(0, 10).unwrap();
    assert_eq!(s.complete(f, Ok(counts(1, 0))).unwrap_err().kind(), ErrorKind::Processing);
    assert_eq!(s.state(), StreamState::Flushing);
}

#[test]
fn frames_in_interleaved_and_split_buffers() {
    let s = stereo();
    assert_eq!(s.frames_in_buffers(Datatype::Float32I, &vec![11]).unwrap(), 5);
    assert_eq!(s.frames_in_buffers(Datatype::Int16I, &vec![0]).unwrap(), 0);
    assert_eq!(s.frames_in_buffers(Datatype::Float64S, &vec![9, 4]).unwrap(), 4);
    assert_eq!(s.frames_in_buffers(Datatype::Int32S, &vec![3, 3]).unwrap(), 3);
    assert_eq!(
        s.frames_in_buffers(Datatype::Float32I, &vec![4, 4]).unwrap_err().kind(),
        ErrorKind::Processing
    );
    assert_eq!(
        s.frames_in_buffers(Datatype::Float32S, &vec![4]).unwrap_err().kind(),
        ErrorKind::Processing
    );
}
