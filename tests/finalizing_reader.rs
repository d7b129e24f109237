use object_reader::finalize::{FinalizePoll, FtpReader, Phase, ReadPoll, ReadStep};

// The connection is a number; the handshake built from it is that number
// plus 100, so a test can see which connection went into it.
type Reader = FtpReader<&'static str, u32, u32>;

fn handshake_of(c: u32) -> u32 {
    c + 100
}

#[test]
fn chunks_then_end_after_handshake() {
    let mut r: Reader = FtpReader::new("stream", 7);
    let mut answers: Vec<ReadPoll<String>> = Vec::new();
    for n in [3usize, 1, 512] {
        assert_eq!(r.current_phase(), Phase::Reading);
        match r.on_read(ReadPoll::Ready(Ok(n)), handshake_of) {
            ReadStep::Reply(p) => answers.push(p),
            ReadStep::PollFinalize => panic!("a chunk started the handshake"),
        }
    }
    // The stream ends: no answer yet, the handshake must be polled.
    let step = r.on_read(ReadPoll::<String>::Ready(Ok(0)), handshake_of);
    assert_eq!(step, ReadStep::PollFinalize);
    assert_eq!(r.current_phase(), Phase::Finalizing);
    assert_eq!(*r.handshake_mut(), 107);
    // The handshake is blocked: the caller hears "not ready", twice.
    answers.push(r.on_finalize(FinalizePoll::<String>::Pending));
    assert_eq!(r.current_phase(), Phase::Finalizing);
    answers.push(r.on_finalize(FinalizePoll::<String>::Pending));
    // Released: now the end of the stream is reported.
    answers.push(r.on_finalize(FinalizePoll::Ready(Ok(()))));
    assert_eq!(r.current_phase(), Phase::Done);
    assert_eq!(
        answers,
        vec![
            ReadPoll::Ready(Ok(3)),
            ReadPoll::Ready(Ok(1)),
            ReadPoll::Ready(Ok(512)),
            ReadPoll::Pending,
            ReadPoll::Pending,
            ReadPoll::Ready(Ok(0)),
        ]
    );
    assert_eq!(r.finished_poll::<String>(), ReadPoll::Ready(Ok(0)));
}

#[test]
fn failed_handshake_is_an_error() {
    let mut r: Reader = FtpReader::new("stream", 1);
    assert_eq!(
        r.on_read(ReadPoll::<String>::Ready(Ok(0)), handshake_of),
        ReadStep::PollFinalize
    );
    let answer = r.on_finalize(FinalizePoll::Ready(Err("550 refused".to_string())));
    assert_eq!(answer, ReadPoll::Ready(Err("550 refused".to_string())));
    assert_ne!(answer, ReadPoll::Ready(Ok(0)));
    assert_eq!(r.current_phase(), Phase::Done);
}

#[test]
fn stream_error_also_runs_handshake() {
    let mut r: Reader = FtpReader::new("stream", 5);
    let step = r.on_read(ReadPoll::Ready(Err("reset".to_string())), handshake_of);
    assert_eq!(step, ReadStep::PollFinalize);
    assert_eq!(r.current_phase(), Phase::Finalizing);
    assert_eq!(*r.handshake_mut(), 105);
    assert_eq!(r.on_finalize(FinalizePoll::<String>::Ready(Ok(()))), ReadPoll::Ready(Ok(0)));
}

#[test]
fn pending_stream_passes_through() {
    let mut r: Reader = FtpReader::new("stream", 2);
    assert_eq!(
        r.on_read(ReadPoll::<String>::Pending, handshake_of),
        ReadStep::Reply(ReadPoll::Pending)
    );
    assert_eq!(r.current_phase(), Phase::Reading);
    assert_eq!(*r.reader_mut(), "stream");
}

#[test]
fn end_of_stream_leaves_reading_at_once() {
    // After one end of the stream the reader is no longer reading, so a
    // second end cannot reach the connection again.
    let mut r: Reader = FtpReader::new("stream", 9);
    let mut takes = 0;
    let step = r.on_read(ReadPoll::<String>::Ready(Ok(0)), |c| {
        takes += 1;
        handshake_of(c)
    });
    assert_eq!(step, ReadStep::PollFinalize);
    assert_eq!(takes, 1);
    assert_ne!(r.current_phase(), Phase::Reading);
}
