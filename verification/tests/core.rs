use ramblathon::buffer::DeltaBuffer;
use ramblathon::file::PersistedFile;
use ramblathon::gate::ConnectionGate;
use ramblathon::server::AdmitDecision;
use ramblathon::server::Server;
use ramblathon::server::u64_decimal;
use ramblathon::session::Frame;
use ramblathon::session::FrameOutcome;
use ramblathon::session::Phase;
use ramblathon::session::SessionHandler;

#[test]
fn buffer_starts_empty() {
    let mut b = DeltaBuffer::new();
    assert!(b.is_empty());
    assert_eq!(b.len(), 0);
    assert_eq!(b.drain_and_clear(), Vec::<u8>::new());
}

#[test]
fn buffer_appends_verbatim_in_order() {
    let mut b = DeltaBuffer::new();
    b.append(&b"hello".to_vec());
    b.append(&b" ".to_vec());
    b.append(&b"world".to_vec());
    assert_eq!(b.len(), 11);
    assert_eq!(b.drain_and_clear(), b"hello world".to_vec());
}

#[test]
fn second_drain_returns_empty() {
    let mut b = DeltaBuffer::new();
    b.append(&b"pending".to_vec());
    let first = b.drain_and_clear();
    let second = b.drain_and_clear();
    assert_eq!(first, b"pending".to_vec());
    assert!(second.is_empty());
    assert!(b.is_empty());
}

#[test]
fn gate_admits_exactly_one() {
    let mut g = ConnectionGate::new();
    assert!(!g.is_active());
    assert!(g.try_acquire());
    assert!(g.is_active());
    assert!(!g.try_acquire());
    assert!(g.is_active());
}

#[test]
fn gate_release_reopens_admission() {
    let mut g = ConnectionGate::new();
    assert!(g.try_acquire());
    g.release();
    assert!(!g.is_active());
    assert!(g.try_acquire());
}

#[test]
fn initial_message_is_exact_file_bytes() {
    let file = PersistedFile::from_bytes(b"the document so far".to_vec());
    let mut session = SessionHandler::admitted();
    assert_eq!(session.phase, Phase::SendingInitial);
    let msg = session.send_initial(&file);
    assert_eq!(msg, b"the document so far".to_vec());
    assert_eq!(session.phase, Phase::Streaming);
}

#[test]
fn initial_message_excludes_undrained_deltas() {
    let mut s = Server::with_file(PersistedFile::from_bytes(b"durable".to_vec()));
    s.buffer.append(&b"still pending".to_vec());
    let mut session = match s.try_admit() {
        AdmitDecision::Admitted(session) => session,
        AdmitDecision::TooManyRequests => panic!("admission should win on a fresh gate"),
    };
    let msg = session.send_initial(&s.file);
    assert_eq!(msg, b"durable".to_vec());
}

#[test]
fn text_frames_append_others_do_not() {
    let mut b = DeltaBuffer::new();
    let mut session = SessionHandler::admitted();
    let _ = session.send_initial(&PersistedFile::new());
    assert_eq!(session.on_frame(&mut b, &Frame::Text(b"abc".to_vec())), FrameOutcome::Appended);
    assert_eq!(session.on_frame(&mut b, &Frame::NonText), FrameOutcome::Ignored);
    assert_eq!(session.on_frame(&mut b, &Frame::Text(b"def".to_vec())), FrameOutcome::Appended);
    assert_eq!(b.drain_and_clear(), b"abcdef".to_vec());
    assert_eq!(session.phase, Phase::Streaming);
}

#[test]
fn transport_error_closes_session() {
    let mut b = DeltaBuffer::new();
    let mut session = SessionHandler::admitted();
    let _ = session.send_initial(&PersistedFile::new());
    session.on_frame(&mut b, &Frame::Text(b"kept".to_vec()));
    assert_eq!(session.on_frame(&mut b, &Frame::TransportError), FrameOutcome::SessionClosed);
    assert_eq!(session.phase, Phase::Closed);
    assert_eq!(b.drain_and_clear(), b"kept".to_vec());
}

#[test]
fn foo_then_bar_flushes_as_foobar() {
    let mut s = Server::new();
    let mut session = match s.try_admit() {
        AdmitDecision::Admitted(session) => session,
        AdmitDecision::TooManyRequests => panic!("admission should win on a fresh gate"),
    };
    let initial = session.send_initial(&s.file);
    assert!(initial.is_empty());
    session.on_frame(&mut s.buffer, &Frame::Text(b"foo".to_vec()));
    session.on_frame(&mut s.buffer, &Frame::Text(b"bar".to_vec()));
    let written = s.flush_tick();
    assert_eq!(written, Some(b"foobar".to_vec()));
    assert_eq!(s.backup_tick(), b"foobar".to_vec());
}

#[test]
fn concurrent_admissions_admit_exactly_one() {
    let mut s = Server::new();
    let first = s.try_admit();
    let second = s.try_admit();
    let mut winner = match first {
        AdmitDecision::Admitted(session) => session,
        AdmitDecision::TooManyRequests => panic!("first attempt should win"),
    };
    assert!(matches!(second, AdmitDecision::TooManyRequests));
    let initial = winner.send_initial(&s.file);
    assert!(initial.is_empty());
    winner.on_frame(&mut s.buffer, &Frame::Text(b"winner's words".to_vec()));
    assert_eq!(s.flush_tick(), Some(b"winner's words".to_vec()));
}

#[test]
fn rejected_admission_changes_nothing() {
    let mut s = Server::with_file(PersistedFile::from_bytes(b"doc".to_vec()));
    let _winner = s.try_admit();
    s.buffer.append(&b"pending".to_vec());
    let second = s.try_admit();
    assert!(matches!(second, AdmitDecision::TooManyRequests));
    assert_eq!(s.file.len(), 3);
    assert_eq!(s.buffer.len(), 7);
    assert_eq!(s.backup_tick(), b"doc".to_vec());
}

#[test]
fn empty_tick_is_a_no_op() {
    let mut s = Server::with_file(PersistedFile::from_bytes(b"unchanged".to_vec()));
    assert_eq!(s.flush_tick(), None);
    assert_eq!(s.backup_tick(), b"unchanged".to_vec());
}

#[test]
fn snapshot_equals_file_at_the_instant_of_the_copy() {
    let mut s = Server::with_file(PersistedFile::from_bytes(b"base;".to_vec()));
    s.buffer.append(&b"later".to_vec());
    assert_eq!(s.backup_tick(), b"base;".to_vec());
    s.flush_tick();
    assert_eq!(s.backup_tick(), b"base;later".to_vec());
}

#[test]
fn flushes_accumulate_in_drain_order() {
    let mut s = Server::new();
    s.buffer.append(&b"one ".to_vec());
    assert_eq!(s.flush_tick(), Some(b"one ".to_vec()));
    s.buffer.append(&b"two ".to_vec());
    s.buffer.append(&b"three".to_vec());
    assert_eq!(s.flush_tick(), Some(b"two three".to_vec()));
    assert_eq!(s.backup_tick(), b"one two three".to_vec());
}

#[test]
fn end_session_reopens_admission() {
    let mut s = Server::new();
    let _winner = s.try_admit();
    s.end_session();
    assert!(matches!(s.try_admit(), AdmitDecision::Admitted(_)));
}

#[test]
fn timestamps_render_in_decimal() {
    assert_eq!(u64_decimal(0), b"0".to_vec());
    assert_eq!(u64_decimal(7), b"7".to_vec());
    assert_eq!(u64_decimal(10), b"10".to_vec());
    assert_eq!(u64_decimal(1_697_040_000_123), b"1697040000123".to_vec());
    assert_eq!(u64_decimal(u64::MAX), b"18446744073709551615".to_vec());
}
