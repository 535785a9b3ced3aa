use shm_processor::buffer::{BufferError, ExternalBuffer, Mapping, Role, Segment};
use shm_processor::compute::{compute, digest, increment_bytes, reverse_bytes, Backend, ComputeError};
use shm_processor::frame::{decode_frame, encode_frame};
use shm_processor::reth::{precompile_reply, PrecompileOutcome, Reth};
use shm_processor::selector::{lookup_precompile, same_text, selector_from_field, trim_field};
use shm_processor::session::{Action, Config, ErrorPolicy, Event, Exit, Phase, Release, Session, ERROR_FRAME};

const EMPTY_SHA256: [u8; 32] = [
    0xe3, 0xb0, 0xc4, 0x42, 0x98, 0xfc, 0x1c, 0x14, 0x9a, 0xfb, 0xf4, 0xc8, 0x99, 0x6f, 0xb9, 0x24,
    0x27, 0xae, 0x41, 0xe4, 0x64, 0x9b, 0x93, 0x4c, 0xa4, 0x95, 0x99, 0x1b, 0x78, 0x52, 0xb8, 0x55,
];

const HELLO_SHA256: [u8; 32] = [
    0x2c, 0xf2, 0x4d, 0xba, 0x5f, 0xb0, 0xa3, 0x0e, 0x26, 0xe8, 0x3b, 0x2a, 0xc5, 0xb9, 0xe2, 0x9e,
    0x1b, 0x16, 0x1e, 0x5c, 0x1f, 0xa7, 0x42, 0x5e, 0x73, 0x04, 0x33, 0x62, 0x93, 0x8b, 0x98, 0x24,
];

fn config(identity: &str, owns_output: bool, multi_method: bool, policy: ErrorPolicy) -> Config {
    Config { identity: identity.to_string(), capacity: 64, owns_output, multi_method, policy }
}

/// Runs the handshake with input key 7 and output key 42.
fn handshake(s: &mut Session) {
    assert!(matches!(s.step(Event::Connected), Action::SendIdentity(_)));
    assert!(matches!(s.step(Event::Sent), Action::ReadFrame));
    assert!(matches!(s.step(Event::Frame(7)), Action::Attach(Role::Input, 7)));
    assert!(matches!(s.step(Event::Attached), Action::ReadFrame));
    assert!(matches!(s.step(Event::Frame(42)), Action::Attach(Role::Output, 42)));
}

#[test]
fn frame_encoding_is_big_endian() {
    assert_eq!(encode_frame(32), [0, 0, 0, 32]);
    assert_eq!(encode_frame(0x0102_0304), [1, 2, 3, 4]);
    assert_eq!(decode_frame(&[0, 0, 0, 5]), 5);
    assert_eq!(decode_frame(&[0xde, 0xad, 0xbe, 0xef]), 0xdead_beef);
    assert_eq!(decode_frame(&encode_frame(0xffff_ffff)), 0xffff_ffff);
}

#[test]
fn segment_round_trip() {
    let mut seg = Segment::new(16);
    assert_eq!(seg.capacity(), 16);
    for n in [0usize, 1, 5, 16] {
        let bytes: Vec<u8> = (0..n).map(|i| (i as u8).wrapping_mul(37).wrapping_add(1)).collect();
        assert!(seg.write(&bytes).is_ok());
        assert_eq!(seg.read(n).unwrap(), bytes);
    }
}

#[test]
fn segment_rejects_lengths_beyond_capacity() {
    let mut seg = Segment::new(4);
    assert!(matches!(seg.write(&[1, 2, 3, 4, 5]), Err(BufferError::OutOfBounds)));
    assert!(matches!(seg.read(5), Err(BufferError::OutOfBounds)));
    assert_eq!(seg.read(4).unwrap(), vec![0, 0, 0, 0]);
}

#[test]
fn view_beyond_capacity_fails() {
    let b = ExternalBuffer::attached(3, Role::Input, 10, false);
    assert_eq!(b.view(11), Err(BufferError::OutOfBounds));
    assert_eq!(b.view(usize::MAX), Err(BufferError::OutOfBounds));
    assert_eq!(b.view(10), Ok(10));
    assert_eq!(b.view(0), Ok(0));
}

#[test]
fn buffer_lifecycle() {
    let mut b = ExternalBuffer::attached(9, Role::Output, 10, true);
    assert_eq!(b.destroy(), Err(BufferError::StillAttached));
    assert!(b.detach());
    assert!(!b.detach());
    assert_eq!(b.view(1), Err(BufferError::NotAttached));
    assert_eq!(b.destroy(), Ok(()));
    assert_eq!(b.mapping, Mapping::Destroyed);
    assert_eq!(b.destroy(), Err(BufferError::AlreadyDestroyed));
    let mut shared = ExternalBuffer::attached(9, Role::Input, 10, false);
    shared.detach();
    assert_eq!(shared.destroy(), Err(BufferError::NotOwner));
}

#[test]
fn reverse_twice_is_identity() {
    let input = vec![1u8, 2, 3, 250, 0];
    let once = reverse_bytes(&input);
    assert_eq!(once, vec![0, 250, 3, 2, 1]);
    assert_eq!(reverse_bytes(&once), input);
    assert!(reverse_bytes(&[]).is_empty());
}

#[test]
fn increment_wraps() {
    assert_eq!(increment_bytes(&[0xFF, 0x01]), vec![0x00, 0x02]);
    assert!(increment_bytes(&[]).is_empty());
    let r = compute(&Backend::Increment, "", &[0x7f, 0xfe]).unwrap();
    assert_eq!(r, vec![0x80, 0xff]);
}

#[test]
fn digest_of_empty_input() {
    assert_eq!(digest(&[]), EMPTY_SHA256.to_vec());
    let r = compute(&Backend::Digest, "", &[]).unwrap();
    assert_eq!(r, EMPTY_SHA256.to_vec());
}

#[test]
fn digest_is_deterministic() {
    assert_eq!(digest(b"hello"), HELLO_SHA256.to_vec());
    assert_eq!(digest(b"hello"), digest(b"hello"));
    assert_ne!(digest(b"hello"), digest(b"hellp"));
}

#[test]
fn unknown_selector_whatever_the_input() {
    let backend = Backend::Precompiles(Reth::new());
    for input in [&b""[..], &b"abc"[..], &[0u8; 200][..]] {
        let r = compute(&backend, "not-a-real-method", input);
        assert!(matches!(r, Err(ComputeError::UnknownSelector)));
    }
}

#[test]
fn precompile_calls() {
    let reth = Reth::new();
    assert_eq!(reth.handle_precompile_call("sha256", b"hello").unwrap(), HELLO_SHA256.to_vec());
    assert_eq!(reth.handle_precompile_call("dataCopy", &[9, 8, 7]).unwrap(), vec![9, 8, 7]);
    assert!(matches!(reth.handle_precompile_call("SHA256", b""), Err(ComputeError::UnknownSelector)));
}

#[test]
fn precompile_outcomes_map_to_replies() {
    assert_eq!(precompile_reply(PrecompileOutcome::Success(vec![1, 2])).unwrap(), vec![1, 2]);
    assert!(matches!(
        precompile_reply(PrecompileOutcome::Revert(vec![3])),
        Err(ComputeError::Reverted(b)) if b == vec![3]
    ));
    assert!(matches!(
        precompile_reply(PrecompileOutcome::Halt("OutOfGas".to_string())),
        Err(ComputeError::Halted(_))
    ));
    assert!(matches!(
        precompile_reply(PrecompileOutcome::Fatal("x".to_string())),
        Err(ComputeError::Fatal(_))
    ));
}

#[test]
fn selector_table() {
    assert_eq!(lookup_precompile("ecrecover"), Some(1));
    assert_eq!(lookup_precompile("blake2F"), Some(9));
    assert_eq!(lookup_precompile("kzgPointEvaluation"), Some(10));
    assert_eq!(lookup_precompile("bls12381MapG2"), Some(17));
    assert_eq!(lookup_precompile("ecrecove"), None);
    assert_eq!(lookup_precompile(""), None);
    assert!(same_text("abc", "abc"));
    assert!(!same_text("abc", "abd"));
}

#[test]
fn selector_field_is_trimmed() {
    let mut field = [0u8; 64];
    field[..6].copy_from_slice(b"sha256");
    assert_eq!(selector_from_field(&field), "sha256");
    let mut padded = [b' '; 64];
    padded[2..10].copy_from_slice(b"bn256Add");
    padded[63] = 0;
    assert_eq!(selector_from_field(&padded), "bn256Add");
    assert_eq!(trim_field(&[0, 0, b'a', 0, b'b', b'\n', 0]), vec![b'a', 0, b'b']);
    assert!(trim_field(&[0u8; 64]).is_empty());
}

#[test]
fn end_to_end_digest_request() {
    let mut s = Session::new(config("demo", false, false, ErrorPolicy::Abort));
    match s.step(Event::Connected) {
        Action::SendIdentity(id) => assert_eq!(id, "demo"),
        other => panic!("unexpected {:?}", other),
    }
    assert!(matches!(s.step(Event::Sent), Action::ReadFrame));
    assert!(matches!(s.step(Event::Frame(7)), Action::Attach(Role::Input, 7)));
    assert!(matches!(s.step(Event::Attached), Action::ReadFrame));
    assert!(matches!(s.step(Event::Frame(42)), Action::Attach(Role::Output, 42)));
    assert!(matches!(s.step(Event::Attached), Action::ReadFrame));
    assert_eq!(s.status.phase, Phase::Ready);

    let mut input = Segment::new(64);
    let mut output = Segment::new(64);
    input.write(b"hello").unwrap();
    let len = match s.step(Event::Frame(decode_frame(&encode_frame(5)))) {
        Action::Compute(n) => n,
        other => panic!("unexpected {:?}", other),
    };
    assert_eq!(len, 5);
    let bytes = input.read(len as usize).unwrap();
    match s.serve(&Backend::Digest, &bytes) {
        Action::Reply(out, n) => {
            assert_eq!(n, 32);
            output.write(&out).unwrap();
            assert_eq!(encode_frame(n), [0, 0, 0, 32]);
        }
        other => panic!("unexpected {:?}", other),
    }
    assert_eq!(output.read(32).unwrap(), HELLO_SHA256.to_vec());
    assert!(matches!(s.step(Event::Sent), Action::ReadFrame));
    assert_eq!(s.status.phase, Phase::Ready);
}

#[test]
fn disconnect_before_any_request() {
    let mut s = Session::new(config("demo", true, false, ErrorPolicy::Abort));
    handshake(&mut s);
    assert!(matches!(s.step(Event::Attached), Action::ReadFrame));
    match s.step(Event::EndOfStream) {
        Action::Shutdown(why) => {
            assert_eq!(why, Exit::Finished);
            assert!(!why.is_error());
        }
        other => panic!("unexpected {:?}", other),
    }
    assert_eq!(s.status.phase, Phase::Closed);
    assert_eq!(s.release(), vec![Release::Detach(7), Release::Detach(42), Release::Destroy(42)]);
    assert!(s.release().is_empty());
}

#[test]
fn release_leaves_foreign_segments() {
    let mut s = Session::new(config("demo", false, false, ErrorPolicy::Abort));
    handshake(&mut s);
    s.step(Event::Attached);
    s.step(Event::EndOfStream);
    assert_eq!(s.release(), vec![Release::Detach(7), Release::Detach(42)]);
}

#[test]
fn oversized_request_is_a_protocol_violation() {
    let mut s = Session::new(config("demo", false, false, ErrorPolicy::Abort));
    handshake(&mut s);
    s.step(Event::Attached);
    assert!(matches!(s.step(Event::Frame(65)), Action::Shutdown(Exit::ProtocolViolation)));
    assert!(matches!(s.step(Event::Frame(1)), Action::Idle));
}

#[test]
fn oversized_reply_is_a_protocol_violation() {
    let mut s = Session::new(config("demo", false, false, ErrorPolicy::Abort));
    handshake(&mut s);
    s.step(Event::Attached);
    assert!(matches!(s.step(Event::Frame(64)), Action::Compute(64)));
    let r = s.step(Event::Computed(Ok(vec![0u8; 65])));
    assert!(matches!(r, Action::Shutdown(Exit::ProtocolViolation)));
}

#[test]
fn compute_error_policies() {
    let mut abort = Session::new(config("rust", false, true, ErrorPolicy::Abort));
    handshake(&mut abort);
    assert!(matches!(abort.step(Event::Attached), Action::ReadField(64)));
    let mut field = vec![0u8; 64];
    field[..17].copy_from_slice(b"not-a-real-method");
    assert!(matches!(abort.step(Event::Field(field.clone())), Action::ReadFrame));
    assert_eq!(abort.selector, "not-a-real-method");
    assert!(matches!(abort.step(Event::Frame(3)), Action::Compute(3)));
    let backend = Backend::Precompiles(Reth::new());
    assert!(matches!(abort.serve(&backend, b"abc"), Action::Shutdown(Exit::ComputeFailed)));

    let mut go_on = Session::new(config("rust", false, true, ErrorPolicy::Sentinel));
    handshake(&mut go_on);
    go_on.step(Event::Attached);
    go_on.step(Event::Field(field));
    go_on.step(Event::Frame(3));
    assert!(matches!(go_on.serve(&backend, b"abc"), Action::SendFrame(ERROR_FRAME)));
    assert!(matches!(go_on.step(Event::Sent), Action::ReadFrame));
    assert!(matches!(go_on.step(Event::Cancelled), Action::Shutdown(Exit::Cancelled)));
}

#[test]
fn handshake_failures_are_fatal() {
    let mut s = Session::new(config("demo", false, false, ErrorPolicy::Abort));
    let r = s.step(Event::ConnectFailed);
    assert!(matches!(r, Action::Shutdown(Exit::ConnectFailed)));
    assert!(Exit::ConnectFailed.is_error());

    let mut s = Session::new(config("demo", false, false, ErrorPolicy::Abort));
    s.step(Event::Connected);
    s.step(Event::Sent);
    s.step(Event::Frame(7));
    assert!(matches!(s.step(Event::AttachFailed), Action::Shutdown(Exit::AttachFailed)));
    assert!(s.release().is_empty());

    let mut s = Session::new(config("demo", false, false, ErrorPolicy::Abort));
    s.step(Event::Connected);
    s.step(Event::Sent);
    assert!(matches!(s.step(Event::EndOfStream), Action::Shutdown(Exit::Incomplete)));

    let mut s = Session::new(config("demo", false, false, ErrorPolicy::Abort));
    s.step(Event::Connected);
    assert!(matches!(s.step(Event::IoFailed), Action::Shutdown(Exit::IoError)));
    assert!(matches!(s.step(Event::Sent), Action::Idle));
}

#[test]
fn events_out_of_order_end_the_session() {
    let mut s = Session::new(config("demo", false, false, ErrorPolicy::Abort));
    assert!(matches!(s.step(Event::Frame(1)), Action::Shutdown(Exit::ProtocolViolation)));
}

#[test]
fn precompile_backend_passes_dispatch_through() {
    let reth = Reth::new();
    let direct = reth.handle_precompile_call("sha256", b"hello").unwrap();
    let backend = Backend::Precompiles(reth);
    assert_eq!(compute(&backend, "sha256", b"hello").unwrap(), direct);
    assert_eq!(compute(&backend, "dataCopy", b"").unwrap(), Vec::<u8>::new());
    assert!(compute(&backend, "bn256Add", &[0u8; 128]).is_ok());
}
