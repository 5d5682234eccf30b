use ntpquery::exchange::{
    build_request, check_version, start, step, QueryAction, QueryError, QueryEvent, QueryState,
};
use ntpquery::fields::{Leap, Mode};

fn awaiting() -> QueryState {
    match step(QueryState::Built, QueryEvent::Sent(48)) {
        (s @ QueryState::AwaitingReply, QueryAction::WaitReadable) => s,
        other => panic!("unexpected {:?}", other),
    }
}

#[test]
fn request_bytes_of_version_four() {
    let r = build_request(4);
    assert_eq!(r.len(), 48);
    assert_eq!(r[0], 0xe3);
    assert_eq!(r[1], 16);
    assert!(r[2..].iter().all(|&b| b == 0));
    let (s, a) = start(3);
    assert!(matches!(s, QueryState::Built));
    match a {
        QueryAction::Send(b) => assert_eq!(b[0], 0xdb),
        other => panic!("unexpected {:?}", other),
    }
}

#[test]
fn version_check() {
    assert_eq!(check_version(1), Ok(1));
    assert_eq!(check_version(4), Ok(4));
    assert_eq!(check_version(0), Err(QueryError::InvalidVersion(0)));
    assert_eq!(check_version(5), Err(QueryError::InvalidVersion(5)));
}

#[test]
fn short_send_fails() {
    let (s, a) = step(QueryState::Built, QueryEvent::Sent(47));
    assert!(matches!(s, QueryState::Failed(QueryError::SendIncomplete)));
    assert_eq!(a, QueryAction::Finish);
}

#[test]
fn short_reply_fails() {
    let (s, a) = step(awaiting(), QueryEvent::Received(vec![0u8; 47]));
    assert!(matches!(s, QueryState::Failed(QueryError::ResponseTooShort)));
    assert_eq!(a, QueryAction::Finish);
}

#[test]
fn deadline_fails() {
    let (s, a) = step(awaiting(), QueryEvent::TimedOut);
    assert!(matches!(s, QueryState::Failed(QueryError::Timeout)));
    assert_eq!(a, QueryAction::Finish);
}

#[test]
fn spurious_wakeup_waits_again() {
    let (s, a) = step(awaiting(), QueryEvent::Readable);
    assert!(matches!(s, QueryState::AwaitingReply));
    assert_eq!(a, QueryAction::Receive);
    let (s, a) = step(s, QueryEvent::WouldBlock);
    assert!(matches!(s, QueryState::AwaitingReply));
    assert_eq!(a, QueryAction::WaitReadable);
}

#[test]
fn transport_error_fails() {
    let (s, _) = step(awaiting(), QueryEvent::IoFailed);
    assert!(matches!(s, QueryState::Failed(QueryError::Io)));
    let (s, _) = step(QueryState::Built, QueryEvent::IoFailed);
    assert!(matches!(s, QueryState::Failed(QueryError::Io)));
}

#[test]
fn full_reply_decodes() {
    let mut reply = build_request(4);
    reply[0] = 0x24;
    reply[1] = 2;
    reply[12..16].copy_from_slice(&[192, 0, 2, 1]);
    reply.extend_from_slice(&[1, 2, 3]);
    let (s, a) = step(awaiting(), QueryEvent::Received(reply));
    assert_eq!(a, QueryAction::Finish);
    match s {
        QueryState::Decoded(p) => {
            assert_eq!(p.leap_version_mode(), Ok((Leap::NoWarning, 4, Mode::Server)));
            assert_eq!(p.ref_id_text(), "192.0.2.1");
        }
        other => panic!("unexpected {:?}", other),
    }
}

#[test]
fn final_state_stays() {
    let (s, a) = step(QueryState::Failed(QueryError::Timeout), QueryEvent::Readable);
    assert!(matches!(s, QueryState::Failed(QueryError::Timeout)));
    assert_eq!(a, QueryAction::Finish);
}

#[test]
fn request_of_each_version() {
    for v in 1u8..=4 {
        let r = build_request(v);
        assert_eq!(r.len(), 48);
        assert_eq!(r[0], 0xc0 | (v << 3) | 3);
    }
}
