use embassy_nina::error::Error;
use embassy_nina::nal::{is_closed, read_step, ReadStep};
use embassy_nina::poll::{
    dns_answer, is_connected, AckStep, Deadline, Poll, PollStep, SendPlan, CONNECT_ATTEMPTS,
    DNS_POLLS, SEND_TRIES,
};
use embassy_nina::proto::{SockState, WlStatus};

#[test]
fn poll_gives_up_after_its_attempts() {
    let mut p = Poll::new(CONNECT_ATTEMPTS);
    for _ in 0..4 {
        assert_eq!(p.record(false), PollStep::Again);
    }
    assert_eq!(p.record(false), PollStep::Exhausted);
    let mut q = Poll::new(DNS_POLLS);
    assert_eq!(q.record(true), PollStep::Ready);
}

#[test]
fn send_plan_chunks_by_64() {
    let mut plan = SendPlan::new(150);
    let mut chunks = Vec::new();
    while let Some((a, b)) = plan.chunk() {
        chunks.push((a, b));
        assert_eq!(plan.on_ack((b - a) as u16), AckStep::Confirm);
        plan.on_sent();
    }
    assert_eq!(chunks, vec![(0, 64), (64, 128), (128, 150)]);
    assert_eq!(plan.sent_total(), 150);
    let mut empty = SendPlan::new(0);
    assert!(empty.chunk().is_none());
    assert_eq!(empty.sent_total(), 0);
    let _ = &mut empty;
}

#[test]
fn send_plan_refuses_after_five_zero_acks() {
    let mut plan = SendPlan::new(10);
    for _ in 1..SEND_TRIES {
        assert_eq!(plan.on_ack(0), AckStep::Resend);
    }
    assert_eq!(plan.on_ack(0), AckStep::Refused);
}

#[test]
fn send_total_saturates() {
    let mut plan = SendPlan::new(70_000);
    while let Some((a, b)) = plan.chunk() {
        assert_eq!(plan.on_ack((b - a) as u16), AckStep::Confirm);
        plan.on_sent();
    }
    assert_eq!(plan.sent_total(), 0xFFFF);
}

#[test]
fn partial_ack_resends_the_rest() {
    let mut plan = SendPlan::new(64);
    assert_eq!(plan.chunk(), Some((0, 64)));
    assert_eq!(plan.on_ack(3), AckStep::Confirm);
    plan.on_sent();
    assert_eq!(plan.chunk(), Some((3, 64)));
    assert_eq!(plan.on_ack(0), AckStep::Resend);
    assert_eq!(plan.on_ack(61), AckStep::Confirm);
    plan.on_sent();
    assert_eq!(plan.chunk(), None);
    assert_eq!(plan.sent_total(), 64);
}

#[test]
fn overlong_ack_counts_only_the_piece() {
    let mut plan = SendPlan::new(100);
    assert_eq!(plan.on_ack(500), AckStep::Confirm);
    plan.on_sent();
    assert_eq!(plan.chunk(), Some((64, 100)));
    assert_eq!(plan.sent_total(), 64);
}

#[test]
fn read_decisions() {
    assert_eq!(read_step(5, None), ReadStep::Data(5));
    assert_eq!(read_step(0, None), ReadStep::CheckState);
    assert_eq!(read_step(0, Some(SockState::CloseWait)), ReadStep::Eof);
    assert_eq!(read_step(0, Some(SockState::Established)), ReadStep::Wait);
}

#[test]
fn dns_answer_classification() {
    let ip = dns_answer::<()>(Ok(vec![93, 184, 216, 34])).ok().unwrap();
    assert_eq!(ip, Some([93, 184, 216, 34]));
    assert_eq!(dns_answer::<()>(Ok(vec![0, 0, 0, 0])).ok().unwrap(), None);
    assert_eq!(dns_answer::<()>(Ok(vec![1, 2])).ok().unwrap(), None);
    assert_eq!(dns_answer::<()>(Err(Error::Framing)).ok().unwrap(), None);
    assert_eq!(dns_answer::<()>(Err(Error::Nina)).ok().unwrap(), None);
    assert!(matches!(dns_answer::<()>(Err(Error::Timeout)), Err(Error::Timeout)));
    assert!(matches!(dns_answer::<u8>(Err(Error::Spi(7))), Err(Error::Spi(7))));
}

#[test]
fn deadline_and_status() {
    let d = Deadline::after(1000, 500);
    assert!(d.before(1499));
    assert!(!d.before(1500));
    assert!(is_connected::<()>(&Ok(WlStatus::Connected)));
    assert!(!is_connected::<()>(&Ok(WlStatus::Idle)));
    assert!(!is_connected::<()>(&Err(Error::Timeout)));
}

#[test]
fn closed_states_end_reads() {
    for s in [SockState::Closed, SockState::CloseWait, SockState::Closing, SockState::LastAck, SockState::TimeWait] {
        assert!(is_closed(s));
    }
    for s in [SockState::Established, SockState::SynSent, SockState::FinWait1, SockState::Unknown] {
        assert!(!is_closed(s));
    }
}
