use current_thread::poll::{PollSink, Progress, SinkAccept};
use current_thread::sink::{resolve_send_attempt, BlockingSink, FlushOutcome, SendOutcome};
use current_thread::wake::WakeSignal;

struct PickySink {
    rejections_before_accept: u32,
    rejections_left: u32,
    wake_on_reject: bool,
    flush_rounds: u32,
    close_rounds: u32,
    attempts: u32,
    taken: Vec<i32>,
    fail_everything: bool,
}

impl PickySink {
    fn new(rejections: u32, wake_on_reject: bool) -> PickySink {
        PickySink {
            rejections_before_accept: rejections,
            rejections_left: rejections,
            wake_on_reject,
            flush_rounds: 0,
            close_rounds: 0,
            attempts: 0,
            taken: Vec::new(),
            fail_everything: false,
        }
    }
}

impl PollSink for PickySink {
    type Item = i32;
    type Error = &'static str;

    fn try_send(&mut self, value: i32, wake: &mut WakeSignal) -> SinkAccept<i32, &'static str> {
        self.attempts += 1;
        if self.fail_everything {
            return SinkAccept::Failed("broken");
        }
        if self.rejections_left > 0 {
            self.rejections_left -= 1;
            if self.wake_on_reject {
                wake.wake();
            }
            return SinkAccept::Rejected(value);
        }
        self.rejections_left = self.rejections_before_accept;
        self.taken.push(value);
        SinkAccept::Accepted
    }

    fn poll_flush(&mut self, wake: &mut WakeSignal) -> Progress<(), &'static str> {
        if self.fail_everything {
            return Progress::Failed("broken");
        }
        if self.flush_rounds > 0 {
            self.flush_rounds -= 1;
            wake.wake();
            return Progress::Pending;
        }
        Progress::Ready(())
    }

    fn poll_close(&mut self, wake: &mut WakeSignal) -> Progress<(), &'static str> {
        if self.fail_everything {
            return Progress::Failed("broken");
        }
        if self.close_rounds > 0 {
            self.close_rounds -= 1;
            wake.wake();
            return Progress::Pending;
        }
        Progress::Ready(())
    }
}

#[test]
fn a_twice_rejected_item_is_sent_on_the_third_attempt() {
    let mut wake = WakeSignal::new();
    let mut s = BlockingSink::new(PickySink::new(2, true));
    assert_eq!(s.send(42, &mut wake, 10), SendOutcome::Sent);
    // two rejections meant two internal waits before the third attempt took it
    assert_eq!(s.get_ref().attempts, 3);
    assert_eq!(s.get_ref().taken.as_slice(), &[42]);
}

#[test]
fn an_unwoken_rejection_hands_the_item_back() {
    let mut wake = WakeSignal::new();
    let mut s = BlockingSink::new(PickySink::new(1, false));
    assert_eq!(s.send(7, &mut wake, 10), SendOutcome::Stalled(7));
    // after the park, offering the same item again succeeds
    assert_eq!(s.send(7, &mut wake, 10), SendOutcome::Sent);
    assert_eq!(s.get_ref().taken.as_slice(), &[7]);
}

#[test]
fn a_sink_failure_is_passed_through_on_send() {
    let mut sink = PickySink::new(0, false);
    sink.fail_everything = true;
    let mut wake = WakeSignal::new();
    let mut s = BlockingSink::new(sink);
    assert_eq!(s.send(1, &mut wake, 10), SendOutcome::Failed("broken"));
}

#[test]
fn the_send_budget_is_reported_when_spent() {
    let mut wake = WakeSignal::new();
    let mut s = BlockingSink::new(PickySink::new(1000, true));
    assert_eq!(s.send(3, &mut wake, 2), SendOutcome::Spent(3));
}

#[test]
fn flush_retries_until_ready() {
    let mut sink = PickySink::new(0, false);
    sink.flush_rounds = 2;
    let mut wake = WakeSignal::new();
    let mut s = BlockingSink::new(sink);
    assert_eq!(s.flush(&mut wake, 10), FlushOutcome::Done);
    assert_eq!(s.get_ref().flush_rounds, 0);
}

#[test]
fn a_sink_failure_is_passed_through_on_flush() {
    let mut sink = PickySink::new(0, false);
    sink.fail_everything = true;
    let mut wake = WakeSignal::new();
    let mut s = BlockingSink::new(sink);
    assert_eq!(s.flush(&mut wake, 10), FlushOutcome::Failed("broken"));
}

#[test]
fn close_retries_until_ready() {
    let mut sink = PickySink::new(0, false);
    sink.close_rounds = 1;
    let mut wake = WakeSignal::new();
    let mut s = BlockingSink::new(sink);
    assert_eq!(s.close(&mut wake, 10), FlushOutcome::Done);
}

#[test]
fn resolving_a_hand_off_outcome_is_exact() {
    assert_eq!(
        resolve_send_attempt::<i32, &'static str>(SinkAccept::Accepted),
        Ok(SendOutcome::Sent)
    );
    assert_eq!(
        resolve_send_attempt::<i32, &'static str>(SinkAccept::Failed("e")),
        Ok(SendOutcome::Failed("e"))
    );
    assert_eq!(resolve_send_attempt::<i32, &'static str>(SinkAccept::Rejected(9)), Err(9));
}

#[test]
fn the_wrapped_consumer_stays_reachable() {
    let mut wake = WakeSignal::new();
    let mut s = BlockingSink::new(PickySink::new(0, false));
    assert_eq!(s.send(5, &mut wake, 10), SendOutcome::Sent);
    s.get_mut().taken.push(6);
    let inner = s.into_inner();
    assert_eq!(inner.taken.as_slice(), &[5, 6]);
}
