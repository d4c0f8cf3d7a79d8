use springsteel::impulse::{ImpulseStream, StreamOp};
use std::sync::atomic::{AtomicUsize, Ordering};
use std::sync::Arc;

struct CountingWake(AtomicUsize);

impl futures::task::ArcWake for CountingWake {
    fn wake_by_ref(arc_self: &Arc<Self>) {
        arc_self.0.fetch_add(1, Ordering::SeqCst);
    }
}

fn counting_waker() -> (Arc<CountingWake>, core::task::Waker) {
    let counter = Arc::new(CountingWake(AtomicUsize::new(0)));
    let waker = futures::task::waker(counter.clone());
    (counter, waker)
}

#[test]
fn new_stream_is_empty_and_unparked() {
    let stream = ImpulseStream::new();
    assert_eq!(stream.queued_count(), 0);
    assert!(!stream.has_parked());
}

#[test]
fn no_loss_no_duplication_concrete() {
    let mut stream = ImpulseStream::new();
    stream.trigger();
    stream.trigger();
    assert_eq!(stream.queued_count(), 2);
    assert!(stream.poll_next(futures::task::noop_waker()));
    assert!(stream.poll_next(futures::task::noop_waker()));
    assert!(!stream.poll_next(futures::task::noop_waker()));
    assert_eq!(stream.queued_count(), 0);
}

#[test]
fn triggers_accumulate_without_consumer() {
    let mut stream = ImpulseStream::new();
    for _ in 0..5 {
        stream.trigger();
    }
    assert_eq!(stream.queued_count(), 5);
    let mut delivered = 0;
    while stream.poll_next(futures::task::noop_waker()) {
        delivered += 1;
    }
    assert_eq!(delivered, 5);
}

#[test]
fn wake_then_deliver() {
    let mut stream = ImpulseStream::new();
    let (counter, waker) = counting_waker();
    assert!(!stream.poll_next(waker));
    assert!(stream.has_parked());
    assert_eq!(counter.0.load(Ordering::SeqCst), 0);
    stream.trigger();
    assert_eq!(counter.0.load(Ordering::SeqCst), 1);
    assert!(!stream.has_parked());
    assert!(stream.poll_next(futures::task::noop_waker()));
}

#[test]
fn parked_continuation_never_resumed_twice() {
    let mut stream = ImpulseStream::new();
    let (counter, waker) = counting_waker();
    assert!(!stream.poll_next(waker));
    stream.trigger();
    stream.trigger();
    stream.trigger();
    assert_eq!(counter.0.load(Ordering::SeqCst), 1);
    assert_eq!(stream.queued_count(), 3);
}

#[test]
fn triggerer_matches_trigger_for_any_argument() {
    let mut direct = ImpulseStream::new();
    direct.trigger();
    direct.trigger();
    direct.trigger();

    let mut adapted = ImpulseStream::new();
    adapted.triggerer(&42i32);
    adapted.triggerer(&String::from("ignored payload"));
    adapted.triggerer(&());

    assert_eq!(adapted.queued_count(), direct.queued_count());
    assert!(adapted.poll_next(futures::task::noop_waker()));
    assert!(adapted.poll_next(futures::task::noop_waker()));
    assert!(adapted.poll_next(futures::task::noop_waker()));
    assert!(!adapted.poll_next(futures::task::noop_waker()));
}

#[test]
fn triggerer_resumes_parked_continuation() {
    let mut stream = ImpulseStream::new();
    let (counter, waker) = counting_waker();
    assert!(!stream.poll_next(waker));
    stream.triggerer(&"click");
    assert_eq!(counter.0.load(Ordering::SeqCst), 1);
    assert!(stream.poll_next(futures::task::noop_waker()));
}

#[test]
fn replay_counts_deliveries_exactly() {
    let mut stream = ImpulseStream::new();
    let ops = vec![
        StreamOp::Trigger,
        StreamOp::Trigger,
        StreamOp::Poll,
        StreamOp::Poll,
        StreamOp::Poll,
        StreamOp::Trigger,
        StreamOp::Poll,
        StreamOp::Poll,
    ];
    let waker = futures::task::noop_waker();
    let delivered = springsteel::impulse::replay(&mut stream, &ops, &waker);
    assert_eq!(delivered, 3);
    assert_eq!(stream.queued_count(), 0);
}

#[test]
fn replay_leaves_surplus_queued() {
    let mut stream = ImpulseStream::new();
    let ops = vec![
        StreamOp::Trigger,
        StreamOp::Poll,
        StreamOp::Trigger,
        StreamOp::Trigger,
    ];
    let waker = futures::task::noop_waker();
    let delivered = springsteel::impulse::replay(&mut stream, &ops, &waker);
    assert_eq!(delivered, 1);
    assert_eq!(stream.queued_count(), 2);
}
