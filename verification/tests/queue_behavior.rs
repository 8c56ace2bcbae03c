use tpc_graph_exec_rs::queue::channel;
use tpc_graph_exec_rs::queue::Policy;
use tpc_graph_exec_rs::queue::RecvOutcome;
use tpc_graph_exec_rs::queue::SendOutcome;

#[test]
fn spin_fifo_order() {
    let (mut tx, mut rx) = channel::<u64>(4, Policy::SpinYield);
    for i in 0..4u64 {
        assert!(matches!(tx.send(i), SendOutcome::Sent));
    }
    for i in 0..4u64 {
        match rx.recv() {
            RecvOutcome::Item(x) => assert_eq!(x, i),
            _ => panic!("expected an item"),
        }
    }
    assert!(matches!(rx.recv(), RecvOutcome::Empty));
}

#[test]
fn blocking_fifo_order() {
    let (mut tx, mut rx) = channel::<u64>(4, Policy::Blocking);
    for i in 10..14u64 {
        assert!(matches!(tx.send(i), SendOutcome::Sent));
    }
    for i in 10..14u64 {
        match rx.recv() {
            RecvOutcome::Item(x) => assert_eq!(x, i),
            _ => panic!("expected an item"),
        }
    }
}

#[test]
fn spin_full_returns_the_value() {
    let (mut tx, _rx) = channel::<String>(2, Policy::SpinYield);
    assert!(matches!(tx.send(String::from("a")), SendOutcome::Sent));
    assert!(matches!(tx.send(String::from("b")), SendOutcome::Sent));
    match tx.send(String::from("c")) {
        SendOutcome::Full(x) => assert_eq!(x, "c"),
        _ => panic!("expected the buffer to be full"),
    }
}

#[test]
fn spin_send_to_dropped_consumer() {
    let (mut tx, rx) = channel::<u64>(1, Policy::SpinYield);
    assert!(matches!(tx.send(1), SendOutcome::Sent));
    drop(rx);
    match tx.send(2) {
        SendOutcome::Closed(x) => assert_eq!(x, 2),
        _ => panic!("expected the connection to be closed"),
    }
}

#[test]
fn blocking_send_to_dropped_consumer() {
    let (mut tx, rx) = channel::<u64>(4, Policy::Blocking);
    drop(rx);
    match tx.send(9) {
        SendOutcome::Closed(x) => assert_eq!(x, 9),
        _ => panic!("expected the connection to be closed"),
    }
}

// With capacity C, a producer that tries to push C + 5 items while the
// consumer has not started loses nothing: every rejected push hands the
// item back, and after the consumer starts, all C + 5 arrive exactly once,
// in order.
#[test]
fn backpressure_keeps_every_item() {
    let capacity: usize = 4;
    let total: u64 = capacity as u64 + 5;
    let (mut tx, mut rx) = channel::<u64>(capacity, Policy::SpinYield);

    // The consumer is delayed: fill until the queue pushes back.
    let mut next: u64 = 0;
    let mut rejected = 0u64;
    while next < total {
        match tx.send(next) {
            SendOutcome::Sent => next += 1,
            SendOutcome::Full(x) => {
                assert_eq!(x, next);
                rejected += 1;
                break;
            }
            SendOutcome::Closed(_) => panic!("consumer still alive"),
        }
    }
    assert_eq!(next, capacity as u64);
    assert_eq!(rejected, 1);

    // The consumer starts; the producer retries whenever space frees.
    let mut seen: Vec<u64> = Vec::new();
    while (seen.len() as u64) < total {
        while next < total {
            match tx.send(next) {
                SendOutcome::Sent => next += 1,
                SendOutcome::Full(x) => {
                    assert_eq!(x, next);
                    break;
                }
                SendOutcome::Closed(_) => panic!("consumer still alive"),
            }
        }
        match rx.recv() {
            RecvOutcome::Item(x) => seen.push(x),
            RecvOutcome::Empty => {}
            RecvOutcome::Closed => panic!("producer still alive"),
        }
    }
    let expected: Vec<u64> = (0..total).collect();
    assert_eq!(seen, expected);
}

// Dropping the producer after m items: the consumer observes all m, in
// order, before it observes closure.
#[test]
fn spin_drain_before_close() {
    let (mut tx, mut rx) = channel::<u64>(8, Policy::SpinYield);
    for i in 0..5u64 {
        assert!(matches!(tx.send(i), SendOutcome::Sent));
    }
    drop(tx);
    for i in 0..5u64 {
        match rx.recv() {
            RecvOutcome::Item(x) => assert_eq!(x, i),
            _ => panic!("expected the buffered item"),
        }
    }
    assert!(matches!(rx.recv(), RecvOutcome::Closed));
    assert!(matches!(rx.recv(), RecvOutcome::Closed));
}

#[test]
fn blocking_drain_before_close() {
    let (mut tx, mut rx) = channel::<u64>(8, Policy::Blocking);
    for i in 0..5u64 {
        assert!(matches!(tx.send(i), SendOutcome::Sent));
    }
    drop(tx);
    for i in 0..5u64 {
        match rx.recv() {
            RecvOutcome::Item(x) => assert_eq!(x, i),
            _ => panic!("expected the buffered item"),
        }
    }
    assert!(matches!(rx.recv(), RecvOutcome::Closed));
}

#[test]
fn empty_then_item_again() {
    let (mut tx, mut rx) = channel::<u64>(2, Policy::SpinYield);
    assert!(matches!(rx.recv(), RecvOutcome::Empty));
    assert!(matches!(tx.send(42), SendOutcome::Sent));
    match rx.recv() {
        RecvOutcome::Item(x) => assert_eq!(x, 42),
        _ => panic!("expected an item"),
    }
    assert!(matches!(rx.recv(), RecvOutcome::Empty));
}
