//! Bounded single-producer/single-consumer connections between node
//! instances, with two interchangeable backpressure policies: a blocking
//! policy whose operations park the calling thread until they can complete,
//! and a spin-yield policy whose operations return immediately so that the
//! caller may yield and retry.
//!
//! Each half carries a ghost [`ChannelLog`]: the sequence of items the
//! producer has pushed, how many of them the consumer has taken, the fixed
//! capacity, and which ends are still attached.  Every operation's contract
//! is a step relation over that log, and the FIFO, backpressure and drain
//! laws are proved over sequences of those steps.
use vstd::prelude::*;

verus! {

/// Ghost state of one connection, as one end can know it.  `sent` only ever
/// grows, `taken` only ever rises, and `capacity` never changes.  The end
/// that performs an operation knows its own side exactly; the other side's
/// progress is only sampled, so contracts let it advance between calls.
pub struct ChannelLog<T> {
    /// Every item the producer has pushed, in push order.
    pub sent: Seq<T>,
    /// How many of `sent` the consumer has popped.
    pub taken: nat,
    /// The fixed bound set when the connection was made.
    pub capacity: nat,
    /// Whether the producer half still exists.
    pub producer_live: bool,
    /// Whether the consumer half still exists.
    pub consumer_live: bool,
}

impl<T> ChannelLog<T> {
    pub open spec fn wf(self) -> bool {
        &&& self.taken <= self.sent.len()
        &&& self.sent.len() - self.taken <= self.capacity
        &&& self.capacity >= 1
    }

    /// Items pushed and not yet popped.
    pub open spec fn in_flight(self) -> nat {
        (self.sent.len() - self.taken) as nat
    }

    /// The items the consumer has observed so far, in order.
    pub open spec fn observed(self) -> Seq<T> {
        self.sent.take(self.taken as int)
    }

    /// The log of a connection just made with the given capacity.
    pub open spec fn fresh(capacity: nat) -> ChannelLog<T> {
        ChannelLog {
            sent: Seq::empty(),
            taken: 0,
            capacity,
            producer_live: true,
            consumer_live: true,
        }
    }
}

/// What a producer-side call may observe of the consumer's concurrent
/// progress: pops happen, the consumer may vanish; `sent` is the caller's
/// own and does not move.
pub open spec fn tx_observe_step<T>(a: ChannelLog<T>, b: ChannelLog<T>) -> bool {
    &&& b.capacity == a.capacity
    &&& b.sent == a.sent
    &&& a.taken <= b.taken
    &&& b.producer_live == a.producer_live
    &&& (!a.consumer_live ==> !b.consumer_live && b.taken == a.taken)
    &&& b.wf()
}

/// A successful push: the value is appended to `sent`, exactly once.
pub open spec fn send_ok_step<T>(a: ChannelLog<T>, b: ChannelLog<T>, v: T) -> bool {
    &&& b.capacity == a.capacity
    &&& b.sent == a.sent.push(v)
    &&& a.taken <= b.taken
    &&& b.producer_live == a.producer_live
    &&& (!a.consumer_live ==> !b.consumer_live && b.taken == a.taken)
    &&& b.wf()
}

/// A push that found the buffer full: nothing is pushed, and at the failing
/// instant exactly `capacity` items were in flight, so under `a.wf()` the
/// queue was full as the caller already saw it.
pub open spec fn send_full_step<T>(a: ChannelLog<T>, b: ChannelLog<T>) -> bool {
    &&& tx_observe_step(a, b)
    &&& a.taken + a.capacity <= a.sent.len()
    &&& a.sent.len() <= b.taken + a.capacity
}

/// A push attempt that found the consumer gone: nothing is pushed.
pub open spec fn send_closed_step<T>(a: ChannelLog<T>, b: ChannelLog<T>) -> bool {
    &&& tx_observe_step(a, b)
    &&& !b.consumer_live
}

/// What a consumer-side call may observe of the producer's concurrent
/// progress: new items appear at the tail, the producer may vanish and its
/// `sent` then freezes; `taken` is the caller's own and does not move.
pub open spec fn rx_observe_step<T>(a: ChannelLog<T>, b: ChannelLog<T>) -> bool {
    &&& b.capacity == a.capacity
    &&& b.taken == a.taken
    &&& a.sent.is_prefix_of(b.sent)
    &&& b.consumer_live == a.consumer_live
    &&& (!a.producer_live ==> !b.producer_live && b.sent == a.sent)
    &&& b.wf()
}

/// A successful pop: the item is the oldest one not yet taken.  This clause
/// is the at-most-once, in-order delivery of one item.
pub open spec fn recv_item_step<T>(a: ChannelLog<T>, b: ChannelLog<T>, x: T) -> bool {
    &&& b.capacity == a.capacity
    &&& b.taken == a.taken + 1
    &&& a.sent.is_prefix_of(b.sent)
    &&& a.taken < b.sent.len()
    &&& x == b.sent[a.taken as int]
    &&& b.consumer_live == a.consumer_live
    &&& (!a.producer_live ==> !b.producer_live && b.sent == a.sent)
    &&& b.wf()
}

/// A pop that found the buffer empty: at the failing instant everything
/// pushed had been taken, so everything in `a.sent` was already taken.
pub open spec fn recv_empty_step<T>(a: ChannelLog<T>, b: ChannelLog<T>) -> bool {
    &&& rx_observe_step(a, b)
    &&& a.sent.len() <= a.taken
}

/// A pop that found the buffer empty and the producer gone: the connection
/// is drained — every item ever pushed has been taken.
pub open spec fn recv_closed_step<T>(a: ChannelLog<T>, b: ChannelLog<T>) -> bool {
    &&& rx_observe_step(a, b)
    &&& !b.producer_live
    &&& b.sent.len() <= b.taken
}

/// One event in the complete history of a connection.  In this
/// whole-channel view every push and pop is an event of its own, so unlike
/// the one-sided step relations above, nothing happens between events.
pub enum ChanEvent<T> {
    /// The producer pushed this value.
    SendOk(T),
    /// The producer attempted a push and found the buffer full.
    SendFull,
    /// The producer attempted a push and found the consumer gone.
    SendClosed,
    /// The consumer popped this value.
    RecvItem(T),
    /// The consumer attempted a pop and found the buffer empty.
    RecvEmpty,
    /// The consumer attempted a pop and found the buffer empty and the
    /// producer gone.
    RecvClosed,
    /// The producer half was dropped.
    ProducerDrop,
    /// The consumer half was dropped.
    ConsumerDrop,
}

/// How one event moves the whole-channel state: the per-operation step
/// relation of the executable contracts, restricted so that the peer makes
/// no hidden progress (its progress is its own event here).
pub open spec fn event_step<T>(a: ChannelLog<T>, e: ChanEvent<T>, b: ChannelLog<T>) -> bool {
    match e {
        ChanEvent::SendOk(v) => send_ok_step(a, b, v) && b.taken == a.taken
            && b.consumer_live == a.consumer_live,
        ChanEvent::SendFull => send_full_step(a, b) && b == a,
        ChanEvent::SendClosed => send_closed_step(a, b) && b == a,
        ChanEvent::RecvItem(x) => recv_item_step(a, b, x) && b.sent == a.sent
            && b.producer_live == a.producer_live,
        ChanEvent::RecvEmpty => recv_empty_step(a, b) && b == a,
        ChanEvent::RecvClosed => recv_closed_step(a, b) && b == a,
        ChanEvent::ProducerDrop => b == ChannelLog { producer_live: false, ..a },
        ChanEvent::ConsumerDrop => b == ChannelLog { consumer_live: false, ..a },
    }
}

/// The events `es` lead from state `a` to state `b`.
pub open spec fn trace_run<T>(a: ChannelLog<T>, es: Seq<ChanEvent<T>>, b: ChannelLog<T>) -> bool
    decreases es.len(),
{
    if es.len() == 0 {
        b == a
    } else {
        exists|mid: ChannelLog<T>|
            #![auto]
            event_step(a, es[0], mid) && trace_run(mid, es.skip(1), b)
    }
}

/// The values the producer pushed, in order.
pub open spec fn sent_values<T>(es: Seq<ChanEvent<T>>) -> Seq<T>
    decreases es.len(),
{
    if es.len() == 0 {
        Seq::empty()
    } else {
        match es[0] {
            ChanEvent::SendOk(v) => seq![v].add(sent_values(es.skip(1))),
            _ => sent_values(es.skip(1)),
        }
    }
}

/// The values the consumer popped, in order.
pub open spec fn observed_values<T>(es: Seq<ChanEvent<T>>) -> Seq<T>
    decreases es.len(),
{
    if es.len() == 0 {
        Seq::empty()
    } else {
        match es[0] {
            ChanEvent::RecvItem(x) => seq![x].add(observed_values(es.skip(1))),
            _ => observed_values(es.skip(1)),
        }
    }
}

/// Bookkeeping that every execution of a connection obeys.  Since it holds
/// of every run from a well-formed state, it holds of every prefix of a
/// history too; `b.wf()` in particular bounds the in-flight items by the
/// capacity at every point.
pub proof fn lemma_trace_accounting<T>(a: ChannelLog<T>, es: Seq<ChanEvent<T>>, b: ChannelLog<T>)
    requires
        a.wf(),
        trace_run(a, es, b),
    ensures
        b.wf(),
        b.in_flight() <= b.capacity,
        b.capacity == a.capacity,
        b.sent == a.sent.add(sent_values(es)),
        b.taken == a.taken + observed_values(es).len(),
        observed_values(es) == b.sent.subrange(a.taken as int, b.taken as int),
        b.observed() == a.observed().add(observed_values(es)),
    decreases es.len(),
{
    if es.len() == 0 {
        assert(b.sent =~= a.sent.add(sent_values(es)));
        assert(observed_values(es) =~= b.sent.subrange(a.taken as int, b.taken as int));
    } else {
        let mid = choose|mid: ChannelLog<T>|
            #![auto]
            event_step(a, es[0], mid) && trace_run(mid, es.skip(1), b);
        lemma_trace_accounting(mid, es.skip(1), b);
        let rest = es.skip(1);
        match es[0] {
            ChanEvent::SendOk(v) => {
                assert(b.sent =~= a.sent.add(sent_values(es)));
                assert(observed_values(es) == observed_values(rest));
                assert(observed_values(es) =~= b.sent.subrange(a.taken as int, b.taken as int));
            },
            ChanEvent::RecvItem(x) => {
                assert(b.sent =~= a.sent.add(sent_values(es)));
                assert(x == a.sent[a.taken as int]);
                assert(b.sent[a.taken as int] == x);
                assert(observed_values(es) == seq![x].add(observed_values(rest)));
                assert(observed_values(rest) == b.sent.subrange(mid.taken as int, b.taken as int));
                assert(observed_values(es) =~= b.sent.subrange(a.taken as int, b.taken as int));
            },
            _ => {
                assert(mid.sent == a.sent && mid.taken == a.taken);
                assert(b.sent =~= a.sent.add(sent_values(es)));
                assert(observed_values(es) =~= b.sent.subrange(a.taken as int, b.taken as int));
            },
        }
    }
}

/// FIFO delivery: in any execution of one connection from a fresh state,
/// the items the consumer observes are exactly the first `k` items the
/// producer sent, in send order — for any number of sends and receives, so
/// in particular nothing is observed out of order, twice, or from nowhere.
pub proof fn lemma_fifo_delivery<T>(capacity: nat, es: Seq<ChanEvent<T>>, b: ChannelLog<T>)
    requires
        capacity >= 1,
        trace_run(ChannelLog::fresh(capacity), es, b),
    ensures
        b.sent == sent_values(es),
        observed_values(es) == sent_values(es).take(observed_values(es).len() as int),
        b.observed() == observed_values(es),
{
    let a = ChannelLog::<T>::fresh(capacity);
    lemma_trace_accounting(a, es, b);
    assert(b.sent =~= sent_values(es));
    assert(observed_values(es) =~= sent_values(es).take(observed_values(es).len() as int));
    assert(b.observed() =~= observed_values(es));
}

/// Backpressure safety: a send attempt only ever fails full when exactly
/// `capacity` items were in flight (see `send_full_step`), a full buffer
/// loses nothing, and once as many items have been observed as were ever
/// sent, the observed sequence is the sent sequence itself — every item
/// delivered exactly once, in order.
pub proof fn lemma_backpressure_no_loss<T>(capacity: nat, es: Seq<ChanEvent<T>>, b: ChannelLog<T>)
    requires
        capacity >= 1,
        trace_run(ChannelLog::fresh(capacity), es, b),
        observed_values(es).len() == sent_values(es).len(),
    ensures
        observed_values(es) == sent_values(es),
{
    lemma_fifo_delivery(capacity, es, b);
    assert(observed_values(es) =~= sent_values(es));
}

/// A non-empty run splits into its last event and the run before it.
proof fn lemma_trace_snoc<T>(a: ChannelLog<T>, es: Seq<ChanEvent<T>>, b: ChannelLog<T>)
    requires
        trace_run(a, es, b),
        es.len() > 0,
    ensures
        exists|m: ChannelLog<T>|
            #![auto]
            trace_run(a, es.take(es.len() - 1), m) && event_step(m, es.last(), b),
    decreases es.len(),
{
    let mid = choose|mid: ChannelLog<T>|
        #![auto]
        event_step(a, es[0], mid) && trace_run(mid, es.skip(1), b);
    if es.len() == 1 {
        assert(b == mid);
        assert(trace_run(a, es.take(0), a));
        assert(event_step(a, es.last(), b));
    } else {
        lemma_trace_snoc(mid, es.skip(1), b);
        let m = choose|m: ChannelLog<T>|
            #![auto]
            trace_run(mid, es.skip(1).take(es.len() - 2), m) && event_step(m, es.skip(1).last(), b);
        assert(es.take(es.len() - 1).skip(1) =~= es.skip(1).take(es.len() - 2));
        assert(trace_run(a, es.take(es.len() - 1), m)) by {
            assert(event_step(a, es.take(es.len() - 1)[0], mid));
            assert(trace_run(mid, es.take(es.len() - 1).skip(1), m));
        }
        assert(es.skip(1).last() == es.last());
    }
}

/// Closed-channel drain: a consumer that observes closure has first
/// observed every item the producer ever sent — closure is reported only
/// once the connection is fully drained.
pub proof fn lemma_drain_before_close<T>(capacity: nat, es: Seq<ChanEvent<T>>, b: ChannelLog<T>)
    requires
        capacity >= 1,
        trace_run(ChannelLog::fresh(capacity), es, b),
        es.len() > 0,
        es.last() is RecvClosed,
    ensures
        observed_values(es) == sent_values(es),
        b.observed() == b.sent,
{
    let a = ChannelLog::<T>::fresh(capacity);
    lemma_trace_accounting(a, es, b);
    lemma_trace_snoc(a, es, b);
    let m = choose|m: ChannelLog<T>|
        #![auto]
        trace_run(a, es.take(es.len() - 1), m) && event_step(m, es.last(), b);
    assert(b == m);
    assert(b.sent.len() <= b.taken);
    assert(b.taken == b.sent.len());
    assert(observed_values(es) == b.sent.subrange(0, b.taken as int));
    assert(b.sent == sent_values(es)) by {
        assert(b.sent =~= a.sent.add(sent_values(es)));
    }
    assert(observed_values(es) =~= sent_values(es));
    assert(b.observed() =~= b.sent);
}

/// Which backpressure policy a connection was made with.
#[derive(Clone, Copy, PartialEq, Eq, Structural)]
pub enum Policy {
    /// Send and receive park the calling thread until they can complete.
    Blocking,
    /// Send and receive return at once; the caller yields and retries.
    SpinYield,
}

/// Result of one send attempt.  `Full` can only come from the spin-yield
/// policy; both failures hand the item back so that nothing is lost.
pub enum SendOutcome<T> {
    Sent,
    Full(T),
    Closed(T),
}

/// Result of one receive attempt.  `Empty` can only come from the
/// spin-yield policy.
pub enum RecvOutcome<T> {
    Item(T),
    Empty,
    Closed,
}

#[verifier::external_type_specification]
#[verifier::external_body]
#[verifier::reject_recursive_types(T)]
pub struct ExRtrbProducer<T>(rtrb::Producer<T>);

#[verifier::external_type_specification]
#[verifier::external_body]
#[verifier::reject_recursive_types(T)]
pub struct ExRtrbConsumer<T>(rtrb::Consumer<T>);

#[verifier::external_type_specification]
#[verifier::external_body]
#[verifier::reject_recursive_types(T)]
pub struct ExSyncSender<T>(std::sync::mpsc::SyncSender<T>);

#[verifier::external_type_specification]
#[verifier::external_body]
#[verifier::reject_recursive_types(T)]
pub struct ExMpscReceiver<T>(std::sync::mpsc::Receiver<T>);

/// Spin-yield producer half: an rtrb ring-buffer producer and its log.
#[verifier::reject_recursive_types(T)]
pub struct SpinTx<T> {
    inner: rtrb::Producer<T>,
    log: Ghost<ChannelLog<T>>,
}

/// Spin-yield consumer half.
#[verifier::reject_recursive_types(T)]
pub struct SpinRx<T> {
    inner: rtrb::Consumer<T>,
    log: Ghost<ChannelLog<T>>,
}

/// Blocking producer half: a bounded rendezvous-free channel sender and its
/// log.
#[verifier::reject_recursive_types(T)]
pub struct BlockTx<T> {
    inner: std::sync::mpsc::SyncSender<T>,
    log: Ghost<ChannelLog<T>>,
}

/// Blocking consumer half.
#[verifier::reject_recursive_types(T)]
pub struct BlockRx<T> {
    inner: std::sync::mpsc::Receiver<T>,
    log: Ghost<ChannelLog<T>>,
}

/// Relies on rtrb::RingBuffer::new: creates an empty ring buffer with
/// exactly the given capacity and returns its two halves.
#[verifier::external_body]
fn rtrb_new_pair<T>(capacity: usize) -> (rtrb::Producer<T>, rtrb::Consumer<T>) {
    rtrb::RingBuffer::new(capacity)
}

/// Relies on std::sync::mpsc::sync_channel: creates an empty bounded
/// channel with exactly the given capacity and returns its two halves.
#[verifier::external_body]
fn mpsc_new_pair<T>(capacity: usize) -> (std::sync::mpsc::SyncSender<T>, std::sync::mpsc::Receiver<T>) {
    std::sync::mpsc::sync_channel(capacity)
}

impl<T> SpinTx<T> {
    /// Relies on rtrb::Producer::push: appends the value to the buffer in
    /// FIFO position, or, when `capacity` items are buffered at the instant
    /// of the attempt, returns the value back unchanged inside
    /// `PushError::Full`.
    #[verifier::external_body]
    fn push_step(&mut self, v: T) -> (r: Option<T>)
        ensures
            r is None ==> send_ok_step(old(self).log@, final(self).log@, v),
            r matches Some(x) ==> x == v && send_full_step(old(self).log@, final(self).log@),
    {
        match self.inner.push(v) {
            Ok(()) => None,
            Err(rtrb::PushError::Full(x)) => Some(x),
        }
    }

    /// Relies on rtrb::Producer::is_abandoned: true exactly when the
    /// consumer half has been dropped, and once true it stays true.
    #[verifier::external_body]
    fn consumer_gone(&mut self) -> (r: bool)
        ensures
            tx_observe_step(old(self).log@, final(self).log@),
            r == !final(self).log@.consumer_live,
    {
        self.inner.is_abandoned()
    }
}

impl<T> SpinRx<T> {
    /// Relies on rtrb::Consumer::pop: removes and returns the oldest
    /// buffered item, or fails when no item is buffered at the instant of
    /// the attempt.
    #[verifier::external_body]
    fn pop_step(&mut self) -> (r: Option<T>)
        ensures
            r matches Some(x) ==> recv_item_step(old(self).log@, final(self).log@, x),
            r is None ==> recv_empty_step(old(self).log@, final(self).log@),
    {
        self.inner.pop().ok()
    }

    /// Relies on rtrb::Consumer::is_abandoned: true exactly when the
    /// producer half has been dropped, and once true it stays true; items
    /// pushed before the drop remain poppable.
    #[verifier::external_body]
    fn producer_gone(&mut self) -> (r: bool)
        ensures
            rx_observe_step(old(self).log@, final(self).log@),
            r == !final(self).log@.producer_live,
    {
        self.inner.is_abandoned()
    }
}

impl<T> BlockTx<T> {
    /// Relies on std::sync::mpsc::SyncSender::send: blocks until buffer
    /// space is free, then enqueues the value in FIFO position; when the
    /// receiver has been dropped it returns the value back unchanged inside
    /// `SendError`.
    #[verifier::external_body]
    fn send_step(&mut self, v: T) -> (r: Option<T>)
        ensures
            r is None ==> send_ok_step(old(self).log@, final(self).log@, v),
            r matches Some(x) ==> x == v && send_closed_step(old(self).log@, final(self).log@),
    {
        match self.inner.send(v) {
            Ok(()) => None,
            Err(std::sync::mpsc::SendError(x)) => Some(x),
        }
    }
}

impl<T> BlockRx<T> {
    /// Relies on std::sync::mpsc::Receiver::recv: blocks until an item is
    /// available and returns the oldest one; it reports disconnection only
    /// once the sender has been dropped and every item sent before the drop
    /// has been received.
    #[verifier::external_body]
    fn recv_step(&mut self) -> (r: Option<T>)
        ensures
            r matches Some(x) ==> recv_item_step(old(self).log@, final(self).log@, x),
            r is None ==> recv_closed_step(old(self).log@, final(self).log@),
    {
        self.inner.recv().ok()
    }
}

/// The producer half of a connection, under either policy.
#[verifier::reject_recursive_types(T)]
pub enum Sender<T> {
    Spin(SpinTx<T>),
    Blocking(BlockTx<T>),
}

/// The consumer half of a connection, under either policy.
#[verifier::reject_recursive_types(T)]
pub enum Receiver<T> {
    Spin(SpinRx<T>),
    Blocking(BlockRx<T>),
}

impl<T> Sender<T> {
    /// The ghost log of the connection, as this half knows it.
    pub closed spec fn log(self) -> ChannelLog<T> {
        match self {
            Sender::Spin(tx) => tx.log@,
            Sender::Blocking(tx) => tx.log@,
        }
    }

    pub closed spec fn policy(self) -> Policy {
        match self {
            Sender::Spin(_) => Policy::SpinYield,
            Sender::Blocking(_) => Policy::Blocking,
        }
    }

    /// One send attempt.  Under the blocking policy this parks until the
    /// item is enqueued or the consumer is gone, so it never returns
    /// `Full`.  Under the spin-yield policy a full buffer returns the item
    /// back for a later retry, and a vanished consumer is reported as
    /// `Closed`.
    pub fn send(&mut self, v: T) -> (r: SendOutcome<T>)
        ensures
            final(self).policy() == old(self).policy(),
            match r {
                SendOutcome::Sent => send_ok_step(old(self).log(), final(self).log(), v),
                SendOutcome::Full(x) => x == v && send_full_step(old(self).log(), final(self).log())
                    && old(self).policy() == Policy::SpinYield,
                SendOutcome::Closed(x) => x == v && send_closed_step(old(self).log(), final(self).log()),
            },
    {
        match self {
            Sender::Spin(tx) => {
                match tx.push_step(v) {
                    None => SendOutcome::Sent,
                    Some(x) => {
                        if tx.consumer_gone() {
                            SendOutcome::Closed(x)
                        } else {
                            SendOutcome::Full(x)
                        }
                    },
                }
            },
            Sender::Blocking(tx) => {
                match tx.send_step(v) {
                    None => SendOutcome::Sent,
                    Some(x) => SendOutcome::Closed(x),
                }
            },
        }
    }
}

impl<T> Receiver<T> {
    /// The ghost log of the connection, as this half knows it.
    pub closed spec fn log(self) -> ChannelLog<T> {
        match self {
            Receiver::Spin(rx) => rx.log@,
            Receiver::Blocking(rx) => rx.log@,
        }
    }

    pub closed spec fn policy(self) -> Policy {
        match self {
            Receiver::Spin(_) => Policy::SpinYield,
            Receiver::Blocking(_) => Policy::Blocking,
        }
    }

    /// One receive attempt.  Under the blocking policy this parks until an
    /// item arrives or the producer is gone, so it never returns `Empty`.
    /// Under the spin-yield policy an empty buffer whose producer has
    /// vanished is re-checked once more, so that items pushed between the
    /// failed pop and the abandonment check are never lost: `Closed` is
    /// reported only when the connection is fully drained.
    pub fn recv(&mut self) -> (r: RecvOutcome<T>)
        ensures
            final(self).policy() == old(self).policy(),
            match r {
                RecvOutcome::Item(x) => recv_item_step(old(self).log(), final(self).log(), x),
                RecvOutcome::Empty => recv_empty_step(old(self).log(), final(self).log())
                    && old(self).policy() == Policy::SpinYield,
                RecvOutcome::Closed => recv_closed_step(old(self).log(), final(self).log()),
            },
    {
        match self {
            Receiver::Spin(rx) => {
                match rx.pop_step() {
                    Some(x) => RecvOutcome::Item(x),
                    None => {
                        if rx.producer_gone() {
                            // The producer is gone for good, but it may have
                            // pushed a last item between the failed pop and
                            // the check: drain before reporting closure.
                            match rx.pop_step() {
                                Some(x) => RecvOutcome::Item(x),
                                None => RecvOutcome::Closed,
                            }
                        } else {
                            RecvOutcome::Empty
                        }
                    },
                }
            },
            Receiver::Blocking(rx) => {
                match rx.recv_step() {
                    Some(x) => RecvOutcome::Item(x),
                    None => RecvOutcome::Closed,
                }
            },
        }
    }
}

/// Makes one connection with the given capacity and policy and returns its
/// two halves, each starting from the same fresh log.
pub fn channel<T>(capacity: usize, policy: Policy) -> (r: (Sender<T>, Receiver<T>))
    requires
        capacity >= 1,
    ensures
        r.0.log() == ChannelLog::<T>::fresh(capacity as nat),
        r.1.log() == ChannelLog::<T>::fresh(capacity as nat),
        r.0.policy() == policy,
        r.1.policy() == policy,
{
    let ghost log = ChannelLog::<T>::fresh(capacity as nat);
    match policy {
        Policy::SpinYield => {
            let (p, c) = rtrb_new_pair(capacity);
            (
                Sender::Spin(SpinTx { inner: p, log: Ghost(log) }),
                Receiver::Spin(SpinRx { inner: c, log: Ghost(log) }),
            )
        },
        Policy::Blocking => {
            let (p, c) = mpsc_new_pair(capacity);
            (
                Sender::Blocking(BlockTx { inner: p, log: Ghost(log) }),
                Receiver::Blocking(BlockRx { inner: c, log: Ghost(log) }),
            )
        },
    }
}

} // verus!
