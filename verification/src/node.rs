//! The node contract and the per-instance execution step.
//!
//! A [`Node`] is the caller-supplied unit of work: a `process` function over
//! typed input and output, bracketed by `on_start` and `on_stop` hooks.  A
//! [`NodeInstance`] owns one node, at most one input connection and at most
//! one output connection, and drives the node one cycle at a time: receive
//! at most one item, process it, send at most one result, and account the
//! time spent in each phase.  The thread that loops over
//! [`NodeInstance::run_cycle`], yielding or stopping as the returned control
//! value says, lives outside this crate; everything the loop decides is
//! decided here.
use crate::queue::ChannelLog;
use crate::queue::Policy;
use crate::queue::Receiver;
use crate::queue::RecvOutcome;
use crate::queue::SendOutcome;
use crate::queue::Sender;
use crate::queue::channel;
use crate::queue::recv_closed_step;
use crate::queue::recv_empty_step;
use crate::queue::recv_item_step;
use crate::queue::rx_observe_step;
use crate::queue::send_closed_step;
use crate::queue::send_full_step;
use crate::queue::send_ok_step;
use crate::queue::tx_observe_step;
use vstd::prelude::*;

verus! {

/// Types report their memory footprint for throughput telemetry.
pub trait DataSize {
    /// The reported size, as the contracts see it.
    spec fn spec_data_size(&self) -> nat;

    /// The reported size in bytes.
    fn data_size(&self) -> (n: usize)
        ensures
            n as nat == self.spec_data_size(),
    ;
}

impl<T> DataSize for Vec<T> {
    open spec fn spec_data_size(&self) -> nat {
        if vstd::layout::size_of::<T>() * self@.len() <= usize::MAX as nat {
            vstd::layout::size_of::<T>() * self@.len()
        } else {
            usize::MAX as nat
        }
    }

    fn data_size(&self) -> (n: usize) {
        match core::mem::size_of::<T>().checked_mul(self.len()) {
            Some(v) => v,
            None => usize::MAX,
        }
    }
}

impl DataSize for () {
    open spec fn spec_data_size(&self) -> nat {
        0
    }

    fn data_size(&self) -> (n: usize) {
        0
    }
}

impl DataSize for u8 {
    open spec fn spec_data_size(&self) -> nat {
        1
    }

    fn data_size(&self) -> (n: usize) {
        1
    }
}

impl DataSize for u16 {
    open spec fn spec_data_size(&self) -> nat {
        2
    }

    fn data_size(&self) -> (n: usize) {
        2
    }
}

impl DataSize for u32 {
    open spec fn spec_data_size(&self) -> nat {
        4
    }

    fn data_size(&self) -> (n: usize) {
        4
    }
}

impl DataSize for u64 {
    open spec fn spec_data_size(&self) -> nat {
        8
    }

    fn data_size(&self) -> (n: usize) {
        8
    }
}

impl DataSize for u128 {
    open spec fn spec_data_size(&self) -> nat {
        16
    }

    fn data_size(&self) -> (n: usize) {
        16
    }
}

impl DataSize for i8 {
    open spec fn spec_data_size(&self) -> nat {
        1
    }

    fn data_size(&self) -> (n: usize) {
        1
    }
}

impl DataSize for i16 {
    open spec fn spec_data_size(&self) -> nat {
        2
    }

    fn data_size(&self) -> (n: usize) {
        2
    }
}

impl DataSize for i32 {
    open spec fn spec_data_size(&self) -> nat {
        4
    }

    fn data_size(&self) -> (n: usize) {
        4
    }
}

impl DataSize for i64 {
    open spec fn spec_data_size(&self) -> nat {
        8
    }

    fn data_size(&self) -> (n: usize) {
        8
    }
}

impl DataSize for i128 {
    open spec fn spec_data_size(&self) -> nat {
        16
    }

    fn data_size(&self) -> (n: usize) {
        16
    }
}

impl DataSize for bool {
    open spec fn spec_data_size(&self) -> nat {
        1
    }

    fn data_size(&self) -> (n: usize) {
        1
    }
}

/// The unit-of-work contract.  `process` consumes at most one input value
/// and produces at most one output value; it is always called from the one
/// thread that drives the owning instance, so a node needs no internal
/// synchronization.  `on_start` and `on_stop` are called exactly once each,
/// before the first `process` call and after the loop exits.
pub trait Node: Sized + Send + 'static {
    type Input: Send + DataSize + 'static;

    type Output: Send + 'static;

    /// Process one input (`Some` exactly once per consumed queue item, or
    /// always `None` for a self-driven source) and produce at most one
    /// output.  Returning `None` means "no emission this cycle" and never
    /// terminates the instance by itself.
    fn process(&mut self, input: Option<Self::Input>) -> Option<Self::Output>;

    /// Called once before the first `process` call.
    fn on_start(&mut self) {
    }

    /// Called once after the instance's loop has exited.
    fn on_stop(&mut self) {
    }
}

#[verifier::external_type_specification]
#[verifier::external_body]
pub struct ExInstant(std::time::Instant);

/// Relies on std::time::Instant::now: a reading of the monotonic clock.
#[verifier::external_body]
fn instant_now() -> std::time::Instant {
    std::time::Instant::now()
}

/// Relies on std::time::Instant::elapsed: the time since the reading was
/// taken.
#[verifier::external_body]
fn instant_elapsed(t: &std::time::Instant) -> std::time::Duration {
    t.elapsed()
}

/// Relies on std::time::Duration::as_nanos: the duration as a whole number
/// of nanoseconds.
#[verifier::external_body]
fn duration_as_nanos(d: &std::time::Duration) -> u128 {
    d.as_nanos()
}

/// Nanoseconds since the reading, saturated to `u64`.
fn elapsed_ns(t: &std::time::Instant) -> u64 {
    let d = instant_elapsed(t);
    let n = duration_as_nanos(&d);
    if n > (u64::MAX as u128) {
        u64::MAX
    } else {
        n as u64
    }
}

/// The whole part of `part`'s share of `total`, in percent.
pub open spec fn spec_pct(part: nat, total: nat) -> nat {
    if total == 0 {
        0
    } else {
        part * 100 / total
    }
}

/// The percentage of `total` that `part` makes up, rounded down.
pub fn percent_of(part: u64, total: u128) -> (r: u64)
    requires
        part as u128 <= total,
    ensures
        r as nat == spec_pct(part as nat, total as nat),
        r <= 100,
{
    if total == 0 {
        0
    } else {
        let p: u128 = (part as u128) * 100;
        let q: u128 = p / total;
        proof {
            assert((part as nat) * 100 / (total as nat) <= 100) by (nonlinear_arith)
                requires
                    (part as nat) <= (total as nat),
                    (total as nat) > 0,
            {
            }
        }
        q as u64
    }
}

/// Percentages of one total are a true breakdown: they sum to at most 100.
proof fn lemma_pct_sum(a: nat, b: nat, c: nat, t: nat)
    requires
        t > 0,
        a + b + c == t,
    ensures
        spec_pct(a, t) + spec_pct(b, t) + spec_pct(c, t) <= 100,
{
    assert(a * 100 / t + b * 100 / t + c * 100 / t <= 100) by (nonlinear_arith)
        requires
            a + b + c == t,
            t > 0,
    {
    }
}

/// The three percentages of a record are the floor-percent shares of the
/// parts `r`, `p`, `s` (receive-wait, process, send-wait nanoseconds) in
/// their common total.
pub open spec fn pct_breakdown(rep: TelemetryReport, r: u64, p: u64, s: u64) -> bool {
    &&& rep.pct_recv as nat == spec_pct(r as nat, (r + p + s) as nat)
    &&& rep.pct_process as nat == spec_pct(p as nat, (r + p + s) as nat)
    &&& rep.pct_send as nat == spec_pct(s as nat, (r + p + s) as nat)
}

/// One per-second observability record: how many input bytes the instance
/// consumed in the window, and how the instrumented time of the window
/// splits between waiting to receive, processing, and waiting to send.
pub struct TelemetryReport {
    pub bytes_in_window: u64,
    pub pct_recv: u64,
    pub pct_process: u64,
    pub pct_send: u64,
}

/// What the driving thread must do after one cycle.
#[derive(Clone, Copy, PartialEq, Eq, Structural)]
pub enum CycleControl {
    /// The cycle did its work; run the next one at once.
    Progress,
    /// A spin-yield queue was empty or full; yield, then retry.
    WouldBlock,
    /// A queue peer is gone; exit the loop and stop the node.
    Closed,
    /// The node produced a value but no output connection exists: a fatal
    /// configuration error.  The value must not be silently dropped, so the
    /// driving thread must terminate abnormally.
    MissingOutput,
}

/// The result of one cycle: what to do next, and at most one telemetry
/// record (emitted once per elapsed second).
pub struct CycleStep {
    pub control: CycleControl,
    pub report: Option<TelemetryReport>,
}

/// How an input connection's log can move across one cycle: at most one
/// item is consumed, and the producer may progress concurrently.
pub open spec fn rx_cycle<T>(a: ChannelLog<T>, b: ChannelLog<T>) -> bool {
    &&& b.capacity == a.capacity
    &&& a.sent.is_prefix_of(b.sent)
    &&& a.taken <= b.taken <= a.taken + 1
    &&& b.consumer_live == a.consumer_live
    &&& (!a.producer_live ==> !b.producer_live && b.sent == a.sent)
    &&& b.wf()
}

/// How an output connection's log can move across one cycle: at most one
/// item is sent, and the consumer may progress concurrently.
pub open spec fn tx_cycle<T>(a: ChannelLog<T>, b: ChannelLog<T>) -> bool {
    &&& b.capacity == a.capacity
    &&& a.sent.is_prefix_of(b.sent)
    &&& b.sent.len() <= a.sent.len() + 1
    &&& a.taken <= b.taken
    &&& b.producer_live == a.producer_live
    &&& (!a.consumer_live ==> !b.consumer_live && b.taken == a.taken)
    &&& b.wf()
}

/// Everything an instance has committed to its output: the items already
/// pushed, followed by the produced item still waiting for buffer space.
pub open spec fn staged<T>(log: ChannelLog<T>, pending: Option<T>) -> Seq<T> {
    match pending {
        Some(v) => log.sent.push(v),
        None => log.sent,
    }
}

/// A node instance: one node, its optional connections, and its telemetry
/// counters.  It is driven one cycle at a time by a dedicated thread.
#[verifier::reject_recursive_types(N)]
pub struct NodeInstance<N: Node> {
    input_rx: Option<Receiver<N::Input>>,
    output_tx: Option<Sender<N::Output>>,
    /// A produced value whose send found the buffer full; it is retried
    /// before anything else so that no produced value is ever dropped.
    pending_out: Option<N::Output>,
    name: String,
    node: N,
    cpu_core: Option<usize>,
    bytes_processed_cntr: u64,
    recv_ns_acc: u64,
    proc_ns_acc: u64,
    send_ns_acc: u64,
    recv_wait_since: Option<std::time::Instant>,
    send_wait_since: Option<std::time::Instant>,
    telem_since: std::time::Instant,
}

impl<N: Node> NodeInstance<N> {
    /// A produced value can be waiting only where an output connection
    /// exists, and both connection logs are well-formed.
    pub closed spec fn wf_inst(self) -> bool {
        &&& (self.pending_out is Some ==> self.output_tx is Some)
        &&& (self.input_rx matches Some(rx) ==> rx.log().wf())
        &&& (self.output_tx matches Some(tx) ==> tx.log().wf())
    }

    /// The input connection's log, if an input connection exists.
    pub closed spec fn in_log(self) -> Option<ChannelLog<N::Input>> {
        match self.input_rx {
            Some(rx) => Some(rx.log()),
            None => None,
        }
    }

    /// The output connection's log, if an output connection exists.
    pub closed spec fn out_log(self) -> Option<ChannelLog<N::Output>> {
        match self.output_tx {
            Some(tx) => Some(tx.log()),
            None => None,
        }
    }

    /// The produced value waiting for a send retry, if any.
    pub closed spec fn pending(self) -> Option<N::Output> {
        self.pending_out
    }

    pub closed spec fn spec_name(self) -> Seq<char> {
        self.name@
    }

    pub closed spec fn spec_cpu_core(self) -> Option<usize> {
        self.cpu_core
    }

    pub closed spec fn bytes_counter(self) -> u64 {
        self.bytes_processed_cntr
    }

    pub closed spec fn recv_ns(self) -> u64 {
        self.recv_ns_acc
    }

    pub closed spec fn proc_ns(self) -> u64 {
        self.proc_ns_acc
    }

    pub closed spec fn send_ns(self) -> u64 {
        self.send_ns_acc
    }

    pub closed spec fn counters_zeroed(self) -> bool {
        &&& self.bytes_processed_cntr == 0
        &&& self.recv_ns_acc == 0
        &&& self.proc_ns_acc == 0
        &&& self.send_ns_acc == 0
    }

    /// Create an instance with a display name, the node it drives, and an
    /// optional CPU core to pin its thread to.  It starts with no
    /// connections.
    pub fn new(name: String, node: N, cpu_core: Option<usize>) -> (inst: NodeInstance<N>)
        ensures
            inst.wf_inst(),
            inst.in_log() is None,
            inst.out_log() is None,
            inst.pending() is None,
            inst.spec_name() == name@,
            inst.spec_cpu_core() == cpu_core,
            inst.counters_zeroed(),
    {
        NodeInstance {
            input_rx: None,
            output_tx: None,
            pending_out: None,
            name,
            node,
            cpu_core,
            bytes_processed_cntr: 0,
            recv_ns_acc: 0,
            proc_ns_acc: 0,
            send_ns_acc: 0,
            recv_wait_since: None,
            send_wait_since: None,
            telem_since: instant_now(),
        }
    }

    /// Attach the consumer half of a connection as this instance's input.
    pub fn set_receiver(&mut self, rx: Receiver<N::Input>)
        requires
            old(self).wf_inst(),
            rx.log().wf(),
        ensures
            final(self).wf_inst(),
            final(self).in_log() == Some(rx.log()),
            final(self).out_log() == old(self).out_log(),
            final(self).pending() == old(self).pending(),
            final(self).spec_name() == old(self).spec_name(),
            final(self).spec_cpu_core() == old(self).spec_cpu_core(),
            final(self).bytes_counter() == old(self).bytes_counter(),
    {
        self.input_rx = Some(rx);
    }

    /// Attach the producer half of a connection as this instance's output.
    pub fn set_sender(&mut self, tx: Sender<N::Output>)
        requires
            old(self).wf_inst(),
            old(self).pending() is None,
            tx.log().wf(),
        ensures
            final(self).wf_inst(),
            final(self).out_log() == Some(tx.log()),
            final(self).in_log() == old(self).in_log(),
            final(self).pending() is None,
            final(self).spec_name() == old(self).spec_name(),
            final(self).spec_cpu_core() == old(self).spec_cpu_core(),
            final(self).bytes_counter() == old(self).bytes_counter(),
    {
        self.output_tx = Some(tx);
    }

    pub fn has_input(&self) -> (r: bool)
        ensures
            r == (self.in_log() is Some),
    {
        self.input_rx.is_some()
    }

    pub fn has_output(&self) -> (r: bool)
        ensures
            r == (self.out_log() is Some),
    {
        self.output_tx.is_some()
    }

    pub fn name(&self) -> (r: &String)
        ensures
            r@ == self.spec_name(),
    {
        &self.name
    }

    pub fn cpu_core(&self) -> (r: Option<usize>)
        ensures
            r == self.spec_cpu_core(),
    {
        self.cpu_core
    }

    /// Run the node's `on_start` hook and open a fresh telemetry window.
    /// Called exactly once, before the first cycle.
    pub fn start(&mut self)
        requires
            old(self).wf_inst(),
        ensures
            final(self).wf_inst(),
            final(self).in_log() == old(self).in_log(),
            final(self).out_log() == old(self).out_log(),
            final(self).pending() == old(self).pending(),
            final(self).spec_name() == old(self).spec_name(),
            final(self).spec_cpu_core() == old(self).spec_cpu_core(),
            final(self).counters_zeroed(),
    {
        self.node.on_start();
        self.bytes_processed_cntr = 0;
        self.recv_ns_acc = 0;
        self.proc_ns_acc = 0;
        self.send_ns_acc = 0;
        self.recv_wait_since = None;
        self.send_wait_since = None;
        self.telem_since = instant_now();
    }

    /// Run the node's `on_stop` hook.  Called exactly once, after the last
    /// cycle.
    pub fn stop(&mut self)
        requires
            old(self).wf_inst(),
        ensures
            final(self).wf_inst(),
            final(self).in_log() == old(self).in_log(),
            final(self).out_log() == old(self).out_log(),
            final(self).pending() == old(self).pending(),
            final(self).spec_name() == old(self).spec_name(),
            final(self).spec_cpu_core() == old(self).spec_cpu_core(),
    {
        self.node.on_stop();
    }

    /// Close the current telemetry window if a second has passed: emit one
    /// record over the window's counters and reset them.
    fn maybe_report(&mut self) -> (r: Option<TelemetryReport>)
        requires
            old(self).wf_inst(),
        ensures
            final(self).wf_inst(),
            final(self).in_log() == old(self).in_log(),
            final(self).out_log() == old(self).out_log(),
            final(self).pending() == old(self).pending(),
            final(self).spec_name() == old(self).spec_name(),
            final(self).spec_cpu_core() == old(self).spec_cpu_core(),
            r matches Some(rep) ==> {
                &&& final(self).counters_zeroed()
                &&& rep.bytes_in_window == old(self).bytes_counter()
                &&& pct_breakdown(rep, old(self).recv_ns(), old(self).proc_ns(), old(self).send_ns())
                &&& rep.pct_recv <= 100
                &&& rep.pct_process <= 100
                &&& rep.pct_send <= 100
                &&& rep.pct_recv + rep.pct_process + rep.pct_send <= 100
            },
            r is None ==> {
                &&& final(self).bytes_counter() == old(self).bytes_counter()
                &&& final(self).recv_ns() == old(self).recv_ns()
                &&& final(self).proc_ns() == old(self).proc_ns()
                &&& final(self).send_ns() == old(self).send_ns()
            },
    {
        if elapsed_ns(&self.telem_since) >= 1_000_000_000 {
            let total: u128 = (self.recv_ns_acc as u128) + (self.proc_ns_acc as u128) + (
            self.send_ns_acc as u128);
            let rep = TelemetryReport {
                bytes_in_window: self.bytes_processed_cntr,
                pct_recv: percent_of(self.recv_ns_acc, total),
                pct_process: percent_of(self.proc_ns_acc, total),
                pct_send: percent_of(self.send_ns_acc, total),
            };
            proof {
                if total > 0 {
                    lemma_pct_sum(
                        self.recv_ns_acc as nat,
                        self.proc_ns_acc as nat,
                        self.send_ns_acc as nat,
                        total as nat,
                    );
                }
            }
            self.bytes_processed_cntr = 0;
            self.recv_ns_acc = 0;
            self.proc_ns_acc = 0;
            self.send_ns_acc = 0;
            self.telem_since = instant_now();
            Some(rep)
        } else {
            None
        }
    }

    /// Run one cycle of the execution loop: retry a pending send, or
    /// receive at most one item (when an input connection exists), process
    /// it, and send at most one produced value; then close the telemetry
    /// window if a second has passed.
    ///
    /// The driving thread loops over this until the control value says
    /// `Closed`, yields first when it says `WouldBlock`, and must terminate
    /// abnormally on `MissingOutput`: a value produced with no output
    /// connection is a fatal configuration error, never silently dropped —
    /// and with an output connection attached, `MissingOutput` can never be
    /// returned.
    pub fn run_cycle(&mut self) -> (step: CycleStep)
        requires
            old(self).wf_inst(),
        ensures
            final(self).wf_inst(),
            final(self).spec_name() == old(self).spec_name(),
            final(self).spec_cpu_core() == old(self).spec_cpu_core(),
            old(self).in_log() is None ==> final(self).in_log() is None,
            old(self).out_log() is None ==> final(self).out_log() is None && final(self).pending() is None,
            // At most one item is consumed, in FIFO position.
            old(self).in_log() matches Some(a) ==> final(self).in_log() matches Some(b)
                && rx_cycle(a, b),
            // At most one item is sent, and no produced value is dropped
            // or reordered while the consumer is there to take it.
            old(self).out_log() matches Some(a) ==> final(self).out_log() matches Some(b)
                && tx_cycle(a, b),
            old(self).out_log() matches Some(a) ==> (step.control is Closed || (
                final(self).out_log() matches Some(b) && staged(a, old(self).pending()).is_prefix_of(
                staged(b, final(self).pending())))),
            // Producing with no output connection is detected, not dropped.
            step.control is MissingOutput ==> old(self).out_log() is None,
            old(self).out_log() is Some ==> !(step.control is MissingOutput),
            // The loop only stops when a peer is gone; an input stop means
            // the connection was fully drained first.
            step.control is Closed ==> ((old(self).in_log() matches Some(a)
                && final(self).in_log() matches Some(b) && recv_closed_step(a, b))
                || (old(self).out_log() matches Some(a2)
                && final(self).out_log() matches Some(b2) && !b2.consumer_live)),
            // Yielding never loses queued work.
            old(self).out_log() matches Some(a) ==> (!(step.control is WouldBlock) || (
                final(self).out_log() matches Some(b) && b.sent == a.sent)),
            // With nothing pending, an available input item is consumed
            // this cycle, never skipped.
            old(self).pending() is None ==> (old(self).in_log() matches Some(a) ==> (a.taken
                < a.sent.len() ==> (final(self).in_log() matches Some(b) && b.taken == a.taken
                + 1))),
            // A waiting value is sent, kept for retry, or meets a closed
            // consumer — never silently forgotten.
            old(self).pending() matches Some(v) ==> (old(self).out_log() matches Some(a) ==> (
                step.control is Closed || (step.control is WouldBlock && final(self).pending()
                == old(self).pending() && (final(self).out_log() matches Some(b) && b.sent
                == a.sent)) || (step.control is Progress && final(self).pending() is None
                && (final(self).out_log() matches Some(b2) && b2.sent == a.sent.push(v))))),
            step.report matches Some(rep) ==> final(self).counters_zeroed() && rep.pct_recv <= 100
                && rep.pct_process <= 100 && rep.pct_send <= 100
                && rep.pct_recv + rep.pct_process + rep.pct_send <= 100,
            // A record's percentages are the breakdown of one instrumented
            // total accumulated since the window opened, and its byte count
            // covers at least everything counted when the cycle began.
            step.report matches Some(rep) ==> rep.bytes_in_window >= old(self).bytes_counter()
                && (exists|r: u64, p: u64, s: u64|
                old(self).recv_ns() <= r && old(self).proc_ns() <= p && old(self).send_ns() <= s
                    && #[trigger] pct_breakdown(rep, r, p, s)),
    {
        let mut pending_val: Option<N::Output> = None;
        core::mem::swap(&mut pending_val, &mut self.pending_out);
        match pending_val {
            Some(v) => {
                // A produced value is still waiting for buffer space: retry
                // it before doing anything else.
                let t0 = instant_now();
                let since = match self.send_wait_since {
                    Some(t) => t,
                    None => t0,
                };
                let r = match &mut self.output_tx {
                    Some(tx) => tx.send(v),
                    None => vstd::pervasive::unreached(),
                };
                match r {
                    SendOutcome::Sent => {
                        self.send_ns_acc = self.send_ns_acc.saturating_add(elapsed_ns(&since));
                        self.send_wait_since = None;
                        let report = self.maybe_report();
                        CycleStep { control: CycleControl::Progress, report }
                    },
                    SendOutcome::Full(x) => {
                        self.pending_out = Some(x);
                        if self.send_wait_since.is_none() {
                            self.send_wait_since = Some(t0);
                        }
                        let report = self.maybe_report();
                        CycleStep { control: CycleControl::WouldBlock, report }
                    },
                    SendOutcome::Closed(_) => {
                        // The consumer is gone: the loop ends; the value
                        // had nowhere left to go.
                        self.send_wait_since = None;
                        let report = self.maybe_report();
                        CycleStep { control: CycleControl::Closed, report }
                    },
                }
            },
            None => {
                let produced: Option<N::Output>;
                if self.input_rx.is_some() {
                    let t0 = instant_now();
                    let r = match &mut self.input_rx {
                        Some(rx) => rx.recv(),
                        None => vstd::pervasive::unreached(),
                    };
                    match r {
                        RecvOutcome::Item(x) => {
                            let since = match self.recv_wait_since {
                                Some(t) => t,
                                None => t0,
                            };
                            self.recv_ns_acc = self.recv_ns_acc.saturating_add(elapsed_ns(&since));
                            self.recv_wait_since = None;
                            let sz = x.data_size();
                            self.bytes_processed_cntr = self.bytes_processed_cntr.saturating_add(
                                sz as u64,
                            );
                            let t1 = instant_now();
                            produced = self.node.process(Some(x));
                            self.proc_ns_acc = self.proc_ns_acc.saturating_add(elapsed_ns(&t1));
                        },
                        RecvOutcome::Empty => {
                            if self.recv_wait_since.is_none() {
                                self.recv_wait_since = Some(t0);
                            }
                            let report = self.maybe_report();
                            return CycleStep { control: CycleControl::WouldBlock, report };
                        },
                        RecvOutcome::Closed => {
                            self.recv_wait_since = None;
                            let report = self.maybe_report();
                            return CycleStep { control: CycleControl::Closed, report };
                        },
                    }
                } else {
                    // No input connection: a self-driven source governs its
                    // own production rate inside `process`.
                    let t1 = instant_now();
                    produced = self.node.process(None);
                    self.proc_ns_acc = self.proc_ns_acc.saturating_add(elapsed_ns(&t1));
                }
                match produced {
                    None => {
                        // No emission this cycle: valid for filters, sinks
                        // and pausing sources.
                        let report = self.maybe_report();
                        CycleStep { control: CycleControl::Progress, report }
                    },
                    Some(y) => {
                        if self.output_tx.is_some() {
                            let t2 = instant_now();
                            let r = match &mut self.output_tx {
                                Some(tx) => tx.send(y),
                                None => vstd::pervasive::unreached(),
                            };
                            match r {
                                SendOutcome::Sent => {
                                    self.send_ns_acc = self.send_ns_acc.saturating_add(
                                        elapsed_ns(&t2),
                                    );
                                    self.send_wait_since = None;
                                    let report = self.maybe_report();
                                    CycleStep { control: CycleControl::Progress, report }
                                },
                                SendOutcome::Full(x) => {
                                    self.pending_out = Some(x);
                                    if self.send_wait_since.is_none() {
                                        self.send_wait_since = Some(t2);
                                    }
                                    let report = self.maybe_report();
                                    CycleStep { control: CycleControl::WouldBlock, report }
                                },
                                SendOutcome::Closed(_) => {
                                    self.send_wait_since = None;
                                    let report = self.maybe_report();
                                    CycleStep { control: CycleControl::Closed, report }
                                },
                            }
                        } else {
                            let report = self.maybe_report();
                            CycleStep { control: CycleControl::MissingOutput, report }
                        }
                    },
                }
            },
        }
    }
}

/// Connect two instances with one bounded connection: the first instance's
/// output becomes the second's input.  One call per edge; the capacity must
/// be positive and is fixed for the life of the connection.
pub fn connect<A: Node, B: Node<Input = A::Output>>(
    from: &mut NodeInstance<A>,
    to: &mut NodeInstance<B>,
    capacity: usize,
    policy: Policy,
)
    requires
        capacity >= 1,
        old(from).wf_inst(),
        old(from).pending() is None,
        old(to).wf_inst(),
    ensures
        final(from).wf_inst(),
        final(to).wf_inst(),
        final(from).out_log() == Some(ChannelLog::<A::Output>::fresh(capacity as nat)),
        final(to).in_log() == Some(ChannelLog::<B::Input>::fresh(capacity as nat)),
        final(from).in_log() == old(from).in_log(),
        final(to).out_log() == old(to).out_log(),
        final(from).pending() is None,
        final(to).pending() == old(to).pending(),
        final(from).spec_name() == old(from).spec_name(),
        final(to).spec_name() == old(to).spec_name(),
        final(from).spec_cpu_core() == old(from).spec_cpu_core(),
        final(to).spec_cpu_core() == old(to).spec_cpu_core(),
{
    let (tx, rx) = channel::<A::Output>(capacity, policy);
    from.set_sender(tx);
    to.set_receiver(rx);
}

/// What one deterministic stage emits, per the execution loop: one call of
/// its processing function per consumed input, in input order; `Some`
/// results are emitted, `None` results emit nothing.
pub open spec fn stage_emissions<I, O>(f: spec_fn(I) -> Option<O>, xs: Seq<I>) -> Seq<O>
    decreases xs.len(),
{
    if xs.len() == 0 {
        Seq::empty()
    } else {
        match f(xs[0]) {
            Some(y) => seq![y].add(stage_emissions(f, xs.skip(1))),
            None => stage_emissions(f, xs.skip(1)),
        }
    }
}

/// What a linear chain of deterministic stages delivers at its sink: each
/// stage applied to the whole stream emitted by the one before it, in
/// declared order — FIFO edges deliver every emitted stream unchanged and
/// in order.
pub open spec fn chain_emissions<T>(fs: Seq<spec_fn(T) -> Option<T>>, xs: Seq<T>) -> Seq<T>
    decreases fs.len(),
{
    if fs.len() == 0 {
        xs
    } else {
        chain_emissions(fs.skip(1), stage_emissions(fs[0], xs))
    }
}

/// One value pushed through every stage in declared order; a stage that
/// emits nothing for it drops it from the stream for good.
pub open spec fn pipe_value<T>(fs: Seq<spec_fn(T) -> Option<T>>, x: T) -> Option<T>
    decreases fs.len(),
{
    if fs.len() == 0 {
        Some(x)
    } else {
        match fs[0](x) {
            Some(y) => pipe_value(fs.skip(1), y),
            None => None,
        }
    }
}

/// The composition of a whole chain, as a single stage function.
pub open spec fn pipe_fn<T>(fs: Seq<spec_fn(T) -> Option<T>>) -> spec_fn(T) -> Option<T> {
    |x: T| pipe_value(fs, x)
}

/// A stage that passes every value through unchanged emits its input.
proof fn lemma_stage_identity<T>(xs: Seq<T>)
    ensures
        stage_emissions(|x: T| Some(x), xs) == xs,
    decreases xs.len(),
{
    if xs.len() == 0 {
        assert(stage_emissions(|x: T| Some(x), xs) =~= xs);
    } else {
        lemma_stage_identity::<T>(xs.skip(1));
        assert(stage_emissions(|x: T| Some(x), xs) =~= xs);
    }
}

/// Feeding one stage's emissions to a second stage emits the same stream
/// as one fused stage that runs both on each value.
proof fn lemma_stage_fusion<T>(
    f: spec_fn(T) -> Option<T>,
    g: spec_fn(T) -> Option<T>,
    xs: Seq<T>,
)
    ensures
        stage_emissions(g, stage_emissions(f, xs)) == stage_emissions(
            |x: T|
                match f(x) {
                    Some(y) => g(y),
                    None => None,
                },
            xs,
        ),
    decreases xs.len(),
{
    let fused = |x: T|
        match f(x) {
            Some(y) => g(y),
            None => None,
        };
    if xs.len() == 0 {
        assert(stage_emissions(g, stage_emissions(f, xs)) =~= stage_emissions(fused, xs));
    } else {
        lemma_stage_fusion(f, g, xs.skip(1));
        match f(xs[0]) {
            Some(y) => {
                assert(stage_emissions(f, xs) == seq![y].add(stage_emissions(f, xs.skip(1))));
                assert(stage_emissions(f, xs).skip(1) =~= stage_emissions(f, xs.skip(1)));
                match g(y) {
                    Some(z) => {
                        assert(stage_emissions(g, stage_emissions(f, xs)) =~= seq![z].add(
                            stage_emissions(g, stage_emissions(f, xs.skip(1))),
                        ));
                        assert(stage_emissions(fused, xs) =~= seq![z].add(
                            stage_emissions(fused, xs.skip(1)),
                        ));
                    },
                    None => {
                        assert(stage_emissions(g, stage_emissions(f, xs)) =~= stage_emissions(
                            g,
                            stage_emissions(f, xs.skip(1)),
                        ));
                        assert(stage_emissions(fused, xs) =~= stage_emissions(fused, xs.skip(1)));
                    },
                }
            },
            None => {
                assert(stage_emissions(f, xs) =~= stage_emissions(f, xs.skip(1)));
                assert(stage_emissions(fused, xs) =~= stage_emissions(fused, xs.skip(1)));
            },
        }
    }
}

/// Composition law: for a linear chain of deterministic stages fed an
/// input stream over FIFO connections, the stream observed at the sink is
/// exactly the composition of the stage functions, applied to each input
/// value in declared order — stage-by-stage pipelining and whole-stream
/// function composition agree.
pub proof fn lemma_chain_composition<T>(fs: Seq<spec_fn(T) -> Option<T>>, xs: Seq<T>)
    ensures
        chain_emissions(fs, xs) == stage_emissions(pipe_fn(fs), xs),
    decreases fs.len(),
{
    if fs.len() == 0 {
        assert(pipe_fn(fs) =~= |x: T| Some(x));
        lemma_stage_identity::<T>(xs);
    } else {
        let rest = fs.skip(1);
        lemma_chain_composition(rest, stage_emissions(fs[0], xs));
        lemma_stage_fusion(fs[0], pipe_fn(rest), xs);
        let fused = |x: T|
            match fs[0](x) {
                Some(y) => pipe_fn(rest)(y),
                None => None,
            };
        assert(fused =~= pipe_fn(fs));
    }
}

} // verus!
