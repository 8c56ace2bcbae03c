use std::sync::Arc;
use std::sync::Mutex;
use tpc_graph_exec_rs::graph::Graph;
use tpc_graph_exec_rs::graph::Joinable;
use tpc_graph_exec_rs::node::connect;
use tpc_graph_exec_rs::node::CycleControl;
use tpc_graph_exec_rs::node::Node;
use tpc_graph_exec_rs::node::NodeInstance;
use tpc_graph_exec_rs::queue::channel;
use tpc_graph_exec_rs::queue::Policy;

/// Emits the integers `1..=limit`, one per cycle, then pauses forever.
struct CountingSource {
    next: i64,
    limit: i64,
}

impl Node for CountingSource {
    type Input = ();
    type Output = i64;

    fn process(&mut self, _input: Option<()>) -> Option<i64> {
        if self.next <= self.limit {
            let v = self.next;
            self.next += 1;
            Some(v)
        } else {
            None
        }
    }
}

/// Multiplies every value by two.
struct Doubler;

impl Node for Doubler {
    type Input = i64;
    type Output = i64;

    fn process(&mut self, input: Option<i64>) -> Option<i64> {
        input.map(|x| x * 2)
    }
}

/// Keeps only even values.
struct EvenFilter;

impl Node for EvenFilter {
    type Input = i64;
    type Output = i64;

    fn process(&mut self, input: Option<i64>) -> Option<i64> {
        input.filter(|x| x % 2 == 0)
    }
}

/// Collects every value it consumes.
struct Collector {
    seen: Arc<Mutex<Vec<i64>>>,
}

impl Node for Collector {
    type Input = i64;
    type Output = i64;

    fn process(&mut self, input: Option<i64>) -> Option<i64> {
        if let Some(x) = input {
            self.seen.lock().unwrap().push(x);
        }
        None
    }
}

/// Drives an instance until its loop would stop, and returns the control
/// value it stopped with.
fn drive_to_stop<N: Node>(inst: &mut NodeInstance<N>) -> CycleControl {
    loop {
        let step = inst.run_cycle();
        match step.control {
            CycleControl::Progress | CycleControl::WouldBlock => {}
            other => return other,
        }
    }
}

// A linear chain of deterministic stages delivers, at the sink, the
// composition of the stages applied to the source values in order:
// 1..=10, doubled, filtered to even values, is exactly [2, 4, ..., 20].
#[test]
fn chain_composition_observed_at_sink() {
    let seen = Arc::new(Mutex::new(Vec::new()));
    let mut src = NodeInstance::new(
        String::from("source"),
        CountingSource { next: 1, limit: 10 },
        None,
    );
    let mut dbl = NodeInstance::new(String::from("double"), Doubler, None);
    let mut flt = NodeInstance::new(String::from("filter"), EvenFilter, None);
    let mut sink = NodeInstance::new(
        String::from("sink"),
        Collector { seen: Arc::clone(&seen) },
        None,
    );
    connect(&mut src, &mut dbl, 16, Policy::SpinYield);
    connect(&mut dbl, &mut flt, 16, Policy::SpinYield);
    connect(&mut flt, &mut sink, 16, Policy::SpinYield);

    src.start();
    dbl.start();
    flt.start();
    sink.start();

    for _ in 0..10 {
        let step = src.run_cycle();
        assert!(matches!(step.control, CycleControl::Progress));
    }
    src.stop();
    drop(src);

    assert!(matches!(drive_to_stop(&mut dbl), CycleControl::Closed));
    dbl.stop();
    drop(dbl);
    assert!(matches!(drive_to_stop(&mut flt), CycleControl::Closed));
    flt.stop();
    drop(flt);
    assert!(matches!(drive_to_stop(&mut sink), CycleControl::Closed));
    sink.stop();

    let expected: Vec<i64> = (1..=10).map(|x| x * 2).collect();
    assert_eq!(*seen.lock().unwrap(), expected);
}

// A node that produces a value while having no output connection is a
// fatal configuration error: the cycle reports it instead of dropping the
// value silently.
#[test]
fn producing_without_output_is_fatal() {
    let mut inst = NodeInstance::new(
        String::from("bad"),
        CountingSource { next: 1, limit: 10 },
        None,
    );
    inst.start();
    let step = inst.run_cycle();
    assert!(matches!(step.control, CycleControl::MissingOutput));
}

// A source that emits nothing keeps the loop alive: returning None from a
// self-driven source is a pause, not a termination.
#[test]
fn idle_source_keeps_running() {
    let mut inst = NodeInstance::new(
        String::from("idle"),
        CountingSource { next: 1, limit: 0 },
        None,
    );
    inst.start();
    for _ in 0..5 {
        let step = inst.run_cycle();
        assert!(matches!(step.control, CycleControl::Progress));
    }
}

// A two-stage chain over the blocking policy drains fully after the
// producer is gone.
#[test]
fn blocking_chain_drains() {
    let seen = Arc::new(Mutex::new(Vec::new()));
    let mut src = NodeInstance::new(
        String::from("bsource"),
        CountingSource { next: 1, limit: 5 },
        None,
    );
    let mut sink = NodeInstance::new(
        String::from("bsink"),
        Collector { seen: Arc::clone(&seen) },
        None,
    );
    connect(&mut src, &mut sink, 8, Policy::Blocking);
    src.start();
    sink.start();
    for _ in 0..5 {
        let step = src.run_cycle();
        assert!(matches!(step.control, CycleControl::Progress));
    }
    src.stop();
    drop(src);
    assert!(matches!(drive_to_stop(&mut sink), CycleControl::Closed));
    sink.stop();
    assert_eq!(*seen.lock().unwrap(), vec![1, 2, 3, 4, 5]);
}

// Stress: 100,000 items through a three-stage chain over small buffers,
// with a pseudo-random schedule that starves the consumer, arrive exactly
// once each, in order.
#[test]
fn stress_no_loss_small_buffers() {
    let total: i64 = 100_000;
    let seen = Arc::new(Mutex::new(Vec::new()));
    let mut src = NodeInstance::new(
        String::from("ssource"),
        CountingSource { next: 1, limit: total },
        None,
    );
    let mut mid = NodeInstance::new(String::from("sdouble"), Doubler, None);
    let mut sink = NodeInstance::new(
        String::from("ssink"),
        Collector { seen: Arc::clone(&seen) },
        None,
    );
    connect(&mut src, &mut mid, 8, Policy::SpinYield);
    connect(&mut mid, &mut sink, 8, Policy::SpinYield);
    src.start();
    mid.start();
    sink.start();

    let mut rng: u64 = 0x2545F4914F6CDD1D;
    let mut collected: usize = 0;
    while collected < total as usize {
        rng = rng.wrapping_mul(6364136223846793005).wrapping_add(1442695040888963407);
        match (rng >> 33) % 5 {
            0 | 1 => {
                let _ = src.run_cycle();
            }
            2 | 3 => {
                let _ = mid.run_cycle();
            }
            _ => {
                let _ = sink.run_cycle();
                collected = seen.lock().unwrap().len();
            }
        }
    }
    src.stop();
    mid.stop();
    sink.stop();

    let got = seen.lock().unwrap();
    assert_eq!(got.len(), total as usize);
    for (i, v) in got.iter().enumerate() {
        assert_eq!(*v, (i as i64 + 1) * 2);
    }
}

// Wiring an edge by hand out of a channel's two halves behaves like the
// connect builder.
#[test]
fn manual_wiring_with_channel_halves() {
    let seen = Arc::new(Mutex::new(Vec::new()));
    let mut src = NodeInstance::new(
        String::from("msource"),
        CountingSource { next: 1, limit: 3 },
        None,
    );
    let mut sink = NodeInstance::new(
        String::from("msink"),
        Collector { seen: Arc::clone(&seen) },
        None,
    );
    let (tx, rx) = channel::<i64>(4, Policy::SpinYield);
    src.set_sender(tx);
    sink.set_receiver(rx);
    src.start();
    sink.start();
    for _ in 0..3 {
        assert!(matches!(src.run_cycle().control, CycleControl::Progress));
    }
    src.stop();
    drop(src);
    assert!(matches!(drive_to_stop(&mut sink), CycleControl::Closed));
    sink.stop();
    assert_eq!(*seen.lock().unwrap(), vec![1, 2, 3]);
}

/// A handle that records when it is joined.
struct RecordingHandle {
    id: u32,
    order: Arc<Mutex<Vec<u32>>>,
}

impl Joinable for RecordingHandle {
    fn join(self) {
        self.order.lock().unwrap().push(self.id);
    }
}

#[test]
fn graph_joins_in_registration_order() {
    let order = Arc::new(Mutex::new(Vec::new()));
    let mut g = Graph::new();
    for id in 1..=3u32 {
        g.add_handle(RecordingHandle { id, order: Arc::clone(&order) });
    }
    g.wait();
    assert_eq!(*order.lock().unwrap(), vec![1, 2, 3]);
}

#[test]
fn empty_graph_wait_returns() {
    let g: Graph<RecordingHandle> = Graph::new();
    g.wait();
}

// A telemetry record is emitted once the one-second window has elapsed,
// with percentages that form a breakdown of the instrumented time.
#[test]
fn telemetry_window_emits_one_record() {
    let mut inst = NodeInstance::new(
        String::from("tsource"),
        CountingSource { next: 1, limit: 0 },
        None,
    );
    inst.start();
    let step = inst.run_cycle();
    assert!(step.report.is_none());

    let t = std::time::Instant::now();
    while t.elapsed() < std::time::Duration::from_millis(1100) {}

    let step = inst.run_cycle();
    match step.report {
        Some(rep) => {
            assert_eq!(rep.bytes_in_window, 0);
            assert!(rep.pct_recv <= 100);
            assert!(rep.pct_process <= 100);
            assert!(rep.pct_send <= 100);
            assert!(rep.pct_recv + rep.pct_process + rep.pct_send <= 100);
        }
        None => panic!("expected a telemetry record after the window elapsed"),
    }
    // the window was reset: the very next cycle reports nothing
    let step = inst.run_cycle();
    assert!(step.report.is_none());
}

#[test]
fn instance_reports_its_connections() {
    let mut src = NodeInstance::new(
        String::from("csource"),
        CountingSource { next: 1, limit: 1 },
        Some(0),
    );
    let mut sink = NodeInstance::new(
        String::from("csink"),
        Collector { seen: Arc::new(Mutex::new(Vec::new())) },
        None,
    );
    assert!(!src.has_input());
    assert!(!src.has_output());
    assert_eq!(src.name(), "csource");
    assert_eq!(src.cpu_core(), Some(0));
    connect(&mut src, &mut sink, 4, Policy::SpinYield);
    assert!(!src.has_input());
    assert!(src.has_output());
    assert!(sink.has_input());
    assert!(!sink.has_output());
    assert_eq!(sink.cpu_core(), None);
}
