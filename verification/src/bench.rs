//! The decisions of the headless benchmarks: the premium benchmark as a
//! state machine that a driver feeds with clock readings and frame results,
//! its summary metrics, and the sizes that both benchmarks use.

use vstd::prelude::*;
use crate::chars::{chars_of, parse_u16_spec, parse_u16_at};
use crate::stats::{
    FRAME_TIME_SAMPLES, Jitter, fastest_of, frame_time_percentiles, jitter_class, jitter_of,
    lemma_percentiles, lemma_sum_bounded, p99_of, sample_sum, sample_total,
};

verus! {

/// How long the premium benchmark measures, in seconds.
pub const BENCHMARK_DURATION_SECS: u64 = 5;

/// How long the premium benchmark warms up, in seconds.
pub const BENCHMARK_WARMUP_SECS: u64 = 2;

/// Nanoseconds in a second.
pub const NANOS_PER_SEC: u64 = 1_000_000_000;

/// The ANSI output that one redrawn cell is estimated to cost (SGR, glyph
/// and reset), in bytes.
pub const ANSI_BYTES_PER_CELL: u64 = 20;

/// Where the premium benchmark stands.
#[derive(Clone, Copy, Debug, PartialEq, Eq, Structural)]
pub enum BenchPhase {
    /// Not started: the first clock reading starts the warmup.
    Idle,
    /// Rendering unmeasured frames until the warmup deadline.
    Warmup,
    /// Warmup over: the next clock reading starts the measurement.
    Starting,
    /// Rendering measured frames until the measurement deadline.
    Measure,
    /// Measurement deadline passed: the next clock reading ends it.
    Stopping,
    /// Measurement over.
    Done,
}

/// What the driver reports.
#[derive(Clone, Copy, Debug)]
pub enum BenchEvent {
    /// A reading of the monotonic clock, in nanoseconds.
    Clock { now_ns: u64 },
    /// A measured frame was rendered: whether the whole frame was dirty, how
    /// many cells were marked dirty, how long the frame took in nanoseconds,
    /// and how many droplets were active.
    FrameDone { dirty_all: bool, dirty_cells: u64, frame_ns: u64, droplets: u64 },
}

/// What the driver does next.
#[derive(Clone, Copy, Debug, PartialEq, Eq, Structural)]
pub enum BenchAction {
    /// Read the clock and report it.
    ReadClock,
    /// Render one unmeasured frame, then read the clock.
    WarmupFrame,
    /// Render one measured frame and report it.
    MeasuredFrame,
    /// The measurement is over: build the report from the summary.
    Finished,
}

/// The state of a premium benchmark run.
pub struct PremiumBench {
    /// Terminal width used for the run.
    pub cols: u16,
    /// Terminal height used for the run.
    pub lines: u16,
    /// The shortest elapsed time that rates are computed over.
    pub min_elapsed_ns: u64,
    pub phase: BenchPhase,
    /// When the warmup started.
    pub warmup_start_ns: u64,
    /// When the warmup ends.
    pub warmup_end_ns: u64,
    /// When the measurement started.
    pub start_ns: u64,
    /// When the measurement ends.
    pub end_ns: u64,
    /// How long the measurement took, once it is done.
    pub elapsed_ns: u64,
    /// The clock reading that passed the last deadline.
    pub crossing_ns: u64,
    /// Times of the first measured frames, at most `FRAME_TIME_SAMPLES`.
    pub frame_times_ns: Vec<u64>,
    pub total_frames: u64,
    pub drawn_frames: u64,
    /// Cells redrawn over all measured frames.
    pub total_dirty_cells: u64,
    /// Frames that redrew at least a third of the terminal.
    pub full_redraw_frames: u64,
    pub total_ansi_bytes: u64,
    pub active_streams_sum: u64,
}

/// How many frame times are kept after `frames` measured frames.
pub open spec fn kept_samples(frames: u64) -> nat {
    if frames < FRAME_TIME_SAMPLES {
        frames as nat
    } else {
        FRAME_TIME_SAMPLES as nat
    }
}

/// Adds without overflow, stopping at `u64::MAX`.
pub open spec fn sat_add(a: u64, b: u64) -> u64 {
    if a + b > u64::MAX {
        u64::MAX
    } else {
        (a + b) as u64
    }
}

/// Multiplies without overflow, stopping at `u64::MAX`.
pub open spec fn sat_mul(a: u64, b: u64) -> u64 {
    if a * b > u64::MAX {
        u64::MAX
    } else {
        (a * b) as u64
    }
}

/// Whether a frame drew anything.
pub open spec fn frame_drew(dirty_all: bool, dirty_cells: u64) -> bool {
    dirty_all || dirty_cells > 0
}

/// How many cells a frame redrew: all of them when the whole frame is
/// dirty, otherwise the dirty ones.
pub open spec fn redrawn_cells(cols: u16, lines: u16, dirty_all: bool, dirty_cells: u64) -> u64 {
    if dirty_all {
        (cols * lines) as u64
    } else {
        dirty_cells
    }
}

/// Whether redrawing `cells` cells redraws at least a third of the terminal.
pub open spec fn is_full_redraw(cols: u16, lines: u16, cells: u64) -> bool {
    3 * cells >= cols * lines
}

impl PremiumBench {
    /// The invariant of a run: a positive floor for the elapsed time, the
    /// times of the first `FRAME_TIME_SAMPLES` frames kept, drawn frames
    /// among all frames, no frame before the measurement, the warmup
    /// deadline `BENCHMARK_WARMUP_SECS` after the warmup started, the
    /// measurement deadline `BENCHMARK_DURATION_SECS` after its start, and
    /// the reading that passed a deadline at or after it.
    pub open spec fn wf(&self) -> bool {
        &&& self.min_elapsed_ns > 0
        &&& self.frame_times_ns@.len() == kept_samples(self.total_frames)
        &&& self.drawn_frames <= self.total_frames
        &&& self.full_redraw_frames <= self.drawn_frames
        &&& (phase_rank(self.phase) <= 2 ==> self.total_frames == 0)
        &&& !(self.phase is Idle) ==> self.warmup_end_ns == sat_add(
            self.warmup_start_ns,
            (BENCHMARK_WARMUP_SECS * NANOS_PER_SEC) as u64,
        )
        &&& self.phase is Starting ==> self.crossing_ns >= self.warmup_end_ns
        &&& phase_rank(self.phase) >= 3 ==> self.end_ns == sat_add(
            self.start_ns,
            (BENCHMARK_DURATION_SECS * NANOS_PER_SEC) as u64,
        )
        &&& phase_rank(self.phase) >= 4 ==> self.crossing_ns >= self.end_ns
    }

    /// A run that has not started, for a `cols` x `lines` terminal, that
    /// computes rates over at least `min_elapsed_ns`.
    pub fn new(cols: u16, lines: u16, min_elapsed_ns: u64) -> (b: PremiumBench)
        requires
            min_elapsed_ns > 0,
        ensures
            b.wf(),
            b.cols == cols,
            b.lines == lines,
            b.min_elapsed_ns == min_elapsed_ns,
            b.phase == BenchPhase::Idle,
            b.frame_times_ns@ == Seq::<u64>::empty(),
            b.total_frames == 0,
            b.drawn_frames == 0,
            b.total_dirty_cells == 0,
            b.full_redraw_frames == 0,
            b.total_ansi_bytes == 0,
            b.active_streams_sum == 0,
            b.elapsed_ns == 0,
    {
        PremiumBench {
            cols,
            lines,
            min_elapsed_ns,
            phase: BenchPhase::Idle,
            warmup_start_ns: 0,
            warmup_end_ns: 0,
            start_ns: 0,
            end_ns: 0,
            elapsed_ns: 0,
            crossing_ns: 0,
            frame_times_ns: Vec::new(),
            total_frames: 0,
            drawn_frames: 0,
            total_dirty_cells: 0,
            full_redraw_frames: 0,
            total_ansi_bytes: 0,
            active_streams_sum: 0,
        }
    }
}


/// Whether `b` holds the same measurements, deadlines and phase as `a`.
pub open spec fn same_run(a: PremiumBench, b: PremiumBench) -> bool {
    &&& b.phase == a.phase
    &&& b.warmup_start_ns == a.warmup_start_ns
    &&& b.warmup_end_ns == a.warmup_end_ns
    &&& b.start_ns == a.start_ns
    &&& b.end_ns == a.end_ns
    &&& b.elapsed_ns == a.elapsed_ns
    &&& b.crossing_ns == a.crossing_ns
    &&& same_counters(a, b)
}

/// Whether `b` holds the same frame measurements as `a`.
pub open spec fn same_counters(a: PremiumBench, b: PremiumBench) -> bool {
    &&& b.frame_times_ns@ == a.frame_times_ns@
    &&& b.total_frames == a.total_frames
    &&& b.drawn_frames == a.drawn_frames
    &&& b.total_dirty_cells == a.total_dirty_cells
    &&& b.full_redraw_frames == a.full_redraw_frames
    &&& b.total_ansi_bytes == a.total_ansi_bytes
    &&& b.active_streams_sum == a.active_streams_sum
}

/// `b` is `a` after recording a measured frame: the frame time is kept
/// while fewer than `FRAME_TIME_SAMPLES` are held; a frame that drew counts
/// as drawn, adds its redrawn cells, counts as a full redraw when they are
/// at least a third of the terminal, and adds `ANSI_BYTES_PER_CELL` bytes
/// per redrawn cell; the active droplets are added up. Counters stop at
/// `u64::MAX`.
pub open spec fn records_frame(
    a: PremiumBench,
    b: PremiumBench,
    dirty_all: bool,
    dirty_cells: u64,
    frame_ns: u64,
    droplets: u64,
) -> bool {
    let drew = frame_drew(dirty_all, dirty_cells);
    let cells = redrawn_cells(a.cols, a.lines, dirty_all, dirty_cells);
    &&& b.frame_times_ns@ == (if a.frame_times_ns@.len() < FRAME_TIME_SAMPLES {
        a.frame_times_ns@.push(frame_ns)
    } else {
        a.frame_times_ns@
    })
    &&& b.total_frames == sat_add(a.total_frames, 1)
    &&& b.drawn_frames == (if drew {
        sat_add(a.drawn_frames, 1)
    } else {
        a.drawn_frames
    })
    &&& b.total_dirty_cells == (if drew {
        sat_add(a.total_dirty_cells, cells)
    } else {
        a.total_dirty_cells
    })
    &&& b.full_redraw_frames == (if drew && is_full_redraw(a.cols, a.lines, cells) {
        sat_add(a.full_redraw_frames, 1)
    } else {
        a.full_redraw_frames
    })
    &&& b.total_ansi_bytes == (if drew {
        sat_add(a.total_ansi_bytes, sat_mul(cells, ANSI_BYTES_PER_CELL))
    } else {
        a.total_ansi_bytes
    })
    &&& b.active_streams_sum == sat_add(a.active_streams_sum, droplets)
}

/// What one step does: `b` and `action` follow `a` on `event` (see
/// `run_premium_benchmark`). The terminal size and the elapsed-time floor
/// never change.
pub open spec fn steps_to(
    a: PremiumBench,
    event: BenchEvent,
    b: PremiumBench,
    action: BenchAction,
) -> bool {
    &&& b.cols == a.cols
    &&& b.lines == a.lines
    &&& b.min_elapsed_ns == a.min_elapsed_ns
    &&& match (a.phase, event) {
        (BenchPhase::Idle, BenchEvent::Clock { now_ns }) => {
            &&& action == BenchAction::ReadClock
            &&& b.phase == BenchPhase::Warmup
            &&& b.warmup_start_ns == now_ns
            &&& b.warmup_end_ns == sat_add(now_ns, (BENCHMARK_WARMUP_SECS * NANOS_PER_SEC) as u64)
            &&& b.start_ns == a.start_ns
            &&& b.end_ns == a.end_ns
            &&& b.elapsed_ns == a.elapsed_ns
            &&& b.crossing_ns == a.crossing_ns
            &&& same_counters(a, b)
        },
        (BenchPhase::Warmup, BenchEvent::Clock { now_ns }) => if now_ns < a.warmup_end_ns {
            &&& action == BenchAction::WarmupFrame
            &&& same_run(a, b)
        } else {
            &&& action == BenchAction::ReadClock
            &&& b.phase == BenchPhase::Starting
            &&& b.crossing_ns == now_ns
            &&& same_times(a, b)
            &&& same_counters(a, b)
        },
        (BenchPhase::Starting, BenchEvent::Clock { now_ns }) => {
            &&& action == BenchAction::ReadClock
            &&& b.phase == BenchPhase::Measure
            &&& b.warmup_start_ns == a.warmup_start_ns
            &&& b.warmup_end_ns == a.warmup_end_ns
            &&& b.start_ns == now_ns
            &&& b.end_ns == sat_add(now_ns, (BENCHMARK_DURATION_SECS * NANOS_PER_SEC) as u64)
            &&& b.elapsed_ns == a.elapsed_ns
            &&& b.crossing_ns == a.crossing_ns
            &&& same_counters(a, b)
        },
        (BenchPhase::Measure, BenchEvent::Clock { now_ns }) => if now_ns < a.end_ns {
            &&& action == BenchAction::MeasuredFrame
            &&& same_run(a, b)
        } else {
            &&& action == BenchAction::ReadClock
            &&& b.phase == BenchPhase::Stopping
            &&& b.crossing_ns == now_ns
            &&& same_times(a, b)
            &&& same_counters(a, b)
        },
        (BenchPhase::Stopping, BenchEvent::Clock { now_ns }) => {
            &&& action == BenchAction::Finished
            &&& b.phase == BenchPhase::Done
            &&& b.warmup_start_ns == a.warmup_start_ns
            &&& b.warmup_end_ns == a.warmup_end_ns
            &&& b.start_ns == a.start_ns
            &&& b.end_ns == a.end_ns
            &&& b.elapsed_ns == (if now_ns >= a.start_ns {
                (now_ns - a.start_ns) as u64
            } else {
                0
            })
            &&& b.crossing_ns == a.crossing_ns
            &&& same_counters(a, b)
        },
        (
            BenchPhase::Measure,
            BenchEvent::FrameDone { dirty_all, dirty_cells, frame_ns, droplets },
        ) => {
            &&& action == BenchAction::ReadClock
            &&& b.phase == BenchPhase::Measure
            &&& same_times(a, b)
            &&& b.crossing_ns == a.crossing_ns
            &&& records_frame(a, b, dirty_all, dirty_cells, frame_ns, droplets)
        },
        (BenchPhase::Done, _) => {
            &&& action == BenchAction::Finished
            &&& same_run(a, b)
        },
        (_, BenchEvent::FrameDone { .. }) => {
            &&& action == BenchAction::ReadClock
            &&& same_run(a, b)
        },
    }
}

/// Whether `b` holds the deadlines, start times and elapsed time of `a`.
pub open spec fn same_times(a: PremiumBench, b: PremiumBench) -> bool {
    &&& b.warmup_start_ns == a.warmup_start_ns
    &&& b.warmup_end_ns == a.warmup_end_ns
    &&& b.start_ns == a.start_ns
    &&& b.end_ns == a.end_ns
    &&& b.elapsed_ns == a.elapsed_ns
}

/// One step of the premium benchmark: the state after `event` and what the
/// driver does next.
///
/// - Before the start, a clock reading sets the warmup deadline
///   `BENCHMARK_WARMUP_SECS` later and asks for the clock again.
/// - During the warmup, a reading before the deadline asks for an
///   unmeasured frame; a later reading ends the warmup and asks for a fresh
///   reading, which starts the measurement, sets its deadline
///   `BENCHMARK_DURATION_SECS` later and asks for the clock again.
/// - During the measurement, a reading before the deadline asks for a
///   measured frame, and a frame report is recorded (see `records_frame`);
///   a reading at or after the deadline asks for a fresh reading, which
///   ends the run: it took the time from its start to that reading (zero if
///   the reading lies before the start).
/// - Once done, every event is answered `Finished`; a frame report before
///   the measurement is ignored. Deadlines stop at `u64::MAX`.
pub fn run_premium_benchmark(bench: &mut PremiumBench, event: BenchEvent) -> (action: BenchAction)
    requires
        old(bench).wf(),
    ensures
        final(bench).wf(),
        steps_to(*old(bench), event, *final(bench), action),
{
    match event {
        BenchEvent::Clock { now_ns } => match bench.phase {
            BenchPhase::Idle => {
                bench.warmup_start_ns = now_ns;
                bench.warmup_end_ns = now_ns.saturating_add(BENCHMARK_WARMUP_SECS * NANOS_PER_SEC);
                bench.phase = BenchPhase::Warmup;
                BenchAction::ReadClock
            },
            BenchPhase::Warmup => {
                if now_ns < bench.warmup_end_ns {
                    BenchAction::WarmupFrame
                } else {
                    bench.crossing_ns = now_ns;
                    bench.phase = BenchPhase::Starting;
                    BenchAction::ReadClock
                }
            },
            BenchPhase::Starting => {
                bench.start_ns = now_ns;
                bench.end_ns = now_ns.saturating_add(BENCHMARK_DURATION_SECS * NANOS_PER_SEC);
                bench.phase = BenchPhase::Measure;
                BenchAction::ReadClock
            },
            BenchPhase::Measure => {
                if now_ns < bench.end_ns {
                    BenchAction::MeasuredFrame
                } else {
                    bench.crossing_ns = now_ns;
                    bench.phase = BenchPhase::Stopping;
                    BenchAction::ReadClock
                }
            },
            BenchPhase::Stopping => {
                bench.elapsed_ns = if now_ns >= bench.start_ns {
                    now_ns - bench.start_ns
                } else {
                    0
                };
                bench.phase = BenchPhase::Done;
                BenchAction::Finished
            },
            BenchPhase::Done => BenchAction::Finished,
        },
        BenchEvent::FrameDone { dirty_all, dirty_cells, frame_ns, droplets } => match bench.phase {
            BenchPhase::Measure => {
                record_frame(bench, dirty_all, dirty_cells, frame_ns, droplets);
                BenchAction::ReadClock
            },
            BenchPhase::Done => BenchAction::Finished,
            _ => BenchAction::ReadClock,
        },
    }
}

/// Records one measured frame (see `records_frame`).
fn record_frame(
    bench: &mut PremiumBench,
    dirty_all: bool,
    dirty_cells: u64,
    frame_ns: u64,
    droplets: u64,
)
    requires
        old(bench).wf(),
        old(bench).phase is Measure,
    ensures
        final(bench).wf(),
        final(bench).cols == old(bench).cols,
        final(bench).lines == old(bench).lines,
        final(bench).min_elapsed_ns == old(bench).min_elapsed_ns,
        final(bench).phase == old(bench).phase,
        final(bench).warmup_start_ns == old(bench).warmup_start_ns,
        final(bench).warmup_end_ns == old(bench).warmup_end_ns,
        final(bench).start_ns == old(bench).start_ns,
        final(bench).end_ns == old(bench).end_ns,
        final(bench).elapsed_ns == old(bench).elapsed_ns,
        final(bench).crossing_ns == old(bench).crossing_ns,
        records_frame(*old(bench), *final(bench), dirty_all, dirty_cells, frame_ns, droplets),
{
    if dirty_all || dirty_cells > 0 {
        bench.drawn_frames = bench.drawn_frames.saturating_add(1);
        let cols = bench.cols as u64;
        let lines = bench.lines as u64;
        assert(cols * lines <= 0xffff * 0xffff) by (nonlinear_arith)
            requires
                cols <= 0xffff,
                lines <= 0xffff,
        ;
        let cells = if dirty_all {
            cols * lines
        } else {
            dirty_cells
        };
        bench.total_dirty_cells = bench.total_dirty_cells.saturating_add(cells);
        if cells as u128 * 3 >= (cols * lines) as u128 {
            bench.full_redraw_frames = bench.full_redraw_frames.saturating_add(1);
        }
        let bytes = match cells.checked_mul(ANSI_BYTES_PER_CELL) {
            Some(v) => v,
            None => u64::MAX,
        };
        bench.total_ansi_bytes = bench.total_ansi_bytes.saturating_add(bytes);
    }
    if bench.frame_times_ns.len() < FRAME_TIME_SAMPLES {
        bench.frame_times_ns.push(frame_ns);
    }
    bench.total_frames = bench.total_frames.saturating_add(1);
    bench.active_streams_sum = bench.active_streams_sum.saturating_add(droplets);
}

/// The integer results of a premium benchmark run. Rates are per second
/// over the elapsed time, rounded to the nearest integer (halves up) and
/// capped at `u64::MAX`; frame times are in nanoseconds.
#[derive(Clone, Copy, Debug)]
pub struct BenchSummary {
    pub cols: u16,
    pub lines: u16,
    /// The measurement time, at least the run's floor.
    pub elapsed_ns: u64,
    pub total_frames: u64,
    pub drawn_frames: u64,
    /// Frames that redrew at least a third of the terminal.
    pub full_redraw_frames: u64,
    /// Redrawn cells per frame, rounded down.
    pub avg_dirty_cells: u64,
    /// How many frame times were kept.
    pub sample_count: u64,
    /// Their sum.
    pub sample_sum_ns: u128,
    pub fastest_frame_ns: Option<u64>,
    pub p99_frame_ns: u64,
    pub jitter: Jitter,
    /// Redrawn cells per second.
    pub glyphs_per_second: u64,
    /// Estimated ANSI output per second.
    pub ansi_bytes_per_second: u64,
    /// Active droplets per frame, rounded down.
    pub active_streams_avg: u64,
}

/// The elapsed time that rates are computed over.
pub open spec fn effective_elapsed(b: PremiumBench) -> u64 {
    if b.elapsed_ns < b.min_elapsed_ns {
        b.min_elapsed_ns
    } else {
        b.elapsed_ns
    }
}

/// `amount` per second over `elapsed_ns`, rounded to the nearest integer
/// (halves up) and capped at `u64::MAX`.
pub open spec fn per_second(amount: nat, elapsed_ns: nat) -> u64 {
    let r: int = (2 * amount * NANOS_PER_SEC + elapsed_ns) as int / (2 * elapsed_ns) as int;
    if r > u64::MAX {
        u64::MAX
    } else {
        r as u64
    }
}

/// The frame count that per-frame averages divide by.
pub open spec fn frames_or_one(frames: u64) -> u64 {
    if frames > 0 {
        frames
    } else {
        1
    }
}

/// The summary of a run.
pub open spec fn summary_of(b: PremiumBench) -> BenchSummary {
    let elapsed = effective_elapsed(b);
    BenchSummary {
        cols: b.cols,
        lines: b.lines,
        elapsed_ns: elapsed,
        total_frames: b.total_frames,
        drawn_frames: b.drawn_frames,
        full_redraw_frames: b.full_redraw_frames,
        avg_dirty_cells: (b.total_dirty_cells / frames_or_one(b.total_frames)) as u64,
        sample_count: b.frame_times_ns@.len() as u64,
        sample_sum_ns: sample_sum(b.frame_times_ns@) as u128,
        fastest_frame_ns: fastest_of(b.frame_times_ns@),
        p99_frame_ns: p99_of(b.frame_times_ns@),
        jitter: jitter_of(b.frame_times_ns@),
        glyphs_per_second: per_second(b.total_dirty_cells as nat, elapsed as nat),
        ansi_bytes_per_second: per_second(b.total_ansi_bytes as nat, elapsed as nat),
        active_streams_avg: (b.active_streams_sum / frames_or_one(b.total_frames)) as u64,
    }
}

/// `amount` per second over `elapsed_ns` (see `per_second`).
fn rate(amount: u128, elapsed_ns: u64) -> (r: u64)
    requires
        amount <= 0x1_0000_0000_0000_0000_0000_0000,
        elapsed_ns > 0,
    ensures
        r == per_second(amount as nat, elapsed_ns as nat),
{
    let e = elapsed_ns as u128;
    assert(amount * 1_000_000_000 <= 0x1_0000_0000_0000_0000_0000_0000 * 1_000_000_000) by (
    nonlinear_arith)
        requires
            amount <= 0x1_0000_0000_0000_0000_0000_0000,
    ;
    assert(2 * amount * 1_000_000_000 + e <= u128::MAX);
    let q = (2 * amount * 1_000_000_000 + e) / (2 * e);
    if q > u64::MAX as u128 {
        u64::MAX
    } else {
        q as u64
    }
}

impl PremiumBench {
    /// The metrics of the run so far (see `summary_of`).
    pub fn summary(&self) -> (s: BenchSummary)
        requires
            self.wf(),
        ensures
            s == summary_of(*self),
            s.sample_sum_ns == sample_sum(self.frame_times_ns@),
    {
        let elapsed = if self.elapsed_ns < self.min_elapsed_ns {
            self.min_elapsed_ns
        } else {
            self.elapsed_ns
        };
        let glyphs = rate(self.total_dirty_cells as u128, elapsed);
        let ansi = rate(self.total_ansi_bytes as u128, elapsed);
        let frames = if self.total_frames > 0 {
            self.total_frames
        } else {
            1
        };
        let sum = sample_total(&self.frame_times_ns);
        let (fastest, p99) = frame_time_percentiles(&self.frame_times_ns);
        let jitter = jitter_class(&self.frame_times_ns);
        BenchSummary {
            cols: self.cols,
            lines: self.lines,
            elapsed_ns: elapsed,
            total_frames: self.total_frames,
            drawn_frames: self.drawn_frames,
            full_redraw_frames: self.full_redraw_frames,
            avg_dirty_cells: self.total_dirty_cells / frames,
            sample_count: self.frame_times_ns.len() as u64,
            sample_sum_ns: sum,
            fastest_frame_ns: fastest,
            p99_frame_ns: p99,
            jitter,
            glyphs_per_second: glyphs,
            ansi_bytes_per_second: ansi,
            active_streams_avg: self.active_streams_sum / frames,
        }
    }
}


/// Frames that the legacy benchmark renders before it measures: a tenth of
/// the measured frames, kept within `10..=200`.
pub open spec fn legacy_warmup_spec(bench_frames: u64) -> u64 {
    let tenth = bench_frames / 10;
    if tenth < 10 {
        10
    } else if tenth > 200 {
        200
    } else {
        tenth
    }
}

/// The warmup frame count of the legacy benchmark.
pub fn legacy_warmup_frames(bench_frames: u64) -> (n: u64)
    ensures
        n == legacy_warmup_spec(bench_frames),
{
    let tenth = bench_frames / 10;
    if tenth < 10 {
        10
    } else if tenth > 200 {
        200
    } else {
        tenth
    }
}

/// One benchmark dimension: the variable's value read as a `u16` when it is
/// set and valid, else the default; never above `max`.
pub open spec fn bench_dimension_spec(value: Option<Seq<char>>, default: u16, max: u16) -> u16 {
    let v = match value {
        Some(s) => match parse_u16_spec(s) {
            Some(n) => n,
            None => default,
        },
        None => default,
    };
    if v < max {
        v
    } else {
        max
    }
}

/// Reads one benchmark dimension (see `bench_dimension_spec`).
pub fn bench_dimension(value: &Option<String>, default: u16, max: u16) -> (r: u16)
    ensures
        r == bench_dimension_spec(
            match value {
                Some(s) => Some(s@),
                None => None,
            },
            default,
            max,
        ),
{
    let v = match value {
        Some(s) => {
            let cs = chars_of(s.as_str());
            assert(cs@.subrange(0, cs@.len() as int) =~= cs@);
            match parse_u16_at(&cs, 0, cs.len()) {
                Some(n) => n,
                None => default,
            }
        },
        None => default,
    };
    if v < max {
        v
    } else {
        max
    }
}

/// The terminal size of the headless benchmarks, from the values of the
/// column and line variables (when set and valid Unicode), their defaults
/// and the largest terminal supported.
pub fn bench_dimensions(
    cols_value: &Option<String>,
    lines_value: &Option<String>,
    default_cols: u16,
    default_lines: u16,
    max_cols: u16,
    max_lines: u16,
) -> (r: (u16, u16))
    ensures
        r.0 == bench_dimension_spec(
            match cols_value {
                Some(s) => Some(s@),
                None => None,
            },
            default_cols,
            max_cols,
        ),
        r.1 == bench_dimension_spec(
            match lines_value {
                Some(s) => Some(s@),
                None => None,
            },
            default_lines,
            max_lines,
        ),
{
    (bench_dimension(cols_value, default_cols, max_cols), bench_dimension(lines_value, default_lines, max_lines))
}


/// The position of a phase in the order of a run.
pub open spec fn phase_rank(p: BenchPhase) -> int {
    match p {
        BenchPhase::Idle => 0,
        BenchPhase::Warmup => 1,
        BenchPhase::Starting => 2,
        BenchPhase::Measure => 3,
        BenchPhase::Stopping => 4,
        BenchPhase::Done => 5,
    }
}

/// A run only moves forward, one phase at a time, and it answers
/// `Finished` exactly when it is done.
pub proof fn lemma_phase_advances(
    a: PremiumBench,
    event: BenchEvent,
    b: PremiumBench,
    action: BenchAction,
)
    requires
        a.wf(),
        steps_to(a, event, b, action),
    ensures
        phase_rank(a.phase) <= phase_rank(b.phase) <= phase_rank(a.phase) + 1,
        (action == BenchAction::Finished) <==> b.phase == BenchPhase::Done,
{
}

/// A step loses no measurement: the kept frame times come first in the
/// new state, and no counter goes down.
pub proof fn lemma_measurements_kept(
    a: PremiumBench,
    event: BenchEvent,
    b: PremiumBench,
    action: BenchAction,
)
    requires
        a.wf(),
        steps_to(a, event, b, action),
    ensures
        a.frame_times_ns@.is_prefix_of(b.frame_times_ns@),
        a.total_frames <= b.total_frames,
        a.drawn_frames <= b.drawn_frames,
        a.total_dirty_cells <= b.total_dirty_cells,
        a.full_redraw_frames <= b.full_redraw_frames,
        a.total_ansi_bytes <= b.total_ansi_bytes,
        a.active_streams_sum <= b.active_streams_sum,
{
    assert(b.frame_times_ns@.subrange(0, a.frame_times_ns@.len() as int) =~= a.frame_times_ns@);
}

/// The warmup and the measurement last their full durations when the
/// clock does not go back: the reading that starts the measurement comes at
/// least `BENCHMARK_WARMUP_SECS` after the warmup started, and the reading
/// that ends the run comes at least `BENCHMARK_DURATION_SECS` after the
/// measurement started (unless a deadline overflows the clock).
pub proof fn lemma_full_durations(
    a: PremiumBench,
    now_ns: u64,
    b: PremiumBench,
    action: BenchAction,
)
    requires
        a.wf(),
        steps_to(a, BenchEvent::Clock { now_ns }, b, action),
        now_ns >= a.crossing_ns,
    ensures
        a.phase is Starting ==> b.start_ns >= b.warmup_start_ns + BENCHMARK_WARMUP_SECS
            * NANOS_PER_SEC || b.warmup_start_ns + BENCHMARK_WARMUP_SECS * NANOS_PER_SEC
            > u64::MAX,
        a.phase is Stopping ==> b.elapsed_ns >= BENCHMARK_DURATION_SECS * NANOS_PER_SEC
            || b.start_ns + BENCHMARK_DURATION_SECS * NANOS_PER_SEC > u64::MAX,
{
}

/// During the measurement, a clock reading before the deadline always asks
/// for a measured frame, however many frames were recorded; the measurement
/// is left only by a reading at or after the deadline, which becomes the
/// crossing reading; a frame report never ends it.
pub proof fn lemma_measurement_runs_to_deadline(
    a: PremiumBench,
    event: BenchEvent,
    b: PremiumBench,
    action: BenchAction,
)
    requires
        a.wf(),
        steps_to(a, event, b, action),
        a.phase is Measure,
    ensures
        event matches BenchEvent::Clock { now_ns } ==> ((now_ns < a.end_ns) == (action
            == BenchAction::MeasuredFrame)),
        event matches BenchEvent::Clock { now_ns } && now_ns < a.end_ns ==> b.phase is Measure
            && b.total_frames == a.total_frames,
        b.phase !is Measure ==> b.phase is Stopping && (event matches BenchEvent::Clock { now_ns }
            && now_ns >= a.end_ns && b.crossing_ns == now_ns),
        event is FrameDone ==> b.phase is Measure && b.total_frames == sat_add(a.total_frames, 1),
{
}

/// The per-frame averages of a summary divide by every measured frame (at
/// least one), not by the kept frame times: each is the largest `q` with
/// `q * frames <= total`.
pub proof fn lemma_summary_averages(b: PremiumBench)
    requires
        b.wf(),
    ensures
        ({
            let f: int = if b.total_frames > 0 {
                b.total_frames as int
            } else {
                1
            };
            let s = summary_of(b);
            &&& s.active_streams_avg * f <= b.active_streams_sum < (s.active_streams_avg + 1) * f
            &&& s.avg_dirty_cells * f <= b.total_dirty_cells < (s.avg_dirty_cells + 1) * f
        }),
{
    let f: int = if b.total_frames > 0 {
        b.total_frames as int
    } else {
        1
    };
    let s = summary_of(b);
    let x = b.active_streams_sum as int;
    let y = b.total_dirty_cells as int;
    assert(s.active_streams_avg == x / f);
    assert(s.avg_dirty_cells == y / f);
    assert((x / f) * f <= x < (x / f + 1) * f) by (nonlinear_arith)
        requires
            f > 0,
            x >= 0,
    ;
    assert((y / f) * f <= y < (y / f + 1) * f) by (nonlinear_arith)
        requires
            f > 0,
            y >= 0,
    ;
}

/// During the warmup, a clock reading before its deadline always asks for
/// an unmeasured frame, and the warmup is left only by a reading at or after
/// the deadline; the next reading starts the measurement, whose deadline
/// lies `BENCHMARK_DURATION_SECS` later, and the reading after the
/// measurement deadline ends the run, which then spans from the start to
/// that reading.
pub proof fn lemma_run_timeline(a: PremiumBench, now_ns: u64, b: PremiumBench, action: BenchAction)
    requires
        a.wf(),
        steps_to(a, BenchEvent::Clock { now_ns }, b, action),
    ensures
        a.phase is Warmup ==> ((now_ns < a.warmup_end_ns) == (action
            == BenchAction::WarmupFrame)),
        a.phase is Warmup && b.phase !is Warmup ==> b.phase is Starting && now_ns
            >= a.warmup_end_ns && b.crossing_ns == now_ns && b.total_frames == 0,
        a.phase is Starting ==> b.phase is Measure && b.start_ns == now_ns && (b.end_ns
            == now_ns + BENCHMARK_DURATION_SECS * NANOS_PER_SEC || b.end_ns == u64::MAX),
        a.phase is Stopping && now_ns >= a.start_ns ==> b.phase is Done && a.start_ns
            + b.elapsed_ns == now_ns && action == BenchAction::Finished,
{
}

/// A measured frame counts once among all frames, once among drawn frames
/// when it drew, keeps its time while fewer than `FRAME_TIME_SAMPLES` are
/// kept, and adds its redrawn cells and its droplets (counters stop at
/// `u64::MAX`).
pub proof fn lemma_frame_recorded(
    a: PremiumBench,
    dirty_all: bool,
    dirty_cells: u64,
    frame_ns: u64,
    droplets: u64,
    b: PremiumBench,
    action: BenchAction,
)
    requires
        a.wf(),
        a.phase is Measure,
        steps_to(a, BenchEvent::FrameDone { dirty_all, dirty_cells, frame_ns, droplets }, b, action),
        a.total_frames < u64::MAX,
        a.drawn_frames < u64::MAX,
        a.active_streams_sum + droplets <= u64::MAX,
    ensures
        action == BenchAction::ReadClock,
        b.total_frames == a.total_frames + 1,
        b.drawn_frames == a.drawn_frames + (if dirty_all || dirty_cells > 0 {
            1int
        } else {
            0
        }),
        a.frame_times_ns@.len() < FRAME_TIME_SAMPLES ==> b.frame_times_ns@ == a.frame_times_ns@.push(
            frame_ns,
        ),
        a.frame_times_ns@.len() >= FRAME_TIME_SAMPLES ==> b.frame_times_ns@ == a.frame_times_ns@,
        b.active_streams_sum == a.active_streams_sum + droplets,
        !dirty_all && a.total_dirty_cells + dirty_cells <= u64::MAX ==> b.total_dirty_cells
            == a.total_dirty_cells + dirty_cells,
        dirty_all && a.total_dirty_cells + a.cols * a.lines <= u64::MAX ==> b.total_dirty_cells
            == a.total_dirty_cells + a.cols * a.lines,
{
}

/// The rates of a summary are the totals per second of the effective
/// elapsed time (at least the floor), rounded to the nearest integer unless
/// they exceed `u64::MAX`.
pub proof fn lemma_summary_rates(b: PremiumBench)
    requires
        b.wf(),
    ensures
        ({
            let s = summary_of(b);
            let e = s.elapsed_ns as int;
            &&& e == (if b.elapsed_ns < b.min_elapsed_ns {
                b.min_elapsed_ns
            } else {
                b.elapsed_ns
            })
            &&& s.glyphs_per_second == u64::MAX || (2 * s.glyphs_per_second * e <= 2
                * b.total_dirty_cells * NANOS_PER_SEC + e < 2 * (s.glyphs_per_second + 1) * e)
            &&& s.ansi_bytes_per_second == u64::MAX || (2 * s.ansi_bytes_per_second * e <= 2
                * b.total_ansi_bytes * NANOS_PER_SEC + e < 2 * (s.ansi_bytes_per_second + 1) * e)
        }),
{
    let s = summary_of(b);
    let e = s.elapsed_ns as int;
    assert(e > 0);
    let x = 2 * b.total_dirty_cells * NANOS_PER_SEC + e;
    let y = 2 * b.total_ansi_bytes * NANOS_PER_SEC + e;
    assert((x / (2 * e)) * (2 * e) <= x < (x / (2 * e) + 1) * (2 * e)) by (nonlinear_arith)
        requires
            e > 0,
            x >= 0,
    ;
    assert((y / (2 * e)) * (2 * e) <= y < (y / (2 * e) + 1) * (2 * e)) by (nonlinear_arith)
        requires
            e > 0,
            y >= 0,
    ;
    let g = s.glyphs_per_second as int;
    let a = s.ansi_bytes_per_second as int;
    if g != u64::MAX {
        assert(g == x / (2 * e));
        assert(2 * g * e == (x / (2 * e)) * (2 * e)) by (nonlinear_arith)
            requires
                g == x / (2 * e),
        ;
        assert(2 * (g + 1) * e == (x / (2 * e) + 1) * (2 * e)) by (nonlinear_arith)
            requires
                g == x / (2 * e),
        ;
    }
    if a != u64::MAX {
        assert(a == y / (2 * e));
        assert(2 * a * e == (y / (2 * e)) * (2 * e)) by (nonlinear_arith)
            requires
                a == y / (2 * e),
        ;
        assert(2 * (a + 1) * e == (y / (2 * e) + 1) * (2 * e)) by (nonlinear_arith)
            requires
                a == y / (2 * e),
        ;
    }
}

/// Frames are measured only during the measurement and before its
/// deadline.
pub proof fn lemma_measured_before_deadline(
    a: PremiumBench,
    event: BenchEvent,
    b: PremiumBench,
    action: BenchAction,
)
    requires
        a.wf(),
        steps_to(a, event, b, action),
        action == BenchAction::MeasuredFrame,
    ensures
        a.phase is Measure,
        event matches BenchEvent::Clock { now_ns } && now_ns < a.end_ns,
{
}

/// The summary is consistent: it keeps the times of the first
/// `FRAME_TIME_SAMPLES` frames, counts full redraws among drawn frames and
/// drawn frames among all frames,
/// measures over at least the floor, and its fastest frame is the smallest
/// kept time and no slower than the 99th percentile, which is a kept time
/// too. Without samples both are absent or zero; with fewer than two the
/// jitter is low.
pub proof fn lemma_summary_consistent(b: PremiumBench)
    requires
        b.wf(),
    ensures
        summary_of(b).sample_count == kept_samples(b.total_frames),
        summary_of(b).sample_sum_ns == sample_sum(b.frame_times_ns@),
        summary_of(b).full_redraw_frames <= summary_of(b).drawn_frames,
        summary_of(b).drawn_frames <= summary_of(b).total_frames,
        summary_of(b).elapsed_ns >= b.min_elapsed_ns,
        b.frame_times_ns@.len() == 0 ==> summary_of(b).fastest_frame_ns is None
            && summary_of(b).p99_frame_ns == 0,
        b.frame_times_ns@.len() > 0 ==> ({
            let s = summary_of(b);
            &&& s.fastest_frame_ns is Some
            &&& s.fastest_frame_ns->0 <= s.p99_frame_ns
            &&& b.frame_times_ns@.contains(s.p99_frame_ns)
            &&& b.frame_times_ns@.contains(s.fastest_frame_ns->0)
            &&& forall|i: int|
                0 <= i < b.frame_times_ns@.len() ==> s.fastest_frame_ns->0
                    <= #[trigger] b.frame_times_ns@[i]
        }),
        b.frame_times_ns@.len() <= 1 ==> summary_of(b).jitter == Jitter::Low,
{
    lemma_sum_bounded(b.frame_times_ns@);
    assert(b.frame_times_ns@.len() * (u64::MAX as nat) <= 10_000 * (u64::MAX as nat)) by (
    nonlinear_arith)
        requires
            b.frame_times_ns@.len() <= 10_000,
    ;
    if b.frame_times_ns@.len() > 0 {
        lemma_percentiles(b.frame_times_ns@);
    }
}

/// The legacy warmup is never shorter than 10 frames nor longer than 200.
pub proof fn lemma_legacy_warmup_bounds(bench_frames: u64)
    ensures
        10 <= legacy_warmup_spec(bench_frames) <= 200,
{
}

} // verus!
