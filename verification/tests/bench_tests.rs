use cosmostrix::bench::{
    bench_dimension, bench_dimensions, legacy_warmup_frames, run_premium_benchmark, BenchAction,
    BenchEvent, BenchPhase, PremiumBench,
};
use cosmostrix::report::{benchmark_report, decimal_string, ReportField, ReportText};
use cosmostrix::stats::{frame_time_percentiles, jitter_class, sorted_copy, Jitter};

const SEC: u64 = 1_000_000_000;

fn clock(b: &mut PremiumBench, now_ns: u64) -> BenchAction {
    run_premium_benchmark(b, BenchEvent::Clock { now_ns })
}

fn frame(b: &mut PremiumBench, dirty_all: bool, dirty_cells: u64, frame_ns: u64, droplets: u64) -> BenchAction {
    run_premium_benchmark(b, BenchEvent::FrameDone { dirty_all, dirty_cells, frame_ns, droplets })
}

#[test]
fn run_goes_through_warmup_and_measurement() {
    let mut b = PremiumBench::new(120, 40, 1);
    assert_eq!(b.phase, BenchPhase::Idle);
    assert_eq!(clock(&mut b, 10), BenchAction::ReadClock);
    assert_eq!(b.phase, BenchPhase::Warmup);
    assert_eq!(b.warmup_start_ns, 10);
    assert_eq!(b.warmup_end_ns, 10 + 2 * SEC);
    assert_eq!(clock(&mut b, 20), BenchAction::WarmupFrame);
    assert_eq!(clock(&mut b, 10 + 2 * SEC - 1), BenchAction::WarmupFrame);
    assert_eq!(clock(&mut b, 10 + 2 * SEC), BenchAction::ReadClock);
    assert_eq!(b.phase, BenchPhase::Starting);
    assert_eq!(b.crossing_ns, 10 + 2 * SEC);
    // the measurement starts at a fresh reading
    assert_eq!(clock(&mut b, 15 + 2 * SEC), BenchAction::ReadClock);
    assert_eq!(b.phase, BenchPhase::Measure);
    assert_eq!(b.start_ns, 15 + 2 * SEC);
    assert_eq!(b.end_ns, 15 + 7 * SEC);
    assert_eq!(clock(&mut b, 3 * SEC), BenchAction::MeasuredFrame);
    assert_eq!(frame(&mut b, false, 100, 200_000, 10), BenchAction::ReadClock);
    assert_eq!(clock(&mut b, 4 * SEC), BenchAction::MeasuredFrame);
    assert_eq!(frame(&mut b, true, 0, 300_000, 20), BenchAction::ReadClock);
    assert_eq!(clock(&mut b, 5 * SEC), BenchAction::MeasuredFrame);
    assert_eq!(frame(&mut b, false, 0, 100_000, 30), BenchAction::ReadClock);
    assert_eq!(clock(&mut b, 15 + 7 * SEC), BenchAction::ReadClock);
    assert_eq!(b.phase, BenchPhase::Stopping);
    // the run ends at a fresh reading
    assert_eq!(clock(&mut b, 20 + 7 * SEC), BenchAction::Finished);
    assert_eq!(b.phase, BenchPhase::Done);
    assert_eq!(b.elapsed_ns, 5 * SEC + 5);
    assert_eq!(clock(&mut b, 8 * SEC), BenchAction::Finished);
    assert_eq!(frame(&mut b, true, 0, 1, 1), BenchAction::Finished);

    let s = b.summary();
    assert_eq!(s.total_frames, 3);
    assert_eq!(s.drawn_frames, 2);
    assert_eq!(s.full_redraw_frames, 1);
    assert_eq!(s.avg_dirty_cells, 1_633);
    assert_eq!(s.sample_count, 3);
    assert_eq!(s.sample_sum_ns, 600_000);
    assert_eq!(s.fastest_frame_ns, Some(100_000));
    assert_eq!(s.p99_frame_ns, 300_000);
    assert_eq!(s.elapsed_ns, 5 * SEC + 5);
    // (100 + 4800 redrawn cells) over 5 s
    assert_eq!(s.glyphs_per_second, 980);
    // (100 + 4800 cells) x 20 bytes over 5 s
    assert_eq!(s.ansi_bytes_per_second, 19_600);
    assert_eq!(s.active_streams_avg, 20);
    assert_eq!(s.jitter, Jitter::Low);
}

#[test]
fn a_third_of_the_terminal_is_a_full_redraw() {
    let mut b = PremiumBench::new(30, 10, 1);
    clock(&mut b, 0);
    clock(&mut b, 2 * SEC);
    clock(&mut b, 2 * SEC);
    frame(&mut b, false, 99, 1, 0);
    assert_eq!(b.full_redraw_frames, 0);
    frame(&mut b, false, 100, 1, 0);
    assert_eq!(b.full_redraw_frames, 1);
    frame(&mut b, false, 0, 1, 0);
    assert_eq!(b.full_redraw_frames, 1);
    assert_eq!(b.total_dirty_cells, 199);
    assert_eq!(b.drawn_frames, 2);
}

#[test]
fn frame_reports_outside_measurement_are_ignored() {
    let mut b = PremiumBench::new(80, 24, 1);
    assert_eq!(frame(&mut b, true, 5, 10, 10), BenchAction::ReadClock);
    assert_eq!(b.phase, BenchPhase::Idle);
    clock(&mut b, 0);
    assert_eq!(frame(&mut b, true, 5, 10, 10), BenchAction::ReadClock);
    assert_eq!(b.total_frames, 0);
    assert_eq!(b.phase, BenchPhase::Warmup);
}

#[test]
fn deadlines_stop_at_clock_limit() {
    let mut b = PremiumBench::new(80, 24, 1);
    clock(&mut b, u64::MAX - 5);
    assert_eq!(b.warmup_end_ns, u64::MAX);
    assert_eq!(clock(&mut b, u64::MAX - 1), BenchAction::WarmupFrame);
    assert_eq!(clock(&mut b, u64::MAX), BenchAction::ReadClock);
    assert_eq!(clock(&mut b, u64::MAX), BenchAction::ReadClock);
    assert_eq!(b.end_ns, u64::MAX);
    assert_eq!(clock(&mut b, u64::MAX), BenchAction::ReadClock);
    assert_eq!(clock(&mut b, u64::MAX), BenchAction::Finished);
    assert_eq!(b.elapsed_ns, 0);
    assert_eq!(b.summary().elapsed_ns, 1);
}

#[test]
fn samples_are_capped() {
    let mut b = PremiumBench::new(10, 10, 1);
    clock(&mut b, 0);
    clock(&mut b, 2 * SEC);
    clock(&mut b, 2 * SEC);
    for i in 0..10_005u64 {
        frame(&mut b, false, 0, i, 0);
    }
    assert_eq!(b.total_frames, 10_005);
    assert_eq!(b.frame_times_ns.len(), 10_000);
    assert_eq!(b.frame_times_ns[9_999], 9_999);
    let s = b.summary();
    assert_eq!(s.sample_count, 10_000);
    assert_eq!(s.drawn_frames, 0);
    assert_eq!(s.glyphs_per_second, 0);
    assert_eq!(s.p99_frame_ns, 9_900);
}

#[test]
fn elapsed_floor_applies() {
    let mut b = PremiumBench::new(10, 10, 4 * SEC);
    b.elapsed_ns = SEC;
    b.total_ansi_bytes = 8;
    assert_eq!(b.summary().elapsed_ns, 4 * SEC);
    assert_eq!(b.summary().ansi_bytes_per_second, 2);
}

#[test]
fn rates_round_half_up() {
    let mut b = PremiumBench::new(10, 10, 1);
    b.elapsed_ns = 2 * SEC;
    b.total_ansi_bytes = 1;
    assert_eq!(b.summary().ansi_bytes_per_second, 1);
    b.elapsed_ns = 3 * SEC;
    assert_eq!(b.summary().ansi_bytes_per_second, 0);
    b.total_ansi_bytes = 5;
    assert_eq!(b.summary().ansi_bytes_per_second, 2);
}

#[test]
fn rates_saturate() {
    let mut b = PremiumBench::new(10, 10, 1);
    b.elapsed_ns = 1;
    b.total_ansi_bytes = u64::MAX;
    assert_eq!(b.summary().ansi_bytes_per_second, u64::MAX);
}

#[test]
fn jitter_classes() {
    assert_eq!(jitter_class(&vec![]), Jitter::Low);
    assert_eq!(jitter_class(&vec![9_000_000]), Jitter::Low);
    assert_eq!(jitter_class(&vec![1_000_000, 1_000_000]), Jitter::Low);
    assert_eq!(jitter_class(&vec![1_000_000, 1_600_000]), Jitter::Low);
    assert_eq!(jitter_class(&vec![1_000_000, 1_800_000]), Jitter::Medium);
    assert_eq!(jitter_class(&vec![0, 2_000_000]), Jitter::Medium);
    assert_eq!(jitter_class(&vec![0, 10_000_000]), Jitter::High);
    assert_eq!(Jitter::Low.label(), "low");
    assert_eq!(Jitter::Medium.label(), "medium");
    assert_eq!(Jitter::High.label(), "high");
}

#[test]
fn jitter_threshold_is_exact() {
    // standard deviation exactly 0.5 ms is not low
    assert_eq!(jitter_class(&vec![0, 707_107]), Jitter::Medium);
    assert_eq!(jitter_class(&vec![0, 707_106]), Jitter::Low);
}

#[test]
fn percentiles() {
    assert_eq!(frame_time_percentiles(&vec![]), (None, 0));
    let v: Vec<u64> = (1..=100).rev().map(|x| x * 1000).collect();
    assert_eq!(frame_time_percentiles(&v), (Some(1000), 100_000));
    let v: Vec<u64> = (1..=200).collect();
    assert_eq!(frame_time_percentiles(&v), (Some(1), 199));
    assert_eq!(frame_time_percentiles(&vec![5, 3, 9]), (Some(3), 9));
}

#[test]
fn sorting_keeps_duplicates() {
    assert_eq!(sorted_copy(&vec![3, 1, 3, 2, 1]), vec![1, 1, 2, 3, 3]);
    assert_eq!(sorted_copy(&vec![]), Vec::<u64>::new());
}

#[test]
fn legacy_warmup() {
    assert_eq!(legacy_warmup_frames(0), 10);
    assert_eq!(legacy_warmup_frames(109), 10);
    assert_eq!(legacy_warmup_frames(1_000), 100);
    assert_eq!(legacy_warmup_frames(2_009), 200);
    assert_eq!(legacy_warmup_frames(200_000), 200);
    assert_eq!(legacy_warmup_frames(u64::MAX), 200);
}

#[test]
fn dimensions_from_variables() {
    assert_eq!(bench_dimension(&None, 120, 500), 120);
    assert_eq!(bench_dimension(&Some("200".to_string()), 120, 500), 200);
    assert_eq!(bench_dimension(&Some("900".to_string()), 120, 500), 500);
    assert_eq!(bench_dimension(&Some(" 200".to_string()), 120, 500), 120);
    assert_eq!(bench_dimension(&Some("70000".to_string()), 120, 500), 120);
    assert_eq!(bench_dimension(&Some("+7".to_string()), 120, 500), 7);
    assert_eq!(bench_dimension(&None, 900, 500), 500);
    assert_eq!(
        bench_dimensions(&Some("120".to_string()), &Some("x".to_string()), 80, 24, 1000, 1000),
        (120, 24)
    );
}

#[test]
fn long_frames_are_kept_exactly() {
    let mut b = PremiumBench::new(10, 10, 1);
    clock(&mut b, 0);
    clock(&mut b, 2 * SEC);
    clock(&mut b, 2 * SEC);
    frame(&mut b, false, 0, 10 * SEC, 0);
    frame(&mut b, false, 0, 1_000_000, 0);
    let s = b.summary();
    assert_eq!(s.p99_frame_ns, 10 * SEC);
    assert_eq!(s.fastest_frame_ns, Some(1_000_000));
    assert_eq!(s.sample_sum_ns, 10_001_000_000);
    assert_eq!(s.jitter, Jitter::High);
}

#[test]
fn jitter_of_large_times() {
    assert_eq!(jitter_class(&vec![u64::MAX, u64::MAX, u64::MAX]), Jitter::Low);
    assert_eq!(jitter_class(&vec![u64::MAX - 1_000_000, u64::MAX]), Jitter::Medium);
    assert_eq!(jitter_class(&vec![0, u64::MAX]), Jitter::High);
    assert_eq!(jitter_class(&vec![5, 5 + 0x8_0000_0000]), Jitter::High);
    assert_eq!(jitter_class(&vec![5, 4 + 0x8_0000_0000]), Jitter::High);
}

#[test]
fn clock_going_back_gives_zero_elapsed() {
    let mut b = PremiumBench::new(10, 10, 1);
    clock(&mut b, 0);
    clock(&mut b, 2 * SEC);
    clock(&mut b, 3 * SEC);
    clock(&mut b, 8 * SEC);
    assert_eq!(b.phase, BenchPhase::Stopping);
    assert_eq!(clock(&mut b, SEC), BenchAction::Finished);
    assert_eq!(b.elapsed_ns, 0);
}

#[test]
fn report_layout() {
    let mut b = PremiumBench::new(120, 40, 1);
    clock(&mut b, 0);
    clock(&mut b, 2 * SEC);
    clock(&mut b, 2 * SEC);
    frame(&mut b, true, 0, 1_000, 7);
    clock(&mut b, 7 * SEC);
    clock(&mut b, 7 * SEC);
    let s = b.summary();
    let t = ReportText {
        system: vec![ReportField { key: "variant".to_string(), value: "v3".to_string() }],
        renderer: vec![],
        target_fps: "60.0".to_string(),
        density: "1.00".to_string(),
        avg_fps: "0.2".to_string(),
        peak_fps: "1000000.0".to_string(),
        avg_frame_time: "0.001".to_string(),
        p99_frame_time: "0.001".to_string(),
        draw_ratio: "100.0".to_string(),
        dirty_share: "100.00".to_string(),
        full_redraw_ratio: "100.0".to_string(),
        elapsed: "0.000".to_string(),
    };
    let r = benchmark_report(&s, t);
    let titles: Vec<&str> = r.iter().map(|x| x.title.as_str()).collect();
    assert_eq!(titles, ["SYSTEM", "RENDERER", "CONFIG", "PERFORMANCE", "THROUGHPUT", "TIMING"]);
    let lines: Vec<String> = r
        .iter()
        .flat_map(|x| x.fields.iter().map(|f| format!("{}: {}", f.key, f.value)))
        .collect();
    assert_eq!(
        lines,
        [
            "variant: v3",
            "cols: 120",
            "lines: 40",
            "target_fps: 60.0",
            "density: 1.00",
            "avg_fps: 0.2",
            "peak_fps: 1000000.0",
            "avg_frame_time: 0.001ms",
            "p99_frame_time: 0.001ms",
            "frame_jitter: low",
            "draw_ratio: 100.0%",
            "avg_dirty_cells: 4800 (100.00%)",
            "full_redraw_ratio: 100.0%",
            "glyphs_per_second: 960",
            "ansi_bytes_per_second: 19200",
            "active_streams_avg: 7",
            "elapsed: 0.000s",
            "total_frames: 1",
            "drawn_frames: 1",
        ]
    );
    assert_eq!(decimal_string(0), "0");
    assert_eq!(decimal_string(u64::MAX), u64::MAX.to_string());
}
