//! The premium benchmark report: its title, sections and fields, with the
//! integer metrics written in decimal.

use vstd::prelude::*;
use crate::bench::BenchSummary;
use crate::chars::{decimal, digit_char};
use crate::stats::Jitter;

verus! {

/// The title that heads the report.
pub const REPORT_TITLE: &'static str = "COSMOSTRIX BENCHMARK";

/// One `key: value` line of the report.
pub struct ReportField {
    pub key: String,
    pub value: String,
}

/// A titled group of fields.
pub struct ReportSection {
    pub title: String,
    pub fields: Vec<ReportField>,
}

/// What the report holds besides the integer metrics: the host's system and
/// renderer sections, and the floating-point values, already formatted.
pub struct ReportText {
    pub system: Vec<ReportField>,
    pub renderer: Vec<ReportField>,
    pub target_fps: String,
    pub density: String,
    pub avg_fps: String,
    pub peak_fps: String,
    /// In milliseconds.
    pub avg_frame_time: String,
    /// In milliseconds.
    pub p99_frame_time: String,
    /// In percent.
    pub draw_ratio: String,
    /// Average dirty cells as a percentage of the terminal.
    pub dirty_share: String,
    /// In percent.
    pub full_redraw_ratio: String,
    /// In seconds.
    pub elapsed: String,
}

/// The fields as key and value texts.
pub open spec fn fields_view(fields: Seq<ReportField>) -> Seq<(Seq<char>, Seq<char>)> {
    fields.map_values(|f: ReportField| (f.key@, f.value@))
}

/// The sections as title and field texts.
pub open spec fn report_view(sections: Seq<ReportSection>) -> Seq<
    (Seq<char>, Seq<(Seq<char>, Seq<char>)>),
> {
    sections.map_values(|s: ReportSection| (s.title@, fields_view(s.fields@)))
}

/// The word for a jitter class.
pub open spec fn jitter_word(j: Jitter) -> Seq<char> {
    match j {
        Jitter::Low => "low"@,
        Jitter::Medium => "medium"@,
        Jitter::High => "high"@,
    }
}

/// The report of a run: the host's SYSTEM and RENDERER sections, then
/// CONFIG, PERFORMANCE, THROUGHPUT and TIMING with their fields in order,
/// integers in decimal and the formatted values with their units.
pub open spec fn report_spec(s: BenchSummary, t: ReportText) -> Seq<
    (Seq<char>, Seq<(Seq<char>, Seq<char>)>),
> {
    seq![
        ("SYSTEM"@, fields_view(t.system@)),
        ("RENDERER"@, fields_view(t.renderer@)),
        (
            "CONFIG"@,
            seq![
                ("cols"@, decimal(s.cols as nat)),
                ("lines"@, decimal(s.lines as nat)),
                ("target_fps"@, t.target_fps@),
                ("density"@, t.density@),
            ],
        ),
        (
            "PERFORMANCE"@,
            seq![
                ("avg_fps"@, t.avg_fps@),
                ("peak_fps"@, t.peak_fps@),
                ("avg_frame_time"@, t.avg_frame_time@ + "ms"@),
                ("p99_frame_time"@, t.p99_frame_time@ + "ms"@),
                ("frame_jitter"@, jitter_word(s.jitter)),
                ("draw_ratio"@, t.draw_ratio@ + "%"@),
                ("avg_dirty_cells"@, decimal(s.avg_dirty_cells as nat) + " ("@ + t.dirty_share@
                    + "%)"@),
                ("full_redraw_ratio"@, t.full_redraw_ratio@ + "%"@),
            ],
        ),
        (
            "THROUGHPUT"@,
            seq![
                ("glyphs_per_second"@, decimal(s.glyphs_per_second as nat)),
                ("ansi_bytes_per_second"@, decimal(s.ansi_bytes_per_second as nat)),
                ("active_streams_avg"@, decimal(s.active_streams_avg as nat)),
            ],
        ),
        (
            "TIMING"@,
            seq![
                ("elapsed"@, t.elapsed@ + "s"@),
                ("total_frames"@, decimal(s.total_frames as nat)),
                ("drawn_frames"@, decimal(s.drawn_frames as nat)),
            ],
        ),
    ]
}

/// The value of the first field keyed `key`.
pub open spec fn field_named(fields: Seq<(Seq<char>, Seq<char>)>, key: Seq<char>) -> Option<
    Seq<char>,
>
    decreases fields.len(),
{
    if fields.len() == 0 {
        None
    } else if fields[0].0 == key {
        Some(fields[0].1)
    } else {
        field_named(fields.drop_first(), key)
    }
}

/// The fields of the first section titled `title`.
pub open spec fn section_named(
    sections: Seq<(Seq<char>, Seq<(Seq<char>, Seq<char>)>)>,
    title: Seq<char>,
) -> Option<Seq<(Seq<char>, Seq<char>)>>
    decreases sections.len(),
{
    if sections.len() == 0 {
        None
    } else if sections[0].0 == title {
        Some(sections[0].1)
    } else {
        section_named(sections.drop_first(), title)
    }
}

/// The metric fields of the report show the metric their key names: in
/// CONFIG the terminal size, in PERFORMANCE the jitter class, in
/// THROUGHPUT the three rates and in TIMING the frame counts, each integer
/// in decimal.
pub proof fn lemma_report_fields_show_their_metric(s: BenchSummary, t: ReportText)
    ensures
        ({
            let r = report_spec(s, t);
            &&& section_named(r, "CONFIG"@) matches Some(f) && field_named(f, "cols"@) == Some(
                decimal(s.cols as nat),
            ) && field_named(f, "lines"@) == Some(decimal(s.lines as nat))
            &&& section_named(r, "PERFORMANCE"@) matches Some(f) && field_named(
                f,
                "frame_jitter"@,
            ) == Some(jitter_word(s.jitter))
            &&& section_named(r, "THROUGHPUT"@) matches Some(f) && field_named(
                f,
                "glyphs_per_second"@,
            ) == Some(decimal(s.glyphs_per_second as nat)) && field_named(
                f,
                "ansi_bytes_per_second"@,
            ) == Some(decimal(s.ansi_bytes_per_second as nat)) && field_named(
                f,
                "active_streams_avg"@,
            ) == Some(decimal(s.active_streams_avg as nat))
            &&& section_named(r, "TIMING"@) matches Some(f) && field_named(f, "total_frames"@)
                == Some(decimal(s.total_frames as nat)) && field_named(f, "drawn_frames"@) == Some(
                decimal(s.drawn_frames as nat),
            )
        }),
{
    reveal_strlit("SYSTEM");
    reveal_strlit("RENDERER");
    reveal_strlit("CONFIG");
    reveal_strlit("PERFORMANCE");
    reveal_strlit("THROUGHPUT");
    reveal_strlit("TIMING");
    reveal_strlit("cols");
    reveal_strlit("lines");
    reveal_strlit("target_fps");
    reveal_strlit("density");
    reveal_strlit("avg_fps");
    reveal_strlit("peak_fps");
    reveal_strlit("avg_frame_time");
    reveal_strlit("p99_frame_time");
    reveal_strlit("frame_jitter");
    reveal_strlit("glyphs_per_second");
    reveal_strlit("ansi_bytes_per_second");
    reveal_strlit("active_streams_avg");
    reveal_strlit("elapsed");
    reveal_strlit("total_frames");
    reveal_strlit("drawn_frames");
    reveal_with_fuel(section_named, 7);
    reveal_with_fuel(field_named, 9);
    assert("SYSTEM"@.len() != "RENDERER"@.len());
    assert("SYSTEM"@[0] != "CONFIG"@[0]);
    assert("SYSTEM"@.len() != "PERFORMANCE"@.len());
    assert("SYSTEM"@.len() != "THROUGHPUT"@.len());
    assert("SYSTEM"@[0] != "TIMING"@[0]);
    assert("RENDERER"@.len() != "CONFIG"@.len());
    assert("RENDERER"@.len() != "PERFORMANCE"@.len());
    assert("RENDERER"@.len() != "THROUGHPUT"@.len());
    assert("RENDERER"@.len() != "TIMING"@.len());
    assert("CONFIG"@.len() != "PERFORMANCE"@.len());
    assert("CONFIG"@.len() != "THROUGHPUT"@.len());
    assert("CONFIG"@[0] != "TIMING"@[0]);
    assert("PERFORMANCE"@.len() != "THROUGHPUT"@.len());
    assert("PERFORMANCE"@.len() != "TIMING"@.len());
    assert("THROUGHPUT"@.len() != "TIMING"@.len());
    assert("cols"@.len() != "lines"@.len());
    assert("cols"@.len() != "target_fps"@.len());
    assert("cols"@.len() != "density"@.len());
    assert("lines"@.len() != "target_fps"@.len());
    assert("lines"@.len() != "density"@.len());
    assert("target_fps"@.len() != "density"@.len());
    assert("avg_fps"@.len() != "peak_fps"@.len());
    assert("avg_fps"@.len() != "avg_frame_time"@.len());
    assert("avg_fps"@.len() != "p99_frame_time"@.len());
    assert("avg_fps"@.len() != "frame_jitter"@.len());
    assert("peak_fps"@.len() != "avg_frame_time"@.len());
    assert("peak_fps"@.len() != "p99_frame_time"@.len());
    assert("peak_fps"@.len() != "frame_jitter"@.len());
    assert("avg_frame_time"@[0] != "p99_frame_time"@[0]);
    assert("avg_frame_time"@.len() != "frame_jitter"@.len());
    assert("p99_frame_time"@.len() != "frame_jitter"@.len());
    assert("glyphs_per_second"@.len() != "ansi_bytes_per_second"@.len());
    assert("glyphs_per_second"@.len() != "active_streams_avg"@.len());
    assert("ansi_bytes_per_second"@.len() != "active_streams_avg"@.len());
    assert("elapsed"@.len() != "total_frames"@.len());
    assert("elapsed"@.len() != "drawn_frames"@.len());
    assert("total_frames"@[0] != "drawn_frames"@[0]);
}

fn digit_text(d: u64) -> (s: &'static str)
    requires
        d < 10,
    ensures
        s@ == seq![digit_char(d as nat)],
{
    proof {
        reveal_strlit("0");
        reveal_strlit("1");
        reveal_strlit("2");
        reveal_strlit("3");
        reveal_strlit("4");
        reveal_strlit("5");
        reveal_strlit("6");
        reveal_strlit("7");
        reveal_strlit("8");
        reveal_strlit("9");
    }
    let s = match d {
        0 => "0",
        1 => "1",
        2 => "2",
        3 => "3",
        4 => "4",
        5 => "5",
        6 => "6",
        7 => "7",
        8 => "8",
        _ => "9",
    };
    assert(s@ =~= seq![digit_char(d as nat)]);
    s
}

fn push_decimal(out: &mut String, n: u64)
    ensures
        final(out)@ == old(out)@ + decimal(n as nat),
    decreases n,
{
    if n >= 10 {
        push_decimal(out, n / 10);
    }
    out.append(digit_text(n % 10));
    proof {
        if n >= 10 {
            assert(decimal(n as nat) == decimal((n / 10) as nat).push(digit_char((n % 10) as nat)));
        }
    }
    assert(final(out)@ =~= old(out)@ + decimal(n as nat));
}

/// `n` in decimal.
pub fn decimal_string(n: u64) -> (s: String)
    ensures
        s@ == decimal(n as nat),
{
    let mut s = String::new();
    push_decimal(&mut s, n);
    assert(s@ =~= decimal(n as nat));
    s
}

fn field(key: &str, value: String) -> (f: ReportField)
    ensures
        f.key@ == key@,
        f.value@ == value@,
{
    ReportField { key: String::from_str(key), value }
}

fn with_suffix(mut text: String, suffix: &str) -> (s: String)
    ensures
        s@ == text@ + suffix@,
{
    text.append(suffix);
    text
}

/// Lays out the report of a run (see `report_spec`).
pub fn benchmark_report(s: &BenchSummary, t: ReportText) -> (r: Vec<ReportSection>)
    ensures
        report_view(r@) == report_spec(*s, t),
{
    let ghost t0 = t;
    let ReportText {
        system,
        renderer,
        target_fps,
        density,
        avg_fps,
        peak_fps,
        avg_frame_time,
        p99_frame_time,
        draw_ratio,
        dirty_share,
        full_redraw_ratio,
        elapsed,
    } = t;
    let mut config: Vec<ReportField> = Vec::new();
    config.push(field("cols", decimal_string(s.cols as u64)));
    config.push(field("lines", decimal_string(s.lines as u64)));
    config.push(field("target_fps", target_fps));
    config.push(field("density", density));
    let mut performance: Vec<ReportField> = Vec::new();
    performance.push(field("avg_fps", avg_fps));
    performance.push(field("peak_fps", peak_fps));
    performance.push(field("avg_frame_time", with_suffix(avg_frame_time, "ms")));
    performance.push(field("p99_frame_time", with_suffix(p99_frame_time, "ms")));
    performance.push(field("frame_jitter", String::from_str(s.jitter.label())));
    performance.push(field("draw_ratio", with_suffix(draw_ratio, "%")));
    let mut dirty = decimal_string(s.avg_dirty_cells);
    dirty.append(" (");
    dirty.append(dirty_share.as_str());
    dirty.append("%)");
    performance.push(field("avg_dirty_cells", dirty));
    performance.push(field("full_redraw_ratio", with_suffix(full_redraw_ratio, "%")));
    let mut throughput: Vec<ReportField> = Vec::new();
    throughput.push(field("glyphs_per_second", decimal_string(s.glyphs_per_second)));
    throughput.push(field("ansi_bytes_per_second", decimal_string(s.ansi_bytes_per_second)));
    throughput.push(field("active_streams_avg", decimal_string(s.active_streams_avg)));
    let mut timing: Vec<ReportField> = Vec::new();
    timing.push(field("elapsed", with_suffix(elapsed, "s")));
    timing.push(field("total_frames", decimal_string(s.total_frames)));
    timing.push(field("drawn_frames", decimal_string(s.drawn_frames)));

    let ghost config_v = config@;
    let ghost performance_v = performance@;
    let ghost throughput_v = throughput@;
    let ghost timing_v = timing@;
    let ghost system_v = system@;
    let ghost renderer_v = renderer@;
    let mut r: Vec<ReportSection> = Vec::new();
    r.push(ReportSection { title: String::from_str("SYSTEM"), fields: system });
    r.push(ReportSection { title: String::from_str("RENDERER"), fields: renderer });
    r.push(ReportSection { title: String::from_str("CONFIG"), fields: config });
    r.push(ReportSection { title: String::from_str("PERFORMANCE"), fields: performance });
    r.push(ReportSection { title: String::from_str("THROUGHPUT"), fields: throughput });
    r.push(ReportSection { title: String::from_str("TIMING"), fields: timing });
    let ghost spec = report_spec(*s, t0);
    assert(fields_view(config_v) =~= spec[2].1);
    assert(fields_view(performance_v) =~= spec[3].1);
    assert(fields_view(throughput_v) =~= spec[4].1);
    assert(fields_view(timing_v) =~= spec[5].1);
    assert(report_view(r@) =~= spec);
    r
}

} // verus!
