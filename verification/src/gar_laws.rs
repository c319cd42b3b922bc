//! What the workbook on a recording shows, cell by cell: which number stands
//! under which label.
use vstd::prelude::*;
use crate::gar::{
    CellPlan, Metric, ReportRow, Value, advanced_cells, gpt_cells, labelled,
    law_least_memory_is_the_minimum, power_lines, processor_labels, processor_values, raw_cells,
    raw_labels, report_cells, report_row_cells, report_rows, sample_cells, sample_values, shown,
    start_of, summary_cells, task_labels, text_row, thread_cells, thread_values, vertical_lines,
};
use crate::local_linux_record::{LinuxHostSample, LinuxThreadSummary};

verus! {

/// The numbers that are averaged are the samples' own: each metric has the
/// field that it is named after, of every sample.
pub proof fn law_metrics_average_their_own_field(s: LinuxHostSample<String>)
    ensures
        Metric::Cpu.literal(s@) == s.cpu_usage_pct@,
        Metric::Mips.literal(s@) == s.total_mips@,
        Metric::Cpi.literal(s@) == s.cpi@,
        Metric::CacheMissRate.literal(s@) == s.cache_miss_rate_pct@,
        Metric::BranchMissRate.literal(s@) == s.branch_miss_rate_pct@,
{
}

/// A cell that says `value` in a row and a column.
pub open spec fn cell(row: int, col: int, value: Value<Seq<char>>) -> CellPlan<Seq<char>> {
    CellPlan { row: row as u32, col: col as u32, value }
}

// ---------------------------------------------------------------------------
// Samples
// ---------------------------------------------------------------------------

proof fn lemma_sample_width(s: LinuxHostSample<String>, start: u64)
    ensures
        sample_values(s, start).len() == 54,
{
}

proof fn lemma_sample_cells(samples: Seq<LinuxHostSample<String>>, n: int, i: int, j: int)
    requires
        0 <= i < n <= samples.len(),
        0 <= j < 54,
        samples.len() < u32::MAX - 1,
    ensures
        sample_cells(samples, n).len() == 54 * n,
        sample_cells(samples, n)[54 * i + j] == cell(
            i + 2,
            j + 1,
            sample_values(samples[i], start_of(samples))[j],
        ),
    decreases n,
{
    lemma_sample_width(samples[n - 1], start_of(samples));
    lemma_sample_count(samples, n - 1);
    if i < n - 1 {
        lemma_sample_cells(samples, n - 1, i, j);
    }
}

proof fn lemma_sample_count(samples: Seq<LinuxHostSample<String>>, n: int)
    requires
        0 <= n <= samples.len(),
    ensures
        sample_cells(samples, n).len() == 54 * n,
    decreases n,
{
    if n > 0 {
        lemma_sample_width(samples[n - 1], start_of(samples));
        lemma_sample_count(samples, n - 1);
    }
}

/// The titles of the samples' columns.
pub proof fn law_samples_stand_under_their_titles(samples: Seq<LinuxHostSample<String>>)
    requires
        samples.len() < u32::MAX - 1,
    ensures
        raw_cells(samples).len() == 54 * (samples.len() + 1),
        raw_cells(samples)[0] == cell(1, 1, Value::Text("timestamp_ms"@)),
        raw_cells(samples)[1] == cell(1, 2, Value::Text("elapsed_s"@)),
        raw_cells(samples)[2] == cell(1, 3, Value::Text("fps_dequeue"@)),
        raw_cells(samples)[3] == cell(1, 4, Value::Text("fps_queue"@)),
        raw_cells(samples)[4] == cell(1, 5, Value::Text("fps_present_fence"@)),
        raw_cells(samples)[5] == cell(1, 6, Value::Text("cpu0_loading_pct"@)),
        raw_cells(samples)[6] == cell(1, 7, Value::Text("cpu1_loading_pct"@)),
        raw_cells(samples)[7] == cell(1, 8, Value::Text("cpu2_loading_pct"@)),
        raw_cells(samples)[8] == cell(1, 9, Value::Text("cpu3_loading_pct"@)),
        raw_cells(samples)[9] == cell(1, 10, Value::Text("cpu4_loading_pct"@)),
        raw_cells(samples)[10] == cell(1, 11, Value::Text("cpu5_loading_pct"@)),
        raw_cells(samples)[11] == cell(1, 12, Value::Text("cpu6_loading_pct"@)),
        raw_cells(samples)[12] == cell(1, 13, Value::Text("cpu7_loading_pct"@)),
        raw_cells(samples)[13] == cell(1, 14, Value::Text("cpu0_freq_mhz"@)),
        raw_cells(samples)[14] == cell(1, 15, Value::Text("cpu1_freq_mhz"@)),
        raw_cells(samples)[15] == cell(1, 16, Value::Text("cpu2_freq_mhz"@)),
        raw_cells(samples)[16] == cell(1, 17, Value::Text("cpu3_freq_mhz"@)),
        raw_cells(samples)[17] == cell(1, 18, Value::Text("cpu4_freq_mhz"@)),
        raw_cells(samples)[18] == cell(1, 19, Value::Text("cpu5_freq_mhz"@)),
        raw_cells(samples)[19] == cell(1, 20, Value::Text("cpu6_freq_mhz"@)),
        raw_cells(samples)[20] == cell(1, 21, Value::Text("cpu7_freq_mhz"@)),
        raw_cells(samples)[21] == cell(1, 22, Value::Text("power_mw"@)),
        raw_cells(samples)[22] == cell(1, 23, Value::Text("power_avg_mw"@)),
        raw_cells(samples)[23] == cell(1, 24, Value::Text("power_ma"@)),
        raw_cells(samples)[24] == cell(1, 25, Value::Text("voltage_v"@)),
        raw_cells(samples)[25] == cell(1, 26, Value::Text("board_temp_c"@)),
        raw_cells(samples)[26] == cell(1, 27, Value::Text("battery_temp_c"@)),
        raw_cells(samples)[27] == cell(1, 28, Value::Text("gpu_freq_mhz"@)),
        raw_cells(samples)[28] == cell(1, 29, Value::Text("gpu_loading_pct"@)),
        raw_cells(samples)[29] == cell(1, 30, Value::Text("total_mips"@)),
        raw_cells(samples)[30] == cell(1, 31, Value::Text("game_mips"@)),
        raw_cells(samples)[31] == cell(1, 32, Value::Text("logical_mips"@)),
        raw_cells(samples)[32] == cell(1, 33, Value::Text("render_mips"@)),
        raw_cells(samples)[33] == cell(1, 34, Value::Text("rhi_mips"@)),
        raw_cells(samples)[34] == cell(1, 35, Value::Text("dsu_freq_mhz"@)),
        raw_cells(samples)[35] == cell(1, 36, Value::Text("dram_freq_mhz"@)),
        raw_cells(samples)[36] == cell(1, 37, Value::Text("vcore_v"@)),
        raw_cells(samples)[37] == cell(1, 38, Value::Text("wss_kb"@)),
        raw_cells(samples)[38] == cell(1, 39, Value::Text("pss_kb"@)),
        raw_cells(samples)[39] == cell(1, 40, Value::Text("cpu_time_ms"@)),
        raw_cells(samples)[40] == cell(1, 41, Value::Text("gpu_time_ms"@)),
        raw_cells(samples)[41] == cell(1, 42, Value::Text("process_name"@)),
        raw_cells(samples)[42] == cell(1, 43, Value::Text("mem_total_kb"@)),
        raw_cells(samples)[43] == cell(1, 44, Value::Text("mem_available_kb"@)),
        raw_cells(samples)[44] == cell(1, 45, Value::Text("top_app_rss_kb"@)),
        raw_cells(samples)[45] == cell(1, 46, Value::Text("total_mips"@)),
        raw_cells(samples)[46] == cell(1, 47, Value::Text("total_mcps"@)),
        raw_cells(samples)[47] == cell(1, 48, Value::Text("cpi"@)),
        raw_cells(samples)[48] == cell(1, 49, Value::Text("cache_references_per_sec"@)),
        raw_cells(samples)[49] == cell(1, 50, Value::Text("cache_misses_per_sec"@)),
        raw_cells(samples)[50] == cell(1, 51, Value::Text("cache_miss_rate_pct"@)),
        raw_cells(samples)[51] == cell(1, 52, Value::Text("branch_instructions_per_sec"@)),
        raw_cells(samples)[52] == cell(1, 53, Value::Text("branch_misses_per_sec"@)),
        raw_cells(samples)[53] == cell(1, 54, Value::Text("branch_miss_rate_pct"@)),
{
    lemma_sample_count(samples, samples.len() as int);
    assert(raw_labels().len() == 54);
}

/// Every sample has a row, in order, from the second row on: its time, the
/// seconds since the first sample, its load under each of eight processors,
/// nothing under what a local machine does not measure, and behind that each
/// of its own numbers under the title that names it.
pub proof fn law_samples_are_shown_whole(samples: Seq<LinuxHostSample<String>>, i: int, j: int)
    requires
        0 <= i < samples.len(),
        samples.len() < u32::MAX - 1,
    ensures
        ({
            let s = samples[i];
            let at = 54 * (i + 1);
            let cells = raw_cells(samples);
            let row = i + 2;
            &&& cells.len() == 54 * (samples.len() + 1)
            &&& cells[at] == cell(row, 1, Value::Whole(s.timestamp_ms))
            &&& cells[at + 1].row == row && cells[at + 1].col == 2
            &&& cells[at + 1].value is Seconds
            &&& s.timestamp_ms >= samples[0].timestamp_ms ==> cells[at + 1].value->Seconds_0
                == s.timestamp_ms - samples[0].timestamp_ms
            &&& s.timestamp_ms < samples[0].timestamp_ms ==> cells[at + 1].value->Seconds_0 == 0
            &&& 2 <= j < 5 || 13 <= j < 41 ==> cells[at + j] == cell(row, j + 1, Value::Whole(0))
            &&& 5 <= j < 13 ==> cells[at + j] == cell(
                row,
                j + 1,
                Value::Literal(s.cpu_usage_pct@),
            )
            &&& cells[at + 41] == cell(row, 42, Value::Text(s.process_name@))
            &&& cells[at + 42] == cell(row, 43, Value::Whole(s.mem_total_kb))
            &&& cells[at + 43] == cell(row, 44, Value::Whole(s.mem_available_kb))
            &&& cells[at + 44] == cell(row, 45, Value::Whole(s.top_app_rss_kb))
            &&& cells[at + 45] == cell(row, 46, Value::Literal(s.total_mips@))
            &&& cells[at + 46] == cell(row, 47, Value::Literal(s.total_mcps@))
            &&& cells[at + 47] == cell(row, 48, Value::Literal(s.cpi@))
            &&& cells[at + 48] == cell(row, 49, Value::Literal(s.cache_references_per_sec@))
            &&& cells[at + 49] == cell(row, 50, Value::Literal(s.cache_misses_per_sec@))
            &&& cells[at + 50] == cell(row, 51, Value::Literal(s.cache_miss_rate_pct@))
            &&& cells[at + 51] == cell(row, 52, Value::Literal(s.branch_instructions_per_sec@))
            &&& cells[at + 52] == cell(row, 53, Value::Literal(s.branch_misses_per_sec@))
            &&& cells[at + 53] == cell(row, 54, Value::Literal(s.branch_miss_rate_pct@))
        }),
{
    let n = samples.len() as int;
    let s = samples[i];
    let v = sample_values(s, start_of(samples));
    assert(raw_labels().len() == 54);
    lemma_sample_width(s, start_of(samples));
    lemma_sample_count(samples, n);
    lemma_shown_at(samples, i, 0);
    lemma_shown_at(samples, i, 1);
    if 0 <= j < 54 {
        lemma_shown_at(samples, i, j);
    }
    assert(v[0] == Value::<Seq<char>>::Whole(s.timestamp_ms));
    lemma_shown_at(samples, i, 41);
    lemma_shown_at(samples, i, 42);
    lemma_shown_at(samples, i, 43);
    lemma_shown_at(samples, i, 44);
    lemma_shown_at(samples, i, 45);
    lemma_shown_at(samples, i, 46);
    lemma_shown_at(samples, i, 47);
    lemma_shown_at(samples, i, 48);
    lemma_shown_at(samples, i, 49);
    lemma_shown_at(samples, i, 50);
    lemma_shown_at(samples, i, 51);
    lemma_shown_at(samples, i, 52);
    lemma_shown_at(samples, i, 53);
}

proof fn lemma_shown_at(samples: Seq<LinuxHostSample<String>>, i: int, j: int)
    requires
        0 <= i < samples.len(),
        0 <= j < 54,
        samples.len() < u32::MAX - 1,
    ensures
        raw_cells(samples)[54 * (i + 1) + j] == cell(
            i + 2,
            j + 1,
            sample_values(samples[i], start_of(samples))[j],
        ),
{
    lemma_sample_cells(samples, samples.len() as int, i, j);
    assert(raw_labels().len() == 54);
    let head = text_row(1, raw_labels());
    assert(head.len() == 54);
    assert(raw_cells(samples)[54 * (i + 1) + j] == sample_cells(
        samples,
        samples.len() as int,
    )[54 * i + j]);
}

// ---------------------------------------------------------------------------
// Threads
// ---------------------------------------------------------------------------

proof fn lemma_thread_cells(
    threads: Seq<LinuxThreadSummary<String, String>>,
    n: int,
    i: int,
    j: int,
)
    requires
        0 <= i < n <= threads.len(),
        n <= 20,
        0 <= j < 11,
    ensures
        thread_cells(threads, n).len() == 11 * n,
        thread_cells(threads, n)[11 * i + j] == cell(23 + i, j + 1, thread_values(threads[i])[j]),
    decreases n,
{
    lemma_thread_count(threads, n - 1);
    if i < n - 1 {
        lemma_thread_cells(threads, n - 1, i, j);
    }
}

proof fn lemma_thread_count(threads: Seq<LinuxThreadSummary<String, String>>, n: int)
    requires
        0 <= n <= threads.len(),
    ensures
        thread_cells(threads, n).len() == 11 * n,
    decreases n,
{
    if n > 0 {
        lemma_thread_count(threads, n - 1);
    }
}

proof fn lemma_summary_parts(threads: Seq<LinuxThreadSummary<String, String>>, k: int)
    ensures
        ({
            let cells = summary_cells(threads);
            let shown_threads = thread_cells(threads, shown(threads.len()));
            &&& cells.len() == 87 + shown_threads.len()
            &&& 0 <= k < shown_threads.len() ==> cells[87 + k] == shown_threads[k]
            &&& 0 <= k < 17 ==> cells[16 + k] == cell(5, k + 1, Value::Text(processor_labels()[k]))
            &&& 0 <= k < 17 ==> cells[33 + k] == cell(6, k + 1, processor_values()[k])
            &&& 0 <= k < 11 ==> cells[76 + k] == cell(22, k + 1, Value::Text(task_labels()[k]))
        }),
{
    assert(processor_values().len() == 17);
}

/// The first twenty threads have a row each, in order, from the twenty-third
/// row on, with each of their numbers under its title; no more are shown.
pub proof fn law_threads_are_shown_under_their_titles(
    threads: Seq<LinuxThreadSummary<String, String>>,
    i: int,
)
    ensures
        ({
            let cells = summary_cells(threads);
            &&& cells.len() == 87 + 11 * if threads.len() < 20 { threads.len() as int } else { 20 }
            &&& cells[76] == cell(22, 1, Value::Text("pid"@))
            &&& cells[77] == cell(22, 2, Value::Text("tgid"@))
            &&& cells[78] == cell(22, 3, Value::Text("name"@))
            &&& cells[79] == cell(22, 4, Value::Text("Loading(%)"@))
            &&& cells[80] == cell(22, 5, Value::Text("C0(%)"@))
            &&& cells[81] == cell(22, 6, Value::Text("C1(%)"@))
            &&& cells[82] == cell(22, 7, Value::Text("C2(%)"@))
            &&& cells[83] == cell(22, 8, Value::Text("runnable(%)"@))
            &&& cells[84] == cell(22, 9, Value::Text("MIPS"@))
            &&& cells[85] == cell(22, 10, Value::Text("MCPS"@))
            &&& cells[86] == cell(22, 11, Value::Text("CPI"@))
            &&& 0 <= i < threads.len() && i < 20 ==> ({
                let t = threads[i];
                let at = 87 + 11 * i;
                let row = 23 + i;
                &&& cells[at + 0] == cell(row, 1, Value::Signed(t.pid))
                &&& cells[at + 1] == cell(row, 2, Value::Signed(t.tgid))
                &&& cells[at + 2] == cell(row, 3, Value::Text(t.name@))
                &&& cells[at + 3] == cell(row, 4, Value::Rounded(t.loading_pct@))
                &&& cells[at + 4] == cell(row, 5, Value::Rounded(t.c0_pct@))
                &&& cells[at + 5] == cell(row, 6, Value::Rounded(t.c1_pct@))
                &&& cells[at + 6] == cell(row, 7, Value::Rounded(t.c2_pct@))
                &&& cells[at + 7] == cell(row, 8, Value::Rounded(t.runnable_pct@))
                &&& cells[at + 8] == cell(row, 9, Value::Rounded(t.mips@))
                &&& cells[at + 9] == cell(row, 10, Value::Rounded(t.mcps@))
                &&& cells[at + 10] == cell(row, 11, Value::Rounded(t.cpi@))
            })
        }),
{
    let n = shown(threads.len());
    lemma_thread_count(threads, n);
    lemma_summary_parts(threads, 0);
    lemma_summary_parts(threads, 1);
    lemma_summary_parts(threads, 2);
    lemma_summary_parts(threads, 3);
    lemma_summary_parts(threads, 4);
    lemma_summary_parts(threads, 5);
    lemma_summary_parts(threads, 6);
    lemma_summary_parts(threads, 7);
    lemma_summary_parts(threads, 8);
    lemma_summary_parts(threads, 9);
    lemma_summary_parts(threads, 10);
    if 0 <= i < n {
        lemma_thread_cells(threads, n, i, 0);
        lemma_summary_parts(threads, 11 * i + 0);
        lemma_thread_cells(threads, n, i, 1);
        lemma_summary_parts(threads, 11 * i + 1);
        lemma_thread_cells(threads, n, i, 2);
        lemma_summary_parts(threads, 11 * i + 2);
        lemma_thread_cells(threads, n, i, 3);
        lemma_summary_parts(threads, 11 * i + 3);
        lemma_thread_cells(threads, n, i, 4);
        lemma_summary_parts(threads, 11 * i + 4);
        lemma_thread_cells(threads, n, i, 5);
        lemma_summary_parts(threads, 11 * i + 5);
        lemma_thread_cells(threads, n, i, 6);
        lemma_summary_parts(threads, 11 * i + 6);
        lemma_thread_cells(threads, n, i, 7);
        lemma_summary_parts(threads, 11 * i + 7);
        lemma_thread_cells(threads, n, i, 8);
        lemma_summary_parts(threads, 11 * i + 8);
        lemma_thread_cells(threads, n, i, 9);
        lemma_summary_parts(threads, 11 * i + 9);
        lemma_thread_cells(threads, n, i, 10);
        lemma_summary_parts(threads, 11 * i + 10);
    }
}

/// The load of the processors stands under each of the three titles that
/// speak of it, and the rate of instructions where the host's mean rate is
/// shown; every other number of that row is zero.
pub proof fn law_processors_show_load_and_instructions(
    threads: Seq<LinuxThreadSummary<String, String>>,
    k: int,
)
    requires
        0 <= k < 17,
    ensures
        ({
            let cells = summary_cells(threads);
            &&& cells[18] == cell(5, 3, Value::Text("CPU C0 Loading"@))
            &&& cells[21] == cell(5, 6, Value::Text("CPU C1 Loading"@))
            &&& cells[24] == cell(5, 9, Value::Text("CPU C2 Loading"@))
            &&& cells[33 + k] == cell(
                6,
                k + 1,
                if k == 2 || k == 5 || k == 8 {
                    Value::Metric(Metric::Cpu)
                } else if k == 9 || k == 11 {
                    Value::Metric(Metric::Mips)
                } else {
                    Value::Whole(0)
                },
            )
        }),
{
    lemma_summary_parts(threads, 2);
    lemma_summary_parts(threads, 5);
    lemma_summary_parts(threads, 8);
    lemma_summary_parts(threads, k);
}

// ---------------------------------------------------------------------------
// The report
// ---------------------------------------------------------------------------

/// Whether some cell is the given one.
pub open spec fn written(cells: Seq<CellPlan<Seq<char>>>, c: CellPlan<Seq<char>>) -> bool {
    exists|k: int| 0 <= k < cells.len() && #[trigger] cells[k] == c
}

proof fn lemma_report_keeps(
    rows: Seq<ReportRow<Seq<char>>>,
    m: int,
    n: int,
    c: CellPlan<Seq<char>>,
)
    requires
        0 <= m <= n,
        written(report_cells(rows, m), c),
    ensures
        written(report_cells(rows, n), c),
    decreases n - m,
{
    if m < n {
        lemma_report_keeps(rows, m, n - 1, c);
        let before = report_cells(rows, n - 1);
        let k = choose|k: int| 0 <= k < before.len() && #[trigger] before[k] == c;
        assert(report_cells(rows, n)[k] == c);
    }
}

/// Each row of the report stands two below its place in the list: its key in
/// the second column, its value, where it has one, in the third, and its
/// category, where one begins, in the first.
pub proof fn law_report_rows_are_written_in_order(
    rows: Seq<ReportRow<Seq<char>>>,
    n: int,
    i: int,
)
    requires
        0 <= i < n <= rows.len(),
        rows.len() < u32::MAX - 1,
    ensures
        written(report_cells(rows, n), cell(i + 2, 2, Value::Text(rows[i].key))),
        rows[i].value matches Some(v) ==> written(report_cells(rows, n), cell(i + 2, 3, v)),
        rows[i].category.len() > 0 ==> written(
            report_cells(rows, n),
            cell(i + 2, 1, Value::Text(rows[i].category)),
        ),
{
    let before = report_cells(rows, i);
    let here = report_row_cells((i + 2) as u32, rows[i]);
    let now = report_cells(rows, i + 1);
    assert(now =~= before + here);
    let k: int = if rows[i].category.len() == 0 { 0 } else { 1 };
    assert(now[before.len() + k] == here[k]);
    assert(here[k] == cell(i + 2, 2, Value::Text(rows[i].key)));
    lemma_report_keeps(rows, i + 1, n, cell(i + 2, 2, Value::Text(rows[i].key)));
    if rows[i].category.len() > 0 {
        assert(now[before.len() as int] == here[0]);
        lemma_report_keeps(rows, i + 1, n, cell(i + 2, 1, Value::Text(rows[i].category)));
    }
    if rows[i].value is Some {
        let v = rows[i].value->Some_0;
        assert(now[before.len() + k + 1] == here[k + 1]);
        lemma_report_keeps(rows, i + 1, n, cell(i + 2, 3, v));
    }
}

/// What a row of the report shows: a rate of instructions without decimals, a
/// load with one and a percent sign, cycles for an instruction with two, and
/// a miss rate with two and a percent sign, each the mean of the metric that
/// its key names.
pub proof fn law_report_keys_show_their_metrics(i: int)
    ensures
        ({
            let rows = report_rows();
            let mips = Some(
                Value::<Seq<char>>::MetricText {
                    metric: Metric::Mips,
                    decimals: 0,
                    percent: false,
                },
            );
            let load = Some(
                Value::<Seq<char>>::MetricText { metric: Metric::Cpu, decimals: 1, percent: true },
            );
            &&& rows.len() == 34
            &&& rows[3].key == "Total MIPS"@ && rows[3].value == mips
            &&& rows[4].key == "Game MIPS"@ && rows[4].value == mips
            &&& rows[7].key == "System MIPS"@ && rows[7].value == mips
            &&& rows[18].key == "Avg. BCPU Usage (%)"@ && rows[18].value == load
            &&& rows[20].key == "Avg. MCPU Usage (%)"@ && rows[20].value == load
            &&& rows[22].key == "Avg. LCPU Usage (%)"@ && rows[22].value == load
            &&& rows[27].key == "Linux PMU CPI"@ && rows[27].value == Some(
                Value::<Seq<char>>::MetricText {
                    metric: Metric::Cpi,
                    decimals: 2,
                    percent: false,
                },
            )
            &&& rows[28].key == "Linux PMU Cache Miss Rate"@ && rows[28].value == Some(
                Value::<Seq<char>>::MetricText {
                    metric: Metric::CacheMissRate,
                    decimals: 2,
                    percent: true,
                },
            )
            &&& rows[29].key == "Linux PMU Branch Miss Rate"@ && rows[29].value == Some(
                Value::<Seq<char>>::MetricText {
                    metric: Metric::BranchMissRate,
                    decimals: 2,
                    percent: true,
                },
            )
            &&& 0 <= i < 34 && rows[i].value is Some && rows[i].value->Some_0 is MetricText ==> i
                == 3 || i == 4 || i == 7 || i == 18 || i == 20 || i == 22 || i == 27 || i == 28
                || i == 29
        }),
{
}

proof fn lemma_labelled(v: Seq<(Seq<char>, Value<Seq<char>>)>, k: int)
    requires
        0 <= k < v.len() < u32::MAX,
    ensures
        labelled(v).len() == 2 * v.len(),
        labelled(v)[2 * k] == cell(k + 1, 1, Value::Text(v[k].0)),
        labelled(v)[2 * k + 1] == cell(k + 1, 2, v[k].1),
    decreases v.len(),
{
    let init = v.drop_last();
    if init.len() > 0 {
        lemma_labelled(init, if k < init.len() { k } else { 0 });
    } else {
        assert(labelled(init).len() == 0);
    }
    if k < init.len() {
        assert(init[k] == v[k]);
        assert(labelled(v)[2 * k] == labelled(init)[2 * k]);
        assert(labelled(v)[2 * k + 1] == labelled(init)[2 * k + 1]);
    }
}

/// The short summary of a recording: how many samples there are, the mean
/// load, the least free memory of any sample, the mean rate of instructions
/// and the mean cycles for one, each beside its name.
pub proof fn law_the_short_summary_names_its_numbers(
    samples: Seq<LinuxHostSample<String>>,
    i: int,
)
    requires
        0 <= i < samples.len() <= u64::MAX,
    ensures
        ({
            let cells = labelled(vertical_lines(samples));
            &&& cells.len() == 12
            &&& cells[0] == cell(1, 1, Value::Text("Metric"@))
            &&& cells[1] == cell(1, 2, Value::Text("Value"@))
            &&& cells[2] == cell(2, 1, Value::Text("Samples"@))
            &&& cells[3].row == 2 && cells[3].col == 2 && cells[3].value is Whole
            &&& cells[3].value->Whole_0 == samples.len()
            &&& cells[4] == cell(3, 1, Value::Text("CPU Avg (%)"@))
            &&& cells[5] == cell(3, 2, Value::Metric(Metric::Cpu))
            &&& cells[6] == cell(4, 1, Value::Text("Memory Available Min (KB)"@))
            &&& cells[7].row == 4 && cells[7].col == 2 && cells[7].value is Whole
            &&& cells[7].value->Whole_0 <= samples[i].mem_available_kb
            &&& exists|k: int|
                0 <= k < samples.len() && (#[trigger] samples[k]).mem_available_kb
                    == cells[7].value->Whole_0
            &&& cells[8] == cell(5, 1, Value::Text("MIPS Avg"@))
            &&& cells[9] == cell(5, 2, Value::Metric(Metric::Mips))
            &&& cells[10] == cell(6, 1, Value::Text("CPI Avg"@))
            &&& cells[11] == cell(6, 2, Value::Metric(Metric::Cpi))
        }),
{
    let v = vertical_lines(samples);
    assert(v.len() == 6);
    lemma_labelled(v, 0);
    lemma_labelled(v, 1);
    lemma_labelled(v, 2);
    lemma_labelled(v, 3);
    lemma_labelled(v, 4);
    lemma_labelled(v, 5);
    law_least_memory_is_the_minimum(samples, samples.len() as int);
}

/// The power sheet of a host that measures no power says so, and shows the
/// mean load and the mean rate of instructions; the sheet in words shows how
/// many samples there are.
pub proof fn law_the_power_sheet_says_there_is_none(count: u64)
    ensures
        ({
            let cells = labelled(power_lines());
            &&& cells.len() == 8
            &&& cells[2] == cell(2, 1, Value::Text("Power source"@))
            &&& cells[3] == cell(2, 2, Value::Text("Unavailable on Linux host local mode"@))
            &&& cells[4] == cell(3, 1, Value::Text("CPU Avg (%)"@))
            &&& cells[5] == cell(3, 2, Value::Metric(Metric::Cpu))
            &&& cells[6] == cell(4, 1, Value::Text("MIPS Avg"@))
            &&& cells[7] == cell(4, 2, Value::Metric(Metric::Mips))
        }),
        gpt_cells(count)[1] == cell(2, 1, Value::Text("Samples"@)),
        gpt_cells(count)[2] == cell(2, 2, Value::Whole(count)),
{
    let v = power_lines();
    assert(v.len() == 4);
    lemma_labelled(v, 0);
    lemma_labelled(v, 1);
    lemma_labelled(v, 2);
    lemma_labelled(v, 3);
}

/// The titles of the summary, in their rows. Where a local host has no number
/// for a title, a zero stands under it.
pub proof fn law_the_summary_has_these_titles(
    threads: Seq<LinuxThreadSummary<String, String>>,
    k: int,
)
    ensures
        ({
            let cells = summary_cells(threads);
            &&& cells[0] == cell(2, 1, Value::Text("FPS Avg"@))
            &&& cells[1] == cell(2, 2, Value::Text("FPS Min"@))
            &&& cells[2] == cell(2, 3, Value::Text("FPS Target FPS"@))
            &&& cells[3] == cell(2, 4, Value::Text("Perf index All"@))
            &&& cells[4] == cell(2, 5, Value::Text("Perf index B"@))
            &&& cells[5] == cell(2, 6, Value::Text("Perf index M"@))
            &&& cells[6] == cell(2, 7, Value::Text("FPS CPU Time"@))
            &&& cells[7] == cell(2, 8, Value::Text("FPS GPU Time"@))
            &&& 0 <= k < 8 ==> cells[8 + k] == cell(3, k + 1, Value::Whole(0))
            &&& cells[16] == cell(5, 1, Value::Text("CPU C0 Freq"@))
            &&& cells[17] == cell(5, 2, Value::Text("CPU_MCUPM C0 Freq"@))
            &&& cells[18] == cell(5, 3, Value::Text("CPU C0 Loading"@))
            &&& cells[19] == cell(5, 4, Value::Text("CPU C1 Freq"@))
            &&& cells[20] == cell(5, 5, Value::Text("CPU_MCUPM C1 Freq"@))
            &&& cells[21] == cell(5, 6, Value::Text("CPU C1 Loading"@))
            &&& cells[22] == cell(5, 7, Value::Text("CPU C2 Freq"@))
            &&& cells[23] == cell(5, 8, Value::Text("CPU_MCUPM C2 Freq"@))
            &&& cells[24] == cell(5, 9, Value::Text("CPU C2 Loading"@))
            &&& cells[25] == cell(5, 10, Value::Text("GPU Freq"@))
            &&& cells[26] == cell(5, 11, Value::Text("GPU Urate"@))
            &&& cells[27] == cell(5, 12, Value::Text("Dram Freq"@))
            &&& cells[28] == cell(5, 13, Value::Text("DSU Freq(MHz)"@))
            &&& cells[29] == cell(5, 14, Value::Text("EMI Throughput BW Total"@))
            &&& cells[30] == cell(5, 15, Value::Text("EMI Throughput BW CPU"@))
            &&& cells[31] == cell(5, 16, Value::Text("EMI Throughput BW GPU"@))
            &&& cells[32] == cell(5, 17, Value::Text("EMI Throughput BW MM"@))
            &&& cells[50] == cell(8, 1, Value::Text("Expected Fpks"@))
            &&& cells[51] == cell(8, 2, Value::Text("Avg Frame Ctrl Timer Interval"@))
            &&& cells[52] == cell(8, 3, Value::Text("Is Pre-throttle"@))
            &&& cells[53] == cell(8, 4, Value::Text("Estimated CPU power (mA) (Beta)"@))
            &&& cells[54] == cell(8, 5, Value::Text("Estimated DSU power (mA) (Beta)"@))
            &&& cells[55] == cell(8, 6, Value::Text("Game MIPS"@))
            &&& cells[56] == cell(8, 7, Value::Text("System MIPS"@))
            &&& cells[57] == cell(8, 8, Value::Text("Total MIPS"@))
            &&& cells[58] == cell(8, 9, Value::Text("1% Low"@))
            &&& cells[59] == cell(8, 10, Value::Text("Board Temp Avg (C)"@))
            &&& cells[60] == cell(8, 11, Value::Text("Battery Temp Avg (C)"@))
            &&& cells[61] == cell(8, 12, Value::Text("Start Temp (C)"@))
            &&& cells[62] == cell(8, 13, Value::Text("End Temp (C)"@))
            &&& 0 <= k < 13 ==> cells[63 + k] == cell(9, k + 1, Value::Whole(0))
        }),
{
    assert(processor_values().len() == 17);
}

/// The keys of the report, in order, with the categories that they begin. A
/// text that stands for a number that a local host does not measure is zero,
/// and no value is shown where there is nothing to say.
pub proof fn law_the_report_has_these_keys()
    ensures
        ({
            let rows = report_rows();
            &&& rows[0].key == "Avg FPS"@
            &&& rows[0].category == "performance/power"@
            &&& rows[0].value == Some(Value::Text("0.00"@))
            &&& rows[1].key == "Avg Power (mA)"@
            &&& rows[1].category.len() == 0
            &&& rows[1].value == Some(Value::Text("0.00"@))
            &&& rows[2].key == "1% Low"@
            &&& rows[2].category.len() == 0
            &&& rows[2].value == Some(Value::Text("0.00"@))
            &&& rows[3].key == "Total MIPS"@
            &&& rows[3].category == "MIPS"@
            &&& rows[4].key == "Game MIPS"@
            &&& rows[4].category.len() == 0
            &&& rows[5].key == "- Logical MIPS"@
            &&& rows[5].category.len() == 0
            &&& rows[5].value is None
            &&& rows[6].key == "- Render MIPS"@
            &&& rows[6].category.len() == 0
            &&& rows[6].value is None
            &&& rows[7].key == "System MIPS"@
            &&& rows[7].category.len() == 0
            &&& rows[8].key == "Total EMI Thr. (MB/s)"@
            &&& rows[8].category == "BW"@
            &&& rows[8].value is None
            &&& rows[9].key == "CPU EMI Thr. (MB/s)"@
            &&& rows[9].category.len() == 0
            &&& rows[9].value is None
            &&& rows[10].key == "GPU EMI Thr. (MB/s)"@
            &&& rows[10].category.len() == 0
            &&& rows[10].value is None
            &&& rows[11].key == "Logical Thread CPU Usage (BCPU/MCPU)"@
            &&& rows[11].category == "Game Task Info"@
            &&& rows[11].value is None
            &&& rows[12].key == "Logical Loading"@
            &&& rows[12].category.len() == 0
            &&& rows[12].value is None
            &&& rows[13].key == "Logical CPI"@
            &&& rows[13].category.len() == 0
            &&& rows[13].value is None
            &&& rows[14].key == "Render Thread CPU Usage (BCPU/MCPU)"@
            &&& rows[14].category.len() == 0
            &&& rows[14].value is None
            &&& rows[15].key == "Render Loading"@
            &&& rows[15].category.len() == 0
            &&& rows[15].value is None
            &&& rows[16].key == "Render CPI"@
            &&& rows[16].category.len() == 0
            &&& rows[16].value is None
            &&& rows[17].key == "Avg. BCPU Freq. (MHz)"@
            &&& rows[17].category == "System Indices"@
            &&& rows[17].value == Some(Value::Text("0"@))
            &&& rows[18].key == "Avg. BCPU Usage (%)"@
            &&& rows[18].category.len() == 0
            &&& rows[19].key == "Avg. MCPU Freq. (MHz)"@
            &&& rows[19].category.len() == 0
            &&& rows[19].value == Some(Value::Text("0"@))
            &&& rows[20].key == "Avg. MCPU Usage (%)"@
            &&& rows[20].category.len() == 0
            &&& rows[21].key == "Avg. LCPU Freq. (MHz)"@
            &&& rows[21].category.len() == 0
            &&& rows[21].value == Some(Value::Text("0"@))
            &&& rows[22].key == "Avg. LCPU Usage (%)"@
            &&& rows[22].category.len() == 0
            &&& rows[23].key == "Avg. GPU Freq. (MHz)"@
            &&& rows[23].category.len() == 0
            &&& rows[23].value == Some(Value::Text("0"@))
            &&& rows[24].key == "GPU urate"@
            &&& rows[24].category.len() == 0
            &&& rows[24].value == Some(Value::Text("0.0%"@))
            &&& rows[25].key == "Avg. DSU Freq. (MHz)"@
            &&& rows[25].category.len() == 0
            &&& rows[25].value == Some(Value::Text("0"@))
            &&& rows[26].key == "Avg. DRAM Freq. (MHz)"@
            &&& rows[26].category.len() == 0
            &&& rows[26].value == Some(Value::Text("0"@))
            &&& rows[27].key == "Linux PMU CPI"@
            &&& rows[27].category.len() == 0
            &&& rows[28].key == "Linux PMU Cache Miss Rate"@
            &&& rows[28].category.len() == 0
            &&& rows[29].key == "Linux PMU Branch Miss Rate"@
            &&& rows[29].category.len() == 0
            &&& rows[30].key == "Board Temp Avg (C)"@
            &&& rows[30].category == "Temperature"@
            &&& rows[30].value == Some(Value::Text("0.0"@))
            &&& rows[31].key == "Battery Temp Avg (C)"@
            &&& rows[31].category.len() == 0
            &&& rows[31].value == Some(Value::Text("0.0"@))
            &&& rows[32].key == "Start Temp (C)"@
            &&& rows[32].category.len() == 0
            &&& rows[32].value == Some(Value::Text("0.0"@))
            &&& rows[33].key == "End Temp (C)"@
            &&& rows[33].category.len() == 0
            &&& rows[33].value == Some(Value::Text("0.0"@))
        }),
        advanced_cells()[0] == cell(1, 1, Value::Text("System Index*"@)),
        advanced_cells()[1] == cell(1, 2, Value::Text("Key Index"@)),
        advanced_cells()[2] == cell(1, 3, Value::Text("Linux Host Local"@)),
        forall|k: int|
            0 <= k < report_cells(report_rows(), 34).len() ==> #[trigger] advanced_cells()[3 + k]
                == report_cells(report_rows(), 34)[k],
{
    assert(report_rows().len() == 34);
}

/// The sheet in words says what was recorded, of how many samples, and what is
/// measured.
pub proof fn law_the_sheet_in_words_says_what_is_measured(count: u64)
    ensures
        gpt_cells(count).len() == 5,
        gpt_cells(count)[0] == cell(1, 1, Value::Text("Linux host local recording"@)),
        gpt_cells(count)[1] == cell(2, 1, Value::Text("Samples"@)),
        gpt_cells(count)[2] == cell(2, 2, Value::Whole(count)),
        gpt_cells(count)[3] == cell(3, 1, Value::Text("Available metrics"@)),
        gpt_cells(count)[4] == cell(
            3,
            2,
            Value::Text(
                "CPU usage, memory total/available, process RSS, Linux PMU MIPS/MCPS/CPI/cache/branch"@,
            ),
        ),
{
}

/// The mean load counts every sample; the other means leave out samples that
/// are not above zero.
pub proof fn law_only_the_load_counts_zeros()
    ensures
        !Metric::Cpu.above_zero_only(),
        Metric::Mips.above_zero_only(),
        Metric::Cpi.above_zero_only(),
        Metric::CacheMissRate.above_zero_only(),
        Metric::BranchMissRate.above_zero_only(),
{
}

} // verus!
