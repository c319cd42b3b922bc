//! The workbook that reports on a recording of the local machine, cell by
//! cell. What has to be averaged or rounded is named, and left to whoever
//! writes the workbook.
use vstd::prelude::*;
use crate::local_linux_record::{LinuxHostSample, LinuxThreadSummary};

verus! {

// ---------------------------------------------------------------------------
// Cells
// ---------------------------------------------------------------------------

/// A number that is made of all samples.
#[derive(Debug, Clone, Copy, PartialEq, Eq, Structural)]
pub enum Metric {
    /// The mean load of the processors.
    Cpu,
    /// The mean rate of instructions.
    Mips,
    /// The mean number of cycles for an instruction.
    Cpi,
    /// The mean rate of cache misses.
    CacheMissRate,
    /// The mean rate of branches that were predicted wrongly.
    BranchMissRate,
}

impl Metric {
    /// Whether samples that are not above zero are left out of the mean.
    pub open spec fn above_zero_only(self) -> bool {
        !(self is Cpu)
    }

    /// Whether samples that are not above zero are left out of the mean.
    pub fn leaves_zeros_out(&self) -> (r: bool)
        ensures
            r == self.above_zero_only(),
            r == (*self != Metric::Cpu),
    {
        !matches!(self, Metric::Cpu)
    }

    /// The literal of the number that a sample gives to the mean.
    pub open spec fn literal(self, s: LinuxHostSample<Seq<char>>) -> Seq<char> {
        match self {
            Metric::Cpu => s.cpu_usage_pct,
            Metric::Mips => s.total_mips,
            Metric::Cpi => s.cpi,
            Metric::CacheMissRate => s.cache_miss_rate_pct,
            Metric::BranchMissRate => s.branch_miss_rate_pct,
        }
    }

    /// The literals of the numbers that samples give to the mean.
    pub fn literals(&self, samples: &Vec<LinuxHostSample<String>>) -> (r: Vec<String>)
        ensures
            r@.len() == samples@.len(),
            forall|i: int| 0 <= i < r@.len() ==> (#[trigger] r@[i])@ == self.literal(samples@[i]@),
    {
        let mut r: Vec<String> = Vec::new();
        let mut i: usize = 0;
        while i < samples.len()
            invariant
                i <= samples@.len(),
                r@.len() == i,
                forall|j: int| 0 <= j < i ==> (#[trigger] r@[j])@ == self.literal(samples@[j]@),
            decreases samples.len() - i,
        {
            let s = &samples[i];
            let literal = match self {
                Metric::Cpu => s.cpu_usage_pct.clone(),
                Metric::Mips => s.total_mips.clone(),
                Metric::Cpi => s.cpi.clone(),
                Metric::CacheMissRate => s.cache_miss_rate_pct.clone(),
                Metric::BranchMissRate => s.branch_miss_rate_pct.clone(),
            };
            r.push(literal);
            i += 1;
        }
        r
    }
}

/// What stands in a cell. `S` is the type of its texts.
#[derive(Debug, Clone)]
pub enum Value<S> {
    /// A text.
    Text(S),
    /// A number that is whole.
    Whole(u64),
    /// A number that is whole and may be below zero.
    Signed(i32),
    /// The number that a literal stands for.
    Literal(S),
    /// The number that a literal stands for, rounded to two decimals.
    Rounded(S),
    /// A time in milliseconds, as a number of seconds.
    Seconds(u64),
    /// A number that is made of all samples.
    Metric(Metric),
    /// A number that is made of all samples, as a text with a fixed number of
    /// decimals and maybe a percent sign.
    MetricText { metric: Metric, decimals: usize, percent: bool },
}

impl View for Value<String> {
    type V = Value<Seq<char>>;

    open spec fn view(&self) -> Value<Seq<char>> {
        match self {
            Value::Text(s) => Value::Text(s@),
            Value::Whole(n) => Value::Whole(*n),
            Value::Signed(n) => Value::Signed(*n),
            Value::Literal(s) => Value::Literal(s@),
            Value::Rounded(s) => Value::Rounded(s@),
            Value::Seconds(n) => Value::Seconds(*n),
            Value::Metric(m) => Value::Metric(*m),
            Value::MetricText { metric, decimals, percent } => Value::MetricText {
                metric: *metric,
                decimals: *decimals,
                percent: *percent,
            },
        }
    }
}

/// A cell with what stands in it. `S` is the type of its texts. Rows and
/// columns are counted from one.
#[derive(Debug, Clone)]
pub struct CellPlan<S> {
    pub row: u32,
    pub col: u32,
    pub value: Value<S>,
}

impl View for CellPlan<String> {
    type V = CellPlan<Seq<char>>;

    open spec fn view(&self) -> CellPlan<Seq<char>> {
        CellPlan { row: self.row, col: self.col, value: self.value@ }
    }
}

/// The cells of a sheet.
pub open spec fn cell_views(v: Seq<CellPlan<String>>) -> Seq<CellPlan<Seq<char>>> {
    v.map_values(|c: CellPlan<String>| c@)
}

/// Values of cells.
pub open spec fn value_views(v: Seq<Value<String>>) -> Seq<Value<Seq<char>>> {
    v.map_values(|x: Value<String>| x@)
}

/// The texts of labels.
pub open spec fn labels(v: Seq<&'static str>) -> Seq<Seq<char>> {
    v.map_values(|s: &'static str| s@)
}

/// A row of texts, from the first column on.
pub open spec fn text_row(row: u32, v: Seq<Seq<char>>) -> Seq<CellPlan<Seq<char>>> {
    Seq::new(v.len(), |i: int| CellPlan { row, col: (i + 1) as u32, value: Value::Text(v[i]) })
}

/// A row of values, from the first column on.
pub open spec fn value_row(row: u32, v: Seq<Value<Seq<char>>>) -> Seq<CellPlan<Seq<char>>> {
    Seq::new(v.len(), |i: int| CellPlan { row, col: (i + 1) as u32, value: v[i] })
}

fn put(cells: &mut Vec<CellPlan<String>>, row: u32, col: u32, value: Value<String>)
    ensures
        cell_views(final(cells)@) == cell_views(old(cells)@).push(
            (CellPlan { row, col, value: value@ }),
        ),
{
    let cell = CellPlan { row, col, value };
    cells.push(cell);
    assert(cell_views(cells@) =~= cell_views(old(cells)@).push(cell@));
}

fn put_texts(cells: &mut Vec<CellPlan<String>>, row: u32, v: &Vec<&'static str>)
    requires
        v.len() < u32::MAX,
    ensures
        cell_views(final(cells)@) == cell_views(old(cells)@) + text_row(row, labels(v@)),
{
    let ghost before = cell_views(cells@);
    let ghost wanted = text_row(row, labels(v@));
    let mut i: usize = 0;
    assert(before + wanted.take(0) =~= before);
    while i < v.len()
        invariant
            v.len() < u32::MAX,
            i <= v.len(),
            wanted == text_row(row, labels(v@)),
            cell_views(cells@) == before + wanted.take(i as int),
        decreases v.len() - i,
    {
        put(cells, row, i as u32 + 1, Value::Text(v[i].to_string()));
        assert(before + wanted.take(i as int + 1) =~= (before + wanted.take(i as int)).push(
            wanted[i as int],
        ));
        i += 1;
    }
    assert(wanted.take(i as int) =~= wanted);
}

fn put_values(cells: &mut Vec<CellPlan<String>>, row: u32, v: &Vec<Value<String>>)
    requires
        v.len() < u32::MAX,
    ensures
        cell_views(final(cells)@) == cell_views(old(cells)@) + value_row(row, value_views(v@)),
{
    let ghost before = cell_views(cells@);
    let ghost wanted = value_row(row, value_views(v@));
    let mut i: usize = 0;
    assert(before + wanted.take(0) =~= before);
    while i < v.len()
        invariant
            v.len() < u32::MAX,
            i <= v.len(),
            wanted == value_row(row, value_views(v@)),
            cell_views(cells@) == before + wanted.take(i as int),
        decreases v.len() - i,
    {
        put(cells, row, i as u32 + 1, copy_value(&v[i]));
        assert(before + wanted.take(i as int + 1) =~= (before + wanted.take(i as int)).push(
            wanted[i as int],
        ));
        i += 1;
    }
    assert(wanted.take(i as int) =~= wanted);
}

fn copy_value(x: &Value<String>) -> (r: Value<String>)
    ensures
        r@ == x@,
{
    match x {
        Value::Text(s) => Value::Text(s.clone()),
        Value::Whole(n) => Value::Whole(*n),
        Value::Signed(n) => Value::Signed(*n),
        Value::Literal(s) => Value::Literal(s.clone()),
        Value::Rounded(s) => Value::Rounded(s.clone()),
        Value::Seconds(n) => Value::Seconds(*n),
        Value::Metric(m) => Value::Metric(*m),
        Value::MetricText { metric, decimals, percent } => Value::MetricText {
            metric: *metric,
            decimals: *decimals,
            percent: *percent,
        },
    }
}

/// Zeros.
pub open spec fn zeros(n: nat) -> Seq<Value<Seq<char>>> {
    Seq::new(n, |i: int| Value::Whole(0))
}

fn push_zeros(v: &mut Vec<Value<String>>, n: usize)
    ensures
        value_views(final(v)@) == value_views(old(v)@) + zeros(n as nat),
{
    let ghost before = value_views(v@);
    let mut i: usize = 0;
    assert(before + zeros(0) =~= before);
    while i < n
        invariant
            i <= n,
            value_views(v@) == before + zeros(i as nat),
        decreases n - i,
    {
        let ghost so_far = value_views(v@);
        v.push(Value::Whole(0));
        assert(value_views(v@) =~= so_far.push(Value::Whole(0)));
        assert(before + zeros(i as nat + 1) =~= so_far.push(Value::Whole(0)));
        i += 1;
    }
}

// ---------------------------------------------------------------------------
// The sheet "summary"
// ---------------------------------------------------------------------------

/// The labels of the frame rates.
pub open spec fn frame_labels() -> Seq<Seq<char>> {
    seq![
        "FPS Avg"@,
        "FPS Min"@,
        "FPS Target FPS"@,
        "Perf index All"@,
        "Perf index B"@,
        "Perf index M"@,
        "FPS CPU Time"@,
        "FPS GPU Time"@,
    ]
}

fn top_headers() -> (v: Vec<&'static str>)
    ensures
        labels(v@) == frame_labels(),
{
    let mut v: Vec<&'static str> = Vec::new();
    v.push("FPS Avg");
    v.push("FPS Min");
    v.push("FPS Target FPS");
    v.push("Perf index All");
    v.push("Perf index B");
    v.push("Perf index M");
    v.push("FPS CPU Time");
    v.push("FPS GPU Time");
    assert(labels(v@) =~= frame_labels());
    v
}

/// The labels of the processors.
pub open spec fn processor_labels() -> Seq<Seq<char>> {
    seq![
        "CPU C0 Freq"@,
        "CPU_MCUPM C0 Freq"@,
        "CPU C0 Loading"@,
        "CPU C1 Freq"@,
        "CPU_MCUPM C1 Freq"@,
        "CPU C1 Loading"@,
        "CPU C2 Freq"@,
        "CPU_MCUPM C2 Freq"@,
        "CPU C2 Loading"@,
        "GPU Freq"@,
        "GPU Urate"@,
        "Dram Freq"@,
        "DSU Freq(MHz)"@,
        "EMI Throughput BW Total"@,
        "EMI Throughput BW CPU"@,
        "EMI Throughput BW GPU"@,
        "EMI Throughput BW MM"@,
    ]
}

fn cpu_gpu_headers() -> (v: Vec<&'static str>)
    ensures
        labels(v@) == processor_labels(),
{
    let mut v: Vec<&'static str> = Vec::new();
    v.push("CPU C0 Freq");
    v.push("CPU_MCUPM C0 Freq");
    v.push("CPU C0 Loading");
    v.push("CPU C1 Freq");
    v.push("CPU_MCUPM C1 Freq");
    v.push("CPU C1 Loading");
    v.push("CPU C2 Freq");
    v.push("CPU_MCUPM C2 Freq");
    v.push("CPU C2 Loading");
    v.push("GPU Freq");
    v.push("GPU Urate");
    v.push("Dram Freq");
    v.push("DSU Freq(MHz)");
    v.push("EMI Throughput BW Total");
    v.push("EMI Throughput BW CPU");
    v.push("EMI Throughput BW GPU");
    v.push("EMI Throughput BW MM");
    assert(labels(v@) =~= processor_labels());
    v
}

/// The labels of further numbers.
pub open spec fn metric_labels() -> Seq<Seq<char>> {
    seq![
        "Expected Fpks"@,
        "Avg Frame Ctrl Timer Interval"@,
        "Is Pre-throttle"@,
        "Estimated CPU power (mA) (Beta)"@,
        "Estimated DSU power (mA) (Beta)"@,
        "Game MIPS"@,
        "System MIPS"@,
        "Total MIPS"@,
        "1% Low"@,
        "Board Temp Avg (C)"@,
        "Battery Temp Avg (C)"@,
        "Start Temp (C)"@,
        "End Temp (C)"@,
    ]
}

fn metric_headers() -> (v: Vec<&'static str>)
    ensures
        labels(v@) == metric_labels(),
{
    let mut v: Vec<&'static str> = Vec::new();
    v.push("Expected Fpks");
    v.push("Avg Frame Ctrl Timer Interval");
    v.push("Is Pre-throttle");
    v.push("Estimated CPU power (mA) (Beta)");
    v.push("Estimated DSU power (mA) (Beta)");
    v.push("Game MIPS");
    v.push("System MIPS");
    v.push("Total MIPS");
    v.push("1% Low");
    v.push("Board Temp Avg (C)");
    v.push("Battery Temp Avg (C)");
    v.push("Start Temp (C)");
    v.push("End Temp (C)");
    assert(labels(v@) =~= metric_labels());
    v
}

/// The labels of the threads.
pub open spec fn task_labels() -> Seq<Seq<char>> {
    seq![
        "pid"@,
        "tgid"@,
        "name"@,
        "Loading(%)"@,
        "C0(%)"@,
        "C1(%)"@,
        "C2(%)"@,
        "runnable(%)"@,
        "MIPS"@,
        "MCPS"@,
        "CPI"@,
    ]
}

fn task_headers() -> (v: Vec<&'static str>)
    ensures
        labels(v@) == task_labels(),
{
    let mut v: Vec<&'static str> = Vec::new();
    v.push("pid");
    v.push("tgid");
    v.push("name");
    v.push("Loading(%)");
    v.push("C0(%)");
    v.push("C1(%)");
    v.push("C2(%)");
    v.push("runnable(%)");
    v.push("MIPS");
    v.push("MCPS");
    v.push("CPI");
    assert(labels(v@) =~= task_labels());
    v
}

/// The numbers of the processors.
pub open spec fn processor_values() -> Seq<Value<Seq<char>>> {
    zeros(2) + seq![Value::Metric(Metric::Cpu)] + zeros(2) + seq![Value::Metric(Metric::Cpu)]
        + zeros(2) + seq![
        Value::Metric(Metric::Cpu),
        Value::Metric(Metric::Mips),
        Value::Whole(0),
        Value::Metric(Metric::Mips),
    ] + zeros(5)
}

fn push_metric(v: &mut Vec<Value<String>>, metric: Metric)
    ensures
        value_views(final(v)@) == value_views(old(v)@) + seq![Value::Metric(metric)],
{
    v.push(Value::Metric(metric));
    assert(value_views(v@) =~= value_views(old(v)@) + seq![Value::Metric(metric)]);
}

fn cpu_gpu_values() -> (v: Vec<Value<String>>)
    ensures
        value_views(v@) == processor_values(),
{
    let mut v: Vec<Value<String>> = Vec::new();
    push_zeros(&mut v, 2);
    push_metric(&mut v, Metric::Cpu);
    push_zeros(&mut v, 2);
    push_metric(&mut v, Metric::Cpu);
    push_zeros(&mut v, 2);
    push_metric(&mut v, Metric::Cpu);
    push_metric(&mut v, Metric::Mips);
    push_zeros(&mut v, 1);
    push_metric(&mut v, Metric::Mips);
    push_zeros(&mut v, 5);
    assert(value_views(v@) =~= processor_values());
    v
}

/// The row of a thread.
pub open spec fn thread_values(t: LinuxThreadSummary<String, String>) -> Seq<Value<Seq<char>>> {
    seq![
        Value::Signed(t.pid),
        Value::Signed(t.tgid),
        Value::Text(t.name@),
        Value::Rounded(t.loading_pct@),
        Value::Rounded(t.c0_pct@),
        Value::Rounded(t.c1_pct@),
        Value::Rounded(t.c2_pct@),
        Value::Rounded(t.runnable_pct@),
        Value::Rounded(t.mips@),
        Value::Rounded(t.mcps@),
        Value::Rounded(t.cpi@),
    ]
}

fn thread_row(t: &LinuxThreadSummary<String, String>) -> (v: Vec<Value<String>>)
    ensures
        value_views(v@) == thread_values(*t),
{
    let mut v: Vec<Value<String>> = Vec::new();
    v.push(Value::Signed(t.pid));
    v.push(Value::Signed(t.tgid));
    v.push(Value::Text(t.name.clone()));
    v.push(Value::Rounded(t.loading_pct.clone()));
    v.push(Value::Rounded(t.c0_pct.clone()));
    v.push(Value::Rounded(t.c1_pct.clone()));
    v.push(Value::Rounded(t.c2_pct.clone()));
    v.push(Value::Rounded(t.runnable_pct.clone()));
    v.push(Value::Rounded(t.mips.clone()));
    v.push(Value::Rounded(t.mcps.clone()));
    v.push(Value::Rounded(t.cpi.clone()));
    assert(value_views(v@) =~= thread_values(*t));
    v
}

/// How many threads the workbook shows.
pub const SHOWN_THREADS: usize = 20;

/// The row of the first thread.
pub const FIRST_THREAD_ROW: u32 = 23;

/// The rows of the first `n` threads.
pub open spec fn thread_cells(threads: Seq<LinuxThreadSummary<String, String>>, n: int) -> Seq<
    CellPlan<Seq<char>>,
>
    decreases n,
{
    if n <= 0 {
        Seq::empty()
    } else {
        thread_cells(threads, n - 1) + value_row(
            (FIRST_THREAD_ROW + n - 1) as u32,
            thread_values(threads[n - 1]),
        )
    }
}

/// How many of `n` threads are shown.
pub open spec fn shown(n: nat) -> int {
    if n < SHOWN_THREADS {
        n as int
    } else {
        SHOWN_THREADS as int
    }
}

/// The cells of the sheet "summary".
pub open spec fn summary_cells(threads: Seq<LinuxThreadSummary<String, String>>) -> Seq<
    CellPlan<Seq<char>>,
> {
    text_row(2, frame_labels()) + value_row(3, zeros(8)) + text_row(5, processor_labels())
        + value_row(6, processor_values()) + text_row(8, metric_labels()) + value_row(
        9,
        zeros(13),
    ) + text_row(22, task_labels()) + thread_cells(threads, shown(threads.len()))
}

fn zero_row(cells: &mut Vec<CellPlan<String>>, row: u32, n: usize)
    requires
        n < u32::MAX,
    ensures
        cell_views(final(cells)@) == cell_views(old(cells)@) + value_row(row, zeros(n as nat)),
{
    let mut v: Vec<Value<String>> = Vec::new();
    push_zeros(&mut v, n);
    assert(value_views(v@) =~= zeros(n as nat));
    assert(value_views(v@).len() == v@.len());
    put_values(cells, row, &v);
}

/// The cells of the sheet "summary".
pub fn write_summary_sheet(threads: &Vec<LinuxThreadSummary<String, String>>) -> (cells: Vec<
    CellPlan<String>,
>)
    ensures
        cell_views(cells@) == summary_cells(threads@),
{
    let mut cells: Vec<CellPlan<String>> = Vec::new();
    let top = top_headers();
    let cpu_gpu = cpu_gpu_headers();
    let values = cpu_gpu_values();
    let metric = metric_headers();
    let task = task_headers();
    proof {
        assert(labels(top@).len() == top@.len());
        assert(labels(cpu_gpu@).len() == cpu_gpu@.len());
        assert(value_views(values@).len() == values@.len());
        assert(labels(metric@).len() == metric@.len());
        assert(labels(task@).len() == task@.len());
        assert(cell_views(cells@) + text_row(2, frame_labels()) =~= text_row(2, frame_labels()));
    }
    put_texts(&mut cells, 2, &top);
    zero_row(&mut cells, 3, 8);
    put_texts(&mut cells, 5, &cpu_gpu);
    put_values(&mut cells, 6, &values);
    put_texts(&mut cells, 8, &metric);
    zero_row(&mut cells, 9, 13);
    put_texts(&mut cells, 22, &task);
    let ghost before = cell_views(cells@);
    let n: usize = if threads.len() < SHOWN_THREADS {
        threads.len()
    } else {
        SHOWN_THREADS
    };
    let mut i: usize = 0;
    assert(before + thread_cells(threads@, 0) =~= before);
    while i < n
        invariant
            n == shown(threads@.len()),
            n <= threads@.len(),
            n <= SHOWN_THREADS,
            i <= n,
            cell_views(cells@) == before + thread_cells(threads@, i as int),
        decreases n - i,
    {
        let v = thread_row(&threads[i]);
        assert(value_views(v@).len() == v@.len());
        put_values(&mut cells, FIRST_THREAD_ROW + i as u32, &v);
        assert(before + thread_cells(threads@, i as int + 1) =~= before + thread_cells(
            threads@,
            i as int,
        ) + value_row((FIRST_THREAD_ROW + i) as u32, thread_values(threads@[i as int])));
        i += 1;
    }
    cells
}

// ---------------------------------------------------------------------------
// The sheet "Advanced Report"
// ---------------------------------------------------------------------------

/// A row of the report: a category where one begins, a label, and a value
/// where there is one. `S` is the type of its texts.
#[derive(Debug)]
pub struct ReportRow<S> {
    pub category: S,
    pub key: S,
    pub value: Option<Value<S>>,
}

impl View for ReportRow<String> {
    type V = ReportRow<Seq<char>>;

    open spec fn view(&self) -> ReportRow<Seq<char>> {
        ReportRow {
            category: self.category@,
            key: self.key@,
            value: match self.value {
                Some(v) => Some(v@),
                None => None,
            },
        }
    }
}

pub open spec fn row_views(v: Seq<ReportRow<String>>) -> Seq<ReportRow<Seq<char>>> {
    v.map_values(|r: ReportRow<String>| r@)
}

/// The rows of the report.
pub open spec fn report_rows() -> Seq<ReportRow<Seq<char>>> {
    seq![
        ReportRow {
            category: "performance/power"@,
            key: "Avg FPS"@,
            value: Some(Value::Text("0.00"@)),
        },
        ReportRow {
            category: Seq::empty(),
            key: "Avg Power (mA)"@,
            value: Some(Value::Text("0.00"@)),
        },
        ReportRow { category: Seq::empty(), key: "1% Low"@, value: Some(Value::Text("0.00"@)) },
        ReportRow {
            category: "MIPS"@,
            key: "Total MIPS"@,
            value: Some(Value::MetricText { metric: Metric::Mips, decimals: 0, percent: false }),
        },
        ReportRow {
            category: Seq::empty(),
            key: "Game MIPS"@,
            value: Some(Value::MetricText { metric: Metric::Mips, decimals: 0, percent: false }),
        },
        ReportRow { category: Seq::empty(), key: "- Logical MIPS"@, value: None },
        ReportRow { category: Seq::empty(), key: "- Render MIPS"@, value: None },
        ReportRow {
            category: Seq::empty(),
            key: "System MIPS"@,
            value: Some(Value::MetricText { metric: Metric::Mips, decimals: 0, percent: false }),
        },
        ReportRow { category: "BW"@, key: "Total EMI Thr. (MB/s)"@, value: None },
        ReportRow { category: Seq::empty(), key: "CPU EMI Thr. (MB/s)"@, value: None },
        ReportRow { category: Seq::empty(), key: "GPU EMI Thr. (MB/s)"@, value: None },
        ReportRow {
            category: "Game Task Info"@,
            key: "Logical Thread CPU Usage (BCPU/MCPU)"@,
            value: None,
        },
        ReportRow { category: Seq::empty(), key: "Logical Loading"@, value: None },
        ReportRow { category: Seq::empty(), key: "Logical CPI"@, value: None },
        ReportRow {
            category: Seq::empty(),
            key: "Render Thread CPU Usage (BCPU/MCPU)"@,
            value: None,
        },
        ReportRow { category: Seq::empty(), key: "Render Loading"@, value: None },
        ReportRow { category: Seq::empty(), key: "Render CPI"@, value: None },
        ReportRow {
            category: "System Indices"@,
            key: "Avg. BCPU Freq. (MHz)"@,
            value: Some(Value::Text("0"@)),
        },
        ReportRow {
            category: Seq::empty(),
            key: "Avg. BCPU Usage (%)"@,
            value: Some(Value::MetricText { metric: Metric::Cpu, decimals: 1, percent: true }),
        },
        ReportRow {
            category: Seq::empty(),
            key: "Avg. MCPU Freq. (MHz)"@,
            value: Some(Value::Text("0"@)),
        },
        ReportRow {
            category: Seq::empty(),
            key: "Avg. MCPU Usage (%)"@,
            value: Some(Value::MetricText { metric: Metric::Cpu, decimals: 1, percent: true }),
        },
        ReportRow {
            category: Seq::empty(),
            key: "Avg. LCPU Freq. (MHz)"@,
            value: Some(Value::Text("0"@)),
        },
        ReportRow {
            category: Seq::empty(),
            key: "Avg. LCPU Usage (%)"@,
            value: Some(Value::MetricText { metric: Metric::Cpu, decimals: 1, percent: true }),
        },
        ReportRow {
            category: Seq::empty(),
            key: "Avg. GPU Freq. (MHz)"@,
            value: Some(Value::Text("0"@)),
        },
        ReportRow { category: Seq::empty(), key: "GPU urate"@, value: Some(Value::Text("0.0%"@)) },
        ReportRow {
            category: Seq::empty(),
            key: "Avg. DSU Freq. (MHz)"@,
            value: Some(Value::Text("0"@)),
        },
        ReportRow {
            category: Seq::empty(),
            key: "Avg. DRAM Freq. (MHz)"@,
            value: Some(Value::Text("0"@)),
        },
        ReportRow {
            category: Seq::empty(),
            key: "Linux PMU CPI"@,
            value: Some(Value::MetricText { metric: Metric::Cpi, decimals: 2, percent: false }),
        },
        ReportRow {
            category: Seq::empty(),
            key: "Linux PMU Cache Miss Rate"@,
            value: Some(
                Value::MetricText { metric: Metric::CacheMissRate, decimals: 2, percent: true },
            ),
        },
        ReportRow {
            category: Seq::empty(),
            key: "Linux PMU Branch Miss Rate"@,
            value: Some(
                Value::MetricText { metric: Metric::BranchMissRate, decimals: 2, percent: true },
            ),
        },
        ReportRow {
            category: "Temperature"@,
            key: "Board Temp Avg (C)"@,
            value: Some(Value::Text("0.0"@)),
        },
        ReportRow {
            category: Seq::empty(),
            key: "Battery Temp Avg (C)"@,
            value: Some(Value::Text("0.0"@)),
        },
        ReportRow {
            category: Seq::empty(),
            key: "Start Temp (C)"@,
            value: Some(Value::Text("0.0"@)),
        },
        ReportRow {
            category: Seq::empty(),
            key: "End Temp (C)"@,
            value: Some(Value::Text("0.0"@)),
        },
    ]
}

fn report_row(category: &str, key: &str, value: Option<Value<String>>) -> (r: ReportRow<String>)
    ensures
        r@ == (ReportRow {
            category: category@,
            key: key@,
            value: match value {
                Some(v) => Some(v@),
                None => None,
            },
        }),
{
    ReportRow { category: category.to_string(), key: key.to_string(), value }
}

fn under(key: &str, value: Option<Value<String>>) -> (r: ReportRow<String>)
    ensures
        r@ == (ReportRow {
            category: Seq::empty(),
            key: key@,
            value: match value {
                Some(v) => Some(v@),
                None => None,
            },
        }),
{
    ReportRow { category: String::new(), key: key.to_string(), value }
}

fn advanced_rows() -> (v: Vec<ReportRow<String>>)
    ensures
        row_views(v@) == report_rows(),
{
    let mut v: Vec<ReportRow<String>> = Vec::new();
    v.push(report_row("performance/power", "Avg FPS", Some(Value::Text("0.00".to_string()))));
    v.push(under("Avg Power (mA)", Some(Value::Text("0.00".to_string()))));
    v.push(under("1% Low", Some(Value::Text("0.00".to_string()))));
    v.push(
        report_row(
            "MIPS",
            "Total MIPS",
            Some(Value::MetricText { metric: Metric::Mips, decimals: 0, percent: false }),
        ),
    );
    v.push(
        under(
            "Game MIPS",
            Some(Value::MetricText { metric: Metric::Mips, decimals: 0, percent: false }),
        ),
    );
    v.push(under("- Logical MIPS", None));
    v.push(under("- Render MIPS", None));
    v.push(
        under(
            "System MIPS",
            Some(Value::MetricText { metric: Metric::Mips, decimals: 0, percent: false }),
        ),
    );
    v.push(report_row("BW", "Total EMI Thr. (MB/s)", None));
    v.push(under("CPU EMI Thr. (MB/s)", None));
    v.push(under("GPU EMI Thr. (MB/s)", None));
    v.push(report_row("Game Task Info", "Logical Thread CPU Usage (BCPU/MCPU)", None));
    v.push(under("Logical Loading", None));
    v.push(under("Logical CPI", None));
    v.push(under("Render Thread CPU Usage (BCPU/MCPU)", None));
    v.push(under("Render Loading", None));
    v.push(under("Render CPI", None));
    v.push(
        report_row("System Indices", "Avg. BCPU Freq. (MHz)", Some(Value::Text("0".to_string()))),
    );
    v.push(
        under(
            "Avg. BCPU Usage (%)",
            Some(Value::MetricText { metric: Metric::Cpu, decimals: 1, percent: true }),
        ),
    );
    v.push(under("Avg. MCPU Freq. (MHz)", Some(Value::Text("0".to_string()))));
    v.push(
        under(
            "Avg. MCPU Usage (%)",
            Some(Value::MetricText { metric: Metric::Cpu, decimals: 1, percent: true }),
        ),
    );
    v.push(under("Avg. LCPU Freq. (MHz)", Some(Value::Text("0".to_string()))));
    v.push(
        under(
            "Avg. LCPU Usage (%)",
            Some(Value::MetricText { metric: Metric::Cpu, decimals: 1, percent: true }),
        ),
    );
    v.push(under("Avg. GPU Freq. (MHz)", Some(Value::Text("0".to_string()))));
    v.push(under("GPU urate", Some(Value::Text("0.0%".to_string()))));
    v.push(under("Avg. DSU Freq. (MHz)", Some(Value::Text("0".to_string()))));
    v.push(under("Avg. DRAM Freq. (MHz)", Some(Value::Text("0".to_string()))));
    v.push(
        under(
            "Linux PMU CPI",
            Some(Value::MetricText { metric: Metric::Cpi, decimals: 2, percent: false }),
        ),
    );
    v.push(
        under(
            "Linux PMU Cache Miss Rate",
            Some(Value::MetricText { metric: Metric::CacheMissRate, decimals: 2, percent: true }),
        ),
    );
    v.push(
        under(
            "Linux PMU Branch Miss Rate",
            Some(Value::MetricText { metric: Metric::BranchMissRate, decimals: 2, percent: true }),
        ),
    );
    v.push(report_row("Temperature", "Board Temp Avg (C)", Some(Value::Text("0.0".to_string()))));
    v.push(under("Battery Temp Avg (C)", Some(Value::Text("0.0".to_string()))));
    v.push(under("Start Temp (C)", Some(Value::Text("0.0".to_string()))));
    v.push(under("End Temp (C)", Some(Value::Text("0.0".to_string()))));
    assert(row_views(v@) =~= report_rows());
    v
}

/// The cells of a row of the report. No cell is written for what is not there.
pub open spec fn report_row_cells(row: u32, r: ReportRow<Seq<char>>) -> Seq<CellPlan<Seq<char>>> {
    (if r.category.len() == 0 {
        Seq::empty()
    } else {
        seq![CellPlan { row, col: 1, value: Value::Text(r.category) }]
    }) + seq![CellPlan { row, col: 2, value: Value::Text(r.key) }] + (match r.value {
        Some(v) => seq![CellPlan { row, col: 3, value: v }],
        None => Seq::empty(),
    })
}

/// The cells of the first `n` rows of the report, from the second row on.
pub open spec fn report_cells(rows: Seq<ReportRow<Seq<char>>>, n: int) -> Seq<CellPlan<Seq<char>>>
    decreases n,
{
    if n <= 0 {
        Seq::empty()
    } else {
        report_cells(rows, n - 1) + report_row_cells((n + 1) as u32, rows[n - 1])
    }
}

/// The cells of the sheet "Advanced Report".
pub open spec fn advanced_cells() -> Seq<CellPlan<Seq<char>>> {
    text_row(1, seq!["System Index*"@, "Key Index"@, "Linux Host Local"@]) + report_cells(
        report_rows(),
        report_rows().len() as int,
    )
}

/// The cells of the sheet "Advanced Report".
pub fn write_advanced_report_sheet() -> (cells: Vec<CellPlan<String>>)
    ensures
        cell_views(cells@) == advanced_cells(),
{
    let mut cells: Vec<CellPlan<String>> = Vec::new();
    let mut head: Vec<&'static str> = Vec::new();
    head.push("System Index*");
    head.push("Key Index");
    head.push("Linux Host Local");
    let ghost titles = seq!["System Index*"@, "Key Index"@, "Linux Host Local"@];
    assert(labels(head@) =~= titles);
    put_texts(&mut cells, 1, &head);
    let ghost before = cell_views(cells@);
    assert(before =~= text_row(1, titles));
    let rows = advanced_rows();
    assert(row_views(rows@).len() == rows@.len());
    let mut i: usize = 0;
    assert(before + report_cells(report_rows(), 0) =~= before);
    while i < rows.len()
        invariant
            row_views(rows@) == report_rows(),
            rows@.len() == report_rows().len(),
            rows@.len() == 34,
            i <= rows@.len(),
            cell_views(cells@) == before + report_cells(report_rows(), i as int),
        decreases rows.len() - i,
    {
        let row: u32 = i as u32 + 2;
        let r = &rows[i];
        let ghost so_far = cell_views(cells@);
        assert(report_rows()[i as int] == r@);
        if r.category.as_str().unicode_len() > 0 {
            put(&mut cells, row, 1, Value::Text(r.category.clone()));
        }
        put(&mut cells, row, 2, Value::Text(r.key.clone()));
        if let Some(v) = &r.value {
            put(&mut cells, row, 3, copy_value(v));
        }
        assert(cell_views(cells@) =~= so_far + report_row_cells(row, r@));
        assert(before + report_cells(report_rows(), i as int + 1) =~= so_far + report_row_cells(
            row,
            r@,
        ));
        i += 1;
    }
    cells
}

// ---------------------------------------------------------------------------
// The smaller sheets
// ---------------------------------------------------------------------------

/// The least of the first `n` samples' free memory; zero without samples.
pub open spec fn least_memory(samples: Seq<LinuxHostSample<String>>, n: int) -> u64
    decreases n,
{
    if n <= 0 {
        0
    } else if n == 1 {
        samples[0].mem_available_kb
    } else {
        let before = least_memory(samples, n - 1);
        if samples[n - 1].mem_available_kb < before {
            samples[n - 1].mem_available_kb
        } else {
            before
        }
    }
}

/// The least free memory is that of a sample, and no sample has less.
pub proof fn law_least_memory_is_the_minimum(samples: Seq<LinuxHostSample<String>>, n: int)
    requires
        0 < n <= samples.len(),
    ensures
        exists|i: int|
            0 <= i < n && (#[trigger] samples[i]).mem_available_kb == least_memory(samples, n),
        forall|i: int|
            0 <= i < n ==> (#[trigger] samples[i]).mem_available_kb >= least_memory(samples, n),
    decreases n,
{
    if n > 1 {
        law_least_memory_is_the_minimum(samples, n - 1);
    }
    if n > 1 && samples[n - 1].mem_available_kb >= least_memory(samples, n - 1) {
        let i = choose|i: int|
            0 <= i < n - 1 && (#[trigger] samples[i]).mem_available_kb == least_memory(
                samples,
                n - 1,
            );
        assert(samples[i].mem_available_kb == least_memory(samples, n));
    } else {
        assert(samples[n - 1].mem_available_kb == least_memory(samples, n));
    }
}

/// The least free memory of the samples; zero without samples.
pub fn min_mem_available(samples: &Vec<LinuxHostSample<String>>) -> (m: u64)
    ensures
        m == least_memory(samples@, samples@.len() as int),
{
    if samples.len() == 0 {
        return 0;
    }
    let mut m: u64 = samples[0].mem_available_kb;
    let mut i: usize = 1;
    while i < samples.len()
        invariant
            1 <= i <= samples@.len(),
            m == least_memory(samples@, i as int),
        decreases samples.len() - i,
    {
        if samples[i].mem_available_kb < m {
            m = samples[i].mem_available_kb;
        }
        i += 1;
    }
    m
}

/// Labels with a value beside each, from the first row on.
pub open spec fn labelled(v: Seq<(Seq<char>, Value<Seq<char>>)>) -> Seq<CellPlan<Seq<char>>>
    decreases v.len(),
{
    if v.len() == 0 {
        Seq::empty()
    } else {
        labelled(v.drop_last()) + seq![
            CellPlan { row: v.len() as u32, col: 1, value: Value::Text(v.last().0) },
            CellPlan { row: v.len() as u32, col: 2, value: v.last().1 },
        ]
    }
}

/// The lines of the sheet "summary_vertical".
pub open spec fn vertical_lines(samples: Seq<LinuxHostSample<String>>) -> Seq<
    (Seq<char>, Value<Seq<char>>),
> {
    seq![
        ("Metric"@, Value::Text("Value"@)),
        ("Samples"@, Value::Whole(samples.len() as u64)),
        ("CPU Avg (%)"@, Value::Metric(Metric::Cpu)),
        (
            "Memory Available Min (KB)"@,
            Value::Whole(least_memory(samples, samples.len() as int)),
        ),
        ("MIPS Avg"@, Value::Metric(Metric::Mips)),
        ("CPI Avg"@, Value::Metric(Metric::Cpi)),
    ]
}

fn put_line(
    cells: &mut Vec<CellPlan<String>>,
    lines: Ghost<Seq<(Seq<char>, Value<Seq<char>>)>>,
    row: u32,
    label: &str,
    value: Value<String>,
)
    requires
        cell_views(old(cells)@) == labelled(lines@),
        row == lines@.len() + 1,
    ensures
        cell_views(final(cells)@) == labelled(lines@.push((label@, value@))),
{
    put(cells, row, 1, Value::Text(label.to_string()));
    let ghost mid = cell_views(cells@);
    put(cells, row, 2, value);
    proof {
        let longer = lines@.push((label@, value@));
        assert(longer.drop_last() =~= lines@);
        assert(cell_views(cells@) =~= labelled(longer));
    }
}

/// The cells of the sheet "summary_vertical".
pub fn write_summary_vertical_sheet(samples: &Vec<LinuxHostSample<String>>) -> (cells: Vec<
    CellPlan<String>,
>)
    ensures
        cell_views(cells@) == labelled(vertical_lines(samples@)),
{
    let mut cells: Vec<CellPlan<String>> = Vec::new();
    let ghost l0 = Seq::<(Seq<char>, Value<Seq<char>>)>::empty();
    assert(cell_views(cells@) =~= labelled(l0));
    put_line(&mut cells, Ghost(l0), 1, "Metric", Value::Text("Value".to_string()));
    let ghost l1 = l0.push(("Metric"@, Value::Text("Value"@)));
    put_line(&mut cells, Ghost(l1), 2, "Samples", Value::Whole(samples.len() as u64));
    let ghost l2 = l1.push(("Samples"@, Value::Whole(samples@.len() as u64)));
    put_line(&mut cells, Ghost(l2), 3, "CPU Avg (%)", Value::Metric(Metric::Cpu));
    let ghost l3 = l2.push(("CPU Avg (%)"@, Value::Metric(Metric::Cpu)));
    let least: u64 = min_mem_available(samples);
    put_line(&mut cells, Ghost(l3), 4, "Memory Available Min (KB)", Value::Whole(least));
    let ghost l4 = l3.push(("Memory Available Min (KB)"@, Value::Whole(least)));
    put_line(&mut cells, Ghost(l4), 5, "MIPS Avg", Value::Metric(Metric::Mips));
    let ghost l5 = l4.push(("MIPS Avg"@, Value::Metric(Metric::Mips)));
    put_line(&mut cells, Ghost(l5), 6, "CPI Avg", Value::Metric(Metric::Cpi));
    let ghost l6 = l5.push(("CPI Avg"@, Value::Metric(Metric::Cpi)));
    assert(l6 =~= vertical_lines(samples@));
    cells
}

/// What the recording of a local machine measures.
pub open spec fn measured() -> Seq<char> {
    "CPU usage, memory total/available, process RSS, Linux PMU MIPS/MCPS/CPI/cache/branch"@
}

/// The cells of the sheet "gpt_summary".
pub open spec fn gpt_cells(sample_count: u64) -> Seq<CellPlan<Seq<char>>> {
    seq![
        CellPlan { row: 1, col: 1, value: Value::Text("Linux host local recording"@) },
        CellPlan { row: 2, col: 1, value: Value::Text("Samples"@) },
        CellPlan { row: 2, col: 2, value: Value::Whole(sample_count) },
        CellPlan { row: 3, col: 1, value: Value::Text("Available metrics"@) },
        CellPlan { row: 3, col: 2, value: Value::Text(measured()) },
    ]
}

/// The cells of the sheet "gpt_summary".
pub fn write_gpt_summary_sheet(sample_count: u64) -> (cells: Vec<CellPlan<String>>)
    ensures
        cell_views(cells@) == gpt_cells(sample_count),
{
    let mut cells: Vec<CellPlan<String>> = Vec::new();
    put(&mut cells, 1, 1, Value::Text("Linux host local recording".to_string()));
    put(&mut cells, 2, 1, Value::Text("Samples".to_string()));
    put(&mut cells, 2, 2, Value::Whole(sample_count));
    put(&mut cells, 3, 1, Value::Text("Available metrics".to_string()));
    put(
        &mut cells,
        3,
        2,
        Value::Text(
            "CPU usage, memory total/available, process RSS, Linux PMU MIPS/MCPS/CPI/cache/branch".to_string(),
        ),
    );
    assert(cell_views(cells@) =~= gpt_cells(sample_count));
    cells
}

/// The lines of the sheet "Power Summary".
pub open spec fn power_lines() -> Seq<(Seq<char>, Value<Seq<char>>)> {
    seq![
        ("Metric"@, Value::Text("Value"@)),
        ("Power source"@, Value::Text("Unavailable on Linux host local mode"@)),
        ("CPU Avg (%)"@, Value::Metric(Metric::Cpu)),
        ("MIPS Avg"@, Value::Metric(Metric::Mips)),
    ]
}

/// The cells of the sheet "Power Summary".
pub fn write_power_summary_sheet() -> (cells: Vec<CellPlan<String>>)
    ensures
        cell_views(cells@) == labelled(power_lines()),
{
    let mut cells: Vec<CellPlan<String>> = Vec::new();
    let ghost l0 = Seq::<(Seq<char>, Value<Seq<char>>)>::empty();
    assert(cell_views(cells@) =~= labelled(l0));
    put_line(&mut cells, Ghost(l0), 1, "Metric", Value::Text("Value".to_string()));
    let ghost l1 = l0.push(("Metric"@, Value::Text("Value"@)));
    put_line(
        &mut cells,
        Ghost(l1),
        2,
        "Power source",
        Value::Text("Unavailable on Linux host local mode".to_string()),
    );
    let ghost l2 = l1.push(
        ("Power source"@, Value::Text("Unavailable on Linux host local mode"@)),
    );
    put_line(&mut cells, Ghost(l2), 3, "CPU Avg (%)", Value::Metric(Metric::Cpu));
    let ghost l3 = l2.push(("CPU Avg (%)"@, Value::Metric(Metric::Cpu)));
    put_line(&mut cells, Ghost(l3), 4, "MIPS Avg", Value::Metric(Metric::Mips));
    let ghost l4 = l3.push(("MIPS Avg"@, Value::Metric(Metric::Mips)));
    assert(l4 =~= power_lines());
    cells
}

// ---------------------------------------------------------------------------
// The sheet "RawData"
// ---------------------------------------------------------------------------

/// The labels of the samples.
pub open spec fn raw_labels() -> Seq<Seq<char>> {
    seq![
        "timestamp_ms"@,
        "elapsed_s"@,
        "fps_dequeue"@,
        "fps_queue"@,
        "fps_present_fence"@,
        "cpu0_loading_pct"@,
        "cpu1_loading_pct"@,
        "cpu2_loading_pct"@,
        "cpu3_loading_pct"@,
        "cpu4_loading_pct"@,
        "cpu5_loading_pct"@,
        "cpu6_loading_pct"@,
        "cpu7_loading_pct"@,
        "cpu0_freq_mhz"@,
        "cpu1_freq_mhz"@,
        "cpu2_freq_mhz"@,
        "cpu3_freq_mhz"@,
        "cpu4_freq_mhz"@,
        "cpu5_freq_mhz"@,
        "cpu6_freq_mhz"@,
        "cpu7_freq_mhz"@,
        "power_mw"@,
        "power_avg_mw"@,
        "power_ma"@,
        "voltage_v"@,
        "board_temp_c"@,
        "battery_temp_c"@,
        "gpu_freq_mhz"@,
        "gpu_loading_pct"@,
        "total_mips"@,
        "game_mips"@,
        "logical_mips"@,
        "render_mips"@,
        "rhi_mips"@,
        "dsu_freq_mhz"@,
        "dram_freq_mhz"@,
        "vcore_v"@,
        "wss_kb"@,
        "pss_kb"@,
        "cpu_time_ms"@,
        "gpu_time_ms"@,
        "process_name"@,
        "mem_total_kb"@,
        "mem_available_kb"@,
        "top_app_rss_kb"@,
        "total_mips"@,
        "total_mcps"@,
        "cpi"@,
        "cache_references_per_sec"@,
        "cache_misses_per_sec"@,
        "cache_miss_rate_pct"@,
        "branch_instructions_per_sec"@,
        "branch_misses_per_sec"@,
        "branch_miss_rate_pct"@,
    ]
}

fn raw_headers() -> (v: Vec<&'static str>)
    ensures
        labels(v@) == raw_labels(),
{
    let mut v: Vec<&'static str> = Vec::new();
    v.push("timestamp_ms");
    v.push("elapsed_s");
    v.push("fps_dequeue");
    v.push("fps_queue");
    v.push("fps_present_fence");
    v.push("cpu0_loading_pct");
    v.push("cpu1_loading_pct");
    v.push("cpu2_loading_pct");
    v.push("cpu3_loading_pct");
    v.push("cpu4_loading_pct");
    v.push("cpu5_loading_pct");
    v.push("cpu6_loading_pct");
    v.push("cpu7_loading_pct");
    v.push("cpu0_freq_mhz");
    v.push("cpu1_freq_mhz");
    v.push("cpu2_freq_mhz");
    v.push("cpu3_freq_mhz");
    v.push("cpu4_freq_mhz");
    v.push("cpu5_freq_mhz");
    v.push("cpu6_freq_mhz");
    v.push("cpu7_freq_mhz");
    v.push("power_mw");
    v.push("power_avg_mw");
    v.push("power_ma");
    v.push("voltage_v");
    v.push("board_temp_c");
    v.push("battery_temp_c");
    v.push("gpu_freq_mhz");
    v.push("gpu_loading_pct");
    v.push("total_mips");
    v.push("game_mips");
    v.push("logical_mips");
    v.push("render_mips");
    v.push("rhi_mips");
    v.push("dsu_freq_mhz");
    v.push("dram_freq_mhz");
    v.push("vcore_v");
    v.push("wss_kb");
    v.push("pss_kb");
    v.push("cpu_time_ms");
    v.push("gpu_time_ms");
    v.push("process_name");
    v.push("mem_total_kb");
    v.push("mem_available_kb");
    v.push("top_app_rss_kb");
    v.push("total_mips");
    v.push("total_mcps");
    v.push("cpi");
    v.push("cache_references_per_sec");
    v.push("cache_misses_per_sec");
    v.push("cache_miss_rate_pct");
    v.push("branch_instructions_per_sec");
    v.push("branch_misses_per_sec");
    v.push("branch_miss_rate_pct");
    assert(labels(v@) =~= raw_labels());
    v
}

/// The time of a sample since the first; zero for one that is older.
pub open spec fn elapsed(now: u64, start: u64) -> u64 {
    if now < start {
        0
    } else {
        (now - start) as u64
    }
}

/// The same literal, over and over.
pub open spec fn repeated(literal: Seq<char>, n: nat) -> Seq<Value<Seq<char>>> {
    Seq::new(n, |i: int| Value::Literal(literal))
}

/// The row of a sample.
pub open spec fn sample_values(s: LinuxHostSample<String>, start: u64) -> Seq<Value<Seq<char>>> {
    seq![Value::Whole(s.timestamp_ms), Value::Seconds(elapsed(s.timestamp_ms, start))] + zeros(3)
        + repeated(s.cpu_usage_pct@, 8) + zeros(28) + measured_values(s)
}

/// What the row of a sample shows behind the columns that stay empty on a
/// local machine.
pub open spec fn measured_values(s: LinuxHostSample<String>) -> Seq<Value<Seq<char>>> {
    seq![
        Value::Text(s.process_name@),
        Value::Whole(s.mem_total_kb),
        Value::Whole(s.mem_available_kb),
        Value::Whole(s.top_app_rss_kb),
        Value::Literal(s.total_mips@),
        Value::Literal(s.total_mcps@),
        Value::Literal(s.cpi@),
        Value::Literal(s.cache_references_per_sec@),
        Value::Literal(s.cache_misses_per_sec@),
        Value::Literal(s.cache_miss_rate_pct@),
        Value::Literal(s.branch_instructions_per_sec@),
        Value::Literal(s.branch_misses_per_sec@),
        Value::Literal(s.branch_miss_rate_pct@),
    ]
}

fn push_repeated(v: &mut Vec<Value<String>>, literal: &String, n: usize)
    ensures
        value_views(final(v)@) == value_views(old(v)@) + repeated(literal@, n as nat),
{
    let ghost before = value_views(v@);
    let mut i: usize = 0;
    assert(before + repeated(literal@, 0) =~= before);
    while i < n
        invariant
            i <= n,
            value_views(v@) == before + repeated(literal@, i as nat),
        decreases n - i,
    {
        let ghost so_far = value_views(v@);
        let one = Value::Literal(literal.clone());
        v.push(one);
        assert(value_views(v@) =~= so_far.push(one@));
        assert(before + repeated(literal@, i as nat + 1) =~= so_far.push(one@));
        i += 1;
    }
}

fn sample_row(s: &LinuxHostSample<String>, start: u64) -> (v: Vec<Value<String>>)
    ensures
        value_views(v@) == sample_values(*s, start),
{
    let mut v: Vec<Value<String>> = Vec::new();
    let since: u64 = if s.timestamp_ms < start {
        0
    } else {
        s.timestamp_ms - start
    };
    v.push(Value::Whole(s.timestamp_ms));
    v.push(Value::Seconds(since));
    assert(value_views(v@) =~= seq![
        Value::Whole(s.timestamp_ms),
        Value::Seconds(elapsed(s.timestamp_ms, start)),
    ]);
    push_zeros(&mut v, 3);
    push_repeated(&mut v, &s.cpu_usage_pct, 8);
    push_zeros(&mut v, 28);
    let ghost left = value_views(v@);
    let ghost first = v@.len() as int;
    v.push(Value::Text(s.process_name.clone()));
    v.push(Value::Whole(s.mem_total_kb));
    v.push(Value::Whole(s.mem_available_kb));
    v.push(Value::Whole(s.top_app_rss_kb));
    v.push(Value::Literal(s.total_mips.clone()));
    v.push(Value::Literal(s.total_mcps.clone()));
    v.push(Value::Literal(s.cpi.clone()));
    v.push(Value::Literal(s.cache_references_per_sec.clone()));
    v.push(Value::Literal(s.cache_misses_per_sec.clone()));
    v.push(Value::Literal(s.cache_miss_rate_pct.clone()));
    v.push(Value::Literal(s.branch_instructions_per_sec.clone()));
    v.push(Value::Literal(s.branch_misses_per_sec.clone()));
    v.push(Value::Literal(s.branch_miss_rate_pct.clone()));
    assert(value_views(v@).take(first) =~= left);
    assert(value_views(v@).skip(first) =~= measured_values(*s));
    assert(value_views(v@) =~= left + measured_values(*s));
    v
}

/// The time of the first sample; zero without samples.
pub open spec fn start_of(samples: Seq<LinuxHostSample<String>>) -> u64 {
    if samples.len() == 0 {
        0
    } else {
        samples[0].timestamp_ms
    }
}

/// The rows of the first `n` samples, from the second row on.
pub open spec fn sample_cells(samples: Seq<LinuxHostSample<String>>, n: int) -> Seq<
    CellPlan<Seq<char>>,
>
    decreases n,
{
    if n <= 0 {
        Seq::empty()
    } else {
        sample_cells(samples, n - 1) + value_row(
            (n + 1) as u32,
            sample_values(samples[n - 1], start_of(samples)),
        )
    }
}

/// The cells of the sheet "RawData".
pub open spec fn raw_cells(samples: Seq<LinuxHostSample<String>>) -> Seq<CellPlan<Seq<char>>> {
    text_row(1, raw_labels()) + sample_cells(samples, samples.len() as int)
}

/// The cells of the sheet "RawData". There are no more rows than numbers for
/// them.
pub fn write_raw_data_sheet(samples: &Vec<LinuxHostSample<String>>) -> (cells: Vec<
    CellPlan<String>,
>)
    requires
        samples.len() < u32::MAX - 1,
    ensures
        cell_views(cells@) == raw_cells(samples@),
{
    let mut cells: Vec<CellPlan<String>> = Vec::new();
    let head = raw_headers();
    assert(labels(head@).len() == head@.len());
    put_texts(&mut cells, 1, &head);
    let ghost before = cell_views(cells@);
    assert(before =~= text_row(1, raw_labels()));
    let start: u64 = if samples.len() == 0 {
        0
    } else {
        samples[0].timestamp_ms
    };
    let mut i: usize = 0;
    assert(before + sample_cells(samples@, 0) =~= before);
    while i < samples.len()
        invariant
            samples.len() < u32::MAX - 1,
            i <= samples.len(),
            start == start_of(samples@),
            cell_views(cells@) == before + sample_cells(samples@, i as int),
        decreases samples.len() - i,
    {
        let v = sample_row(&samples[i], start);
        assert(value_views(v@).len() == v@.len());
        put_values(&mut cells, i as u32 + 2, &v);
        assert(before + sample_cells(samples@, i as int + 1) =~= before + sample_cells(
            samples@,
            i as int,
        ) + value_row((i + 2) as u32, sample_values(samples@[i as int], start)));
        i += 1;
    }
    cells
}

// ---------------------------------------------------------------------------
// The workbook
// ---------------------------------------------------------------------------

/// A sheet of the workbook.
#[derive(Debug)]
pub struct SheetPlan {
    pub name: &'static str,
    pub cells: Vec<CellPlan<String>>,
}

/// Whether a sheet has the given name and cells.
pub open spec fn is_sheet(s: SheetPlan, name: Seq<char>, cells: Seq<CellPlan<Seq<char>>>) -> bool {
    s.name@ == name && cell_views(s.cells@) == cells
}

/// The sheets of the workbook, in order.
pub fn generate_linux_host_gar_xlsx(
    samples: &Vec<LinuxHostSample<String>>,
    threads: &Vec<LinuxThreadSummary<String, String>>,
) -> (sheets: Vec<SheetPlan>)
    requires
        samples.len() < u32::MAX - 1,
    ensures
        sheets@.len() == 6,
        is_sheet(sheets@[0], "summary"@, summary_cells(threads@)),
        is_sheet(sheets@[1], "Advanced Report"@, advanced_cells()),
        is_sheet(sheets@[2], "summary_vertical"@, labelled(vertical_lines(samples@))),
        is_sheet(sheets@[3], "gpt_summary"@, gpt_cells(samples@.len() as u64)),
        is_sheet(sheets@[4], "RawData"@, raw_cells(samples@)),
        is_sheet(sheets@[5], "Power Summary"@, labelled(power_lines())),
{
    let mut sheets: Vec<SheetPlan> = Vec::new();
    sheets.push(SheetPlan { name: "summary", cells: write_summary_sheet(threads) });
    sheets.push(SheetPlan { name: "Advanced Report", cells: write_advanced_report_sheet() });
    sheets.push(
        SheetPlan { name: "summary_vertical", cells: write_summary_vertical_sheet(samples) },
    );
    sheets.push(
        SheetPlan {
            name: "gpt_summary",
            cells: write_gpt_summary_sheet(samples.len() as u64),
        },
    );
    sheets.push(SheetPlan { name: "RawData", cells: write_raw_data_sheet(samples) });
    sheets.push(SheetPlan { name: "Power Summary", cells: write_power_summary_sheet() });
    sheets
}

} // verus!
