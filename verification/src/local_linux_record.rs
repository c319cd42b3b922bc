//! Recordings of a Linux host: the comma-separated files that hold samples of
//! the real-time benchmark stream and thread summaries.
use vstd::prelude::*;
use crate::csv::{csv_escape, escaped, fields_of, parse_csv_line};
use crate::double::Double;
use crate::number::{
    FloatFault, IntFault, check_float, decimal, decimal_signed, decimal_text, parse_i32, parse_u64,
    read_float, read_int, signed_text,
};
use crate::proto::RtbDataPoint;
use crate::text::{blank, concat3, is_blank, join, joined, lines, lines_of, texts};

verus! {

/// One row of a recording. `S` is the type of its texts; a measured value is
/// the floating-point literal that the row holds.
#[derive(Debug, Clone, PartialEq)]
pub struct LinuxHostSample<S> {
    pub timestamp_ms: u64,
    pub process_name: S,
    pub cpu_usage_pct: S,
    pub bcpu_usage_pct: S,
    pub mem_total_kb: u64,
    pub mem_available_kb: u64,
    pub top_app_rss_kb: u64,
    pub total_mips: S,
    pub total_mcps: S,
    pub cpi: S,
    pub cache_references_per_sec: S,
    pub cache_misses_per_sec: S,
    pub cache_miss_rate_pct: S,
    pub branch_instructions_per_sec: S,
    pub branch_misses_per_sec: S,
    pub branch_miss_rate_pct: S,
}

impl View for LinuxHostSample<String> {
    type V = LinuxHostSample<Seq<char>>;

    open spec fn view(&self) -> LinuxHostSample<Seq<char>> {
        LinuxHostSample {
            timestamp_ms: self.timestamp_ms,
            process_name: self.process_name@,
            cpu_usage_pct: self.cpu_usage_pct@,
            bcpu_usage_pct: self.bcpu_usage_pct@,
            mem_total_kb: self.mem_total_kb,
            mem_available_kb: self.mem_available_kb,
            top_app_rss_kb: self.top_app_rss_kb,
            total_mips: self.total_mips@,
            total_mcps: self.total_mcps@,
            cpi: self.cpi@,
            cache_references_per_sec: self.cache_references_per_sec@,
            cache_misses_per_sec: self.cache_misses_per_sec@,
            cache_miss_rate_pct: self.cache_miss_rate_pct@,
            branch_instructions_per_sec: self.branch_instructions_per_sec@,
            branch_misses_per_sec: self.branch_misses_per_sec@,
            branch_miss_rate_pct: self.branch_miss_rate_pct@,
        }
    }
}

/// What a recording says of one thread. `S` is the type of its name and `N`
/// that of its measured values.
#[derive(Debug, Clone, PartialEq)]
pub struct LinuxThreadSummary<S, N> {
    pub pid: i32,
    pub tgid: i32,
    pub name: S,
    pub loading_pct: N,
    pub c0_pct: N,
    pub c1_pct: N,
    pub c2_pct: N,
    pub runnable_pct: N,
    pub mips: N,
    pub mcps: N,
    pub cpi: N,
}

impl View for LinuxThreadSummary<String, String> {
    type V = LinuxThreadSummary<Seq<char>, Seq<char>>;

    open spec fn view(&self) -> LinuxThreadSummary<Seq<char>, Seq<char>> {
        LinuxThreadSummary {
            pid: self.pid,
            tgid: self.tgid,
            name: self.name@,
            loading_pct: self.loading_pct@,
            c0_pct: self.c0_pct@,
            c1_pct: self.c1_pct@,
            c2_pct: self.c2_pct@,
            runnable_pct: self.runnable_pct@,
            mips: self.mips@,
            mcps: self.mcps@,
            cpi: self.cpi@,
        }
    }
}

// ---------------------------------------------------------------------------
// Writing rows
// ---------------------------------------------------------------------------

/// One cell of a row: a text, or a value to be written with a fixed number of
/// decimals.
pub enum Column<S> {
    Text(S),
    Fixed { value: Double, decimals: usize },
}

impl View for Column<String> {
    type V = Column<Seq<char>>;

    open spec fn view(&self) -> Column<Seq<char>> {
        match self {
            Column::Text(t) => Column::Text(t@),
            Column::Fixed { value, decimals } => Column::Fixed {
                value: *value,
                decimals: *decimals,
            },
        }
    }
}

pub open spec fn column_views(v: Seq<Column<String>>) -> Seq<Column<Seq<char>>> {
    v.map_values(|c: Column<String>| c@)
}

/// Whether `fixed` may write `s` for a value with the given number of
/// decimals.
pub open spec fn may_write<F: Fn(Double, usize) -> String>(
    fixed: F,
    value: Double,
    decimals: usize,
    s: String,
) -> bool {
    call_ensures(fixed, (value, decimals), s)
}

/// Whether `cell` is what `fixed` may write for a column.
pub open spec fn fits<F: Fn(Double, usize) -> String>(
    fixed: F,
    column: Column<Seq<char>>,
    cell: String,
) -> bool {
    match column {
        Column::Text(t) => cell@ == t,
        Column::Fixed { value, decimals } => may_write(fixed, value, decimals, cell),
    }
}

/// Whether `cells` are what `fixed` may write for `columns`, one for one.
pub open spec fn all_fit<F: Fn(Double, usize) -> String>(
    fixed: F,
    columns: Seq<Column<Seq<char>>>,
    cells: Seq<String>,
) -> bool {
    &&& cells.len() == columns.len()
    &&& forall|i: int| 0 <= i < cells.len() ==> #[trigger] fits(fixed, columns[i], cells[i])
}

/// Whether `row` is `columns`, each written by `fixed`, with commas between.
pub open spec fn renders<F: Fn(Double, usize) -> String>(
    fixed: F,
    columns: Seq<Column<Seq<char>>>,
    row: Seq<char>,
) -> bool {
    exists|cells: Seq<String>| #[trigger]
        all_fit(fixed, columns, cells) && row == joined(texts(cells), seq![','])
}

fn render_row<F: Fn(Double, usize) -> String>(columns: &Vec<Column<String>>, fixed: &F) -> (row:
    String)
    requires
        forall|v: Double, d: usize| #[trigger] call_requires(*fixed, (v, d)),
    ensures
        renders(*fixed, column_views(columns@), row@),
{
    let mut cells: Vec<String> = Vec::new();
    let mut i: usize = 0;
    let ghost views = column_views(columns@);
    while i < columns.len()
        invariant
            forall|v: Double, d: usize| #[trigger] call_requires(*fixed, (v, d)),
            views == column_views(columns@),
            i <= columns@.len(),
            cells@.len() == i,
            forall|j: int| 0 <= j < i ==> #[trigger] fits(*fixed, views[j], cells@[j]),
        decreases columns.len() - i,
    {
        let ghost before = cells@;
        assert(views[i as int] == columns@[i as int]@);
        match &columns[i] {
            Column::Text(t) => {
                cells.push(t.clone());
            },
            Column::Fixed { value, decimals } => {
                cells.push(fixed(*value, *decimals));
            },
        }
        assert(fits(*fixed, views[i as int], cells@[i as int]));
        i += 1;
    }
    assert(all_fit(*fixed, views, cells@));
    proof {
        reveal_strlit(",");
        assert(","@ =~= seq![',']);
    }
    join(&cells, ",")
}

/// The header of a recording.
pub open spec fn rtb_header() -> Seq<char> {
    "timestamp_ms,process_name,cpu_usage_pct,bcpu_usage_pct,mem_total_kb,mem_available_kb,top_app_rss_kb,total_mips,total_mcps,cpi,cache_references_per_sec,cache_misses_per_sec,cache_miss_rate_pct,branch_instructions_per_sec,branch_misses_per_sec,branch_miss_rate_pct"@
}

/// The header of a recording.
pub fn rtb_csv_header() -> (s: &'static str)
    ensures
        s@ == rtb_header(),
{
    "timestamp_ms,process_name,cpu_usage_pct,bcpu_usage_pct,mem_total_kb,mem_available_kb,top_app_rss_kb,total_mips,total_mcps,cpi,cache_references_per_sec,cache_misses_per_sec,cache_miss_rate_pct,branch_instructions_per_sec,branch_misses_per_sec,branch_miss_rate_pct"
}

/// The usage of the first CPU, or zero where none is given.
pub open spec fn first_usage(usages: Seq<Double>) -> Double {
    if usages.len() > 0 {
        usages[0]
    } else {
        Double::nought()
    }
}

pub open spec fn fixed_column(value: Double, decimals: usize) -> Column<Seq<char>> {
    Column::Fixed { value, decimals }
}

/// The columns of a sample's row.
pub open spec fn point_columns(p: RtbDataPoint) -> Seq<Column<Seq<char>>> {
    seq![
        Column::Text(decimal(p.timestamp_ms as nat)),
        Column::Text(escaped(p.process_name@)),
        fixed_column(first_usage(p.cpu_usages_pct@), 3),
        fixed_column(p.bcpu_usage_pct, 3),
        Column::Text(decimal(p.mem_total_kb as nat)),
        Column::Text(decimal(p.mem_available_kb as nat)),
        Column::Text(decimal(p.top_app_rss_kb as nat)),
        fixed_column(p.total_mips, 6),
        fixed_column(p.total_mcps, 6),
        fixed_column(p.cpi, 6),
        fixed_column(p.cache_references_per_sec, 3),
        fixed_column(p.cache_misses_per_sec, 3),
        fixed_column(p.cache_miss_rate_pct, 6),
        fixed_column(p.branch_instructions_per_sec, 3),
        fixed_column(p.branch_misses_per_sec, 3),
        fixed_column(p.branch_miss_rate_pct, 6),
    ]
}

fn fixed_of(value: Double, decimals: usize) -> (c: Column<String>)
    ensures
        c@ == fixed_column(value, decimals),
{
    Column::Fixed { value, decimals }
}

/// The row of one sample, in which `fixed` writes each measured value with
/// the given number of decimals.
pub fn rtb_csv_row<F: Fn(Double, usize) -> String>(point: &RtbDataPoint, fixed: &F) -> (row: String)
    requires
        forall|v: Double, d: usize| #[trigger] call_requires(*fixed, (v, d)),
    ensures
        renders(*fixed, point_columns(*point), row@),
{
    let cpu_usage: Double = if point.cpu_usages_pct.len() > 0 {
        point.cpu_usages_pct[0]
    } else {
        Double::zero()
    };
    let mut columns: Vec<Column<String>> = Vec::new();
    columns.push(Column::Text(decimal_text(point.timestamp_ms)));
    columns.push(Column::Text(csv_escape(point.process_name.as_str())));
    columns.push(fixed_of(cpu_usage, 3));
    columns.push(fixed_of(point.bcpu_usage_pct, 3));
    columns.push(Column::Text(decimal_text(point.mem_total_kb)));
    columns.push(Column::Text(decimal_text(point.mem_available_kb)));
    columns.push(Column::Text(decimal_text(point.top_app_rss_kb)));
    columns.push(fixed_of(point.total_mips, 6));
    columns.push(fixed_of(point.total_mcps, 6));
    columns.push(fixed_of(point.cpi, 6));
    columns.push(fixed_of(point.cache_references_per_sec, 3));
    columns.push(fixed_of(point.cache_misses_per_sec, 3));
    columns.push(fixed_of(point.cache_miss_rate_pct, 6));
    columns.push(fixed_of(point.branch_instructions_per_sec, 3));
    columns.push(fixed_of(point.branch_misses_per_sec, 3));
    columns.push(fixed_of(point.branch_miss_rate_pct, 6));
    assert(column_views(columns@) =~= point_columns(*point));
    render_row(&columns, fixed)
}

/// The header of a thread summary file.
pub open spec fn thread_header() -> Seq<char> {
    "pid,tgid,name,loading_pct,c0_pct,c1_pct,c2_pct,runnable_pct,mips,mcps,cpi"@
}

/// The header of a thread summary file.
pub fn thread_csv_header() -> (s: &'static str)
    ensures
        s@ == thread_header(),
{
    "pid,tgid,name,loading_pct,c0_pct,c1_pct,c2_pct,runnable_pct,mips,mcps,cpi"
}

/// The columns of a thread's row.
pub open spec fn thread_columns(t: LinuxThreadSummary<String, Double>) -> Seq<Column<Seq<char>>> {
    seq![
        Column::Text(decimal_signed(t.pid as int)),
        Column::Text(decimal_signed(t.tgid as int)),
        Column::Text(escaped(t.name@)),
        fixed_column(t.loading_pct, 6),
        fixed_column(t.c0_pct, 6),
        fixed_column(t.c1_pct, 6),
        fixed_column(t.c2_pct, 6),
        fixed_column(t.runnable_pct, 6),
        fixed_column(t.mips, 6),
        fixed_column(t.mcps, 6),
        fixed_column(t.cpi, 6),
    ]
}

/// The row of one thread, in which `fixed` writes each measured value with
/// the given number of decimals.
pub fn thread_csv_row<F: Fn(Double, usize) -> String>(
    thread: &LinuxThreadSummary<String, Double>,
    fixed: &F,
) -> (row: String)
    requires
        forall|v: Double, d: usize| #[trigger] call_requires(*fixed, (v, d)),
    ensures
        renders(*fixed, thread_columns(*thread), row@),
{
    let mut columns: Vec<Column<String>> = Vec::new();
    columns.push(Column::Text(signed_text(thread.pid as i64)));
    columns.push(Column::Text(signed_text(thread.tgid as i64)));
    columns.push(Column::Text(csv_escape(thread.name.as_str())));
    columns.push(fixed_of(thread.loading_pct, 6));
    columns.push(fixed_of(thread.c0_pct, 6));
    columns.push(fixed_of(thread.c1_pct, 6));
    columns.push(fixed_of(thread.c2_pct, 6));
    columns.push(fixed_of(thread.runnable_pct, 6));
    columns.push(fixed_of(thread.mips, 6));
    columns.push(fixed_of(thread.mcps, 6));
    columns.push(fixed_of(thread.cpi, 6));
    assert(column_views(columns@) =~= thread_columns(*thread));
    render_row(&columns, fixed)
}

// ---------------------------------------------------------------------------
// Reading files
// ---------------------------------------------------------------------------

/// What stops the reading of a recording.
#[derive(Debug, Clone, Copy, PartialEq, Eq, Structural)]
pub enum CsvError {
    /// A sample's row, counted from one, has neither seven nor sixteen fields.
    SampleFields { row: usize },
    /// A thread's row, counted from one, does not have eleven fields.
    ThreadFields { row: usize },
    /// A field is no integer of its type.
    Integer(IntFault),
    /// A field is no floating-point literal.
    Float(FloatFault),
}

impl CsvError {
    /// The error in words.
    pub open spec fn words(self) -> Seq<char> {
        match self {
            CsvError::SampleFields { row } => "invalid local linux csv row "@ + decimal(row as nat)
                + ": expected 7 or 16 fields"@,
            CsvError::ThreadFields { row } => "invalid thread csv row "@ + decimal(row as nat)
                + ": expected 11 fields"@,
            CsvError::Integer(f) => f.words(),
            CsvError::Float(f) => f.words(),
        }
    }

    /// The error in words.
    pub fn message(&self) -> (s: String)
        ensures
            s@ == self.words(),
    {
        match self {
            CsvError::SampleFields { row } => concat3(
                "invalid local linux csv row ",
                decimal_text(*row as u64).as_str(),
                ": expected 7 or 16 fields",
            ),
            CsvError::ThreadFields { row } => concat3(
                "invalid thread csv row ",
                decimal_text(*row as u64).as_str(),
                ": expected 11 fields",
            ),
            CsvError::Integer(f) => f.message(),
            CsvError::Float(f) => f.message(),
        }
    }
}

/// A `u64` field.
pub open spec fn whole_field(f: Seq<char>) -> Result<u64, CsvError> {
    match read_int(f, 0, u64::MAX as int) {
        Ok(n) => Ok(n as u64),
        Err(e) => Err(CsvError::Integer(e)),
    }
}

/// An `i32` field.
pub open spec fn signed_field(f: Seq<char>) -> Result<i32, CsvError> {
    match read_int(f, i32::MIN as int, i32::MAX as int) {
        Ok(n) => Ok(n as i32),
        Err(e) => Err(CsvError::Integer(e)),
    }
}

/// A field that holds a floating-point literal.
pub open spec fn float_field(f: Seq<char>) -> Result<Seq<char>, CsvError> {
    match read_float(f) {
        Ok(t) => Ok(t),
        Err(e) => Err(CsvError::Float(e)),
    }
}

/// The literal in field `i`; zero where the field is missing or blank.
pub open spec fn optional_field(fields: Seq<Seq<char>>, i: int) -> Result<Seq<char>, CsvError> {
    if i < fields.len() && !blank(fields[i]) {
        float_field(fields[i])
    } else {
        Ok("0"@)
    }
}

/// The fault of a field that could not be read.
pub open spec fn fault<T>(r: Result<T, CsvError>) -> Option<CsvError> {
    match r {
        Ok(_) => None,
        Err(e) => Some(e),
    }
}

/// The first fault of two.
pub open spec fn or(a: Option<CsvError>, b: Option<CsvError>) -> Option<CsvError> {
    if a is Some {
        a
    } else {
        b
    }
}

/// The leftmost fault among a sample's fields.
pub open spec fn sample_fault(f: Seq<Seq<char>>) -> Option<CsvError> {
    or(
        fault(whole_field(f[0])),
        or(
            fault(float_field(f[2])),
            or(
                fault(float_field(f[3])),
                or(
                    fault(whole_field(f[4])),
                    or(
                        fault(whole_field(f[5])),
                        or(fault(whole_field(f[6])), optional_fault(f, 7)),
                    ),
                ),
            ),
        ),
    )
}

/// The leftmost fault among the optional fields from `i` on.
pub open spec fn optional_fault(f: Seq<Seq<char>>, i: int) -> Option<CsvError>
    decreases 16 - i,
{
    if i >= 16 {
        None
    } else {
        or(fault(optional_field(f, i)), optional_fault(f, i + 1))
    }
}

/// The sample that a row's fields stand for.
pub open spec fn read_sample(f: Seq<Seq<char>>, row: usize) -> Result<
    LinuxHostSample<Seq<char>>,
    CsvError,
> {
    if f.len() != 7 && f.len() != 16 {
        Err(CsvError::SampleFields { row })
    } else {
        match sample_fault(f) {
            Some(e) => Err(e),
            None => Ok(
                LinuxHostSample {
                    timestamp_ms: whole_field(f[0])->Ok_0,
                    process_name: f[1],
                    cpu_usage_pct: float_field(f[2])->Ok_0,
                    bcpu_usage_pct: float_field(f[3])->Ok_0,
                    mem_total_kb: whole_field(f[4])->Ok_0,
                    mem_available_kb: whole_field(f[5])->Ok_0,
                    top_app_rss_kb: whole_field(f[6])->Ok_0,
                    total_mips: optional_field(f, 7)->Ok_0,
                    total_mcps: optional_field(f, 8)->Ok_0,
                    cpi: optional_field(f, 9)->Ok_0,
                    cache_references_per_sec: optional_field(f, 10)->Ok_0,
                    cache_misses_per_sec: optional_field(f, 11)->Ok_0,
                    cache_miss_rate_pct: optional_field(f, 12)->Ok_0,
                    branch_instructions_per_sec: optional_field(f, 13)->Ok_0,
                    branch_misses_per_sec: optional_field(f, 14)->Ok_0,
                    branch_miss_rate_pct: optional_field(f, 15)->Ok_0,
                },
            ),
        }
    }
}

/// The samples of a file's lines: the first line is the header, blank lines
/// are passed over, and the first row that cannot be read stops the reading.
pub open spec fn samples_of_lines(lines: Seq<Seq<char>>) -> Result<
    Seq<LinuxHostSample<Seq<char>>>,
    CsvError,
>
    decreases lines.len(),
{
    if lines.len() == 0 {
        Ok(Seq::empty())
    } else {
        match samples_of_lines(lines.drop_last()) {
            Err(e) => Err(e),
            Ok(v) => if lines.len() == 1 || blank(lines.last()) {
                Ok(v)
            } else {
                match read_sample(fields_of(lines.last()), lines.len() as usize) {
                    Err(e) => Err(e),
                    Ok(s) => Ok(v.push(s)),
                }
            },
        }
    }
}

/// The samples of a recording.
pub open spec fn samples_of(content: Seq<char>) -> Result<
    Seq<LinuxHostSample<Seq<char>>>,
    CsvError,
> {
    samples_of_lines(lines_of(content))
}

fn read_whole(f: &str) -> (r: Result<u64, CsvError>)
    ensures
        r == whole_field(f@),
{
    match parse_u64(f) {
        Ok(n) => Ok(n),
        Err(e) => Err(CsvError::Integer(e)),
    }
}

fn read_signed(f: &str) -> (r: Result<i32, CsvError>)
    ensures
        r == signed_field(f@),
{
    match parse_i32(f) {
        Ok(n) => Ok(n),
        Err(e) => Err(CsvError::Integer(e)),
    }
}

fn read_literal(f: &str) -> (r: Result<String, CsvError>)
    ensures
        match float_field(f@) {
            Ok(t) => r matches Ok(s) && s@ == t,
            Err(e) => r == Err::<String, CsvError>(e),
        },
{
    match check_float(f) {
        Ok(s) => Ok(s),
        Err(e) => Err(CsvError::Float(e)),
    }
}

fn parse_optional(fields: &Vec<String>, i: usize) -> (r: Result<String, CsvError>)
    ensures
        match optional_field(texts(fields@), i as int) {
            Ok(t) => r matches Ok(s) && s@ == t,
            Err(e) => r == Err::<String, CsvError>(e),
        },
{
    if i < fields.len() {
        assert(texts(fields@)[i as int] == fields@[i as int]@);
        if !is_blank(fields[i].as_str()) {
            return read_literal(fields[i].as_str());
        }
    }
    Ok("0".to_string())
}

fn parse_sample(fields: &Vec<String>, row: usize) -> (r: Result<LinuxHostSample<String>, CsvError>)
    ensures
        match read_sample(texts(fields@), row) {
            Ok(m) => r matches Ok(s) && s@ == m,
            Err(e) => r == Err::<LinuxHostSample<String>, CsvError>(e),
        },
{
    if fields.len() != 7 && fields.len() != 16 {
        return Err(CsvError::SampleFields { row });
    }
    proof {
        let f = texts(fields@);
        assert forall|i: int| 0 <= i < f.len() implies #[trigger] f[i] == fields@[i]@ by {}
        reveal_with_fuel(optional_fault, 10);
    }
    let timestamp_ms: u64 = match read_whole(fields[0].as_str()) {
        Ok(n) => n,
        Err(e) => return Err(e),
    };
    let process_name = fields[1].clone();
    let cpu_usage_pct = match read_literal(fields[2].as_str()) {
        Ok(t) => t,
        Err(e) => return Err(e),
    };
    let bcpu_usage_pct = match read_literal(fields[3].as_str()) {
        Ok(t) => t,
        Err(e) => return Err(e),
    };
    let mem_total_kb: u64 = match read_whole(fields[4].as_str()) {
        Ok(n) => n,
        Err(e) => return Err(e),
    };
    let mem_available_kb: u64 = match read_whole(fields[5].as_str()) {
        Ok(n) => n,
        Err(e) => return Err(e),
    };
    let top_app_rss_kb: u64 = match read_whole(fields[6].as_str()) {
        Ok(n) => n,
        Err(e) => return Err(e),
    };
    let total_mips = match parse_optional(fields, 7) {
        Ok(t) => t,
        Err(e) => return Err(e),
    };
    let total_mcps = match parse_optional(fields, 8) {
        Ok(t) => t,
        Err(e) => return Err(e),
    };
    let cpi = match parse_optional(fields, 9) {
        Ok(t) => t,
        Err(e) => return Err(e),
    };
    let cache_references_per_sec = match parse_optional(fields, 10) {
        Ok(t) => t,
        Err(e) => return Err(e),
    };
    let cache_misses_per_sec = match parse_optional(fields, 11) {
        Ok(t) => t,
        Err(e) => return Err(e),
    };
    let cache_miss_rate_pct = match parse_optional(fields, 12) {
        Ok(t) => t,
        Err(e) => return Err(e),
    };
    let branch_instructions_per_sec = match parse_optional(fields, 13) {
        Ok(t) => t,
        Err(e) => return Err(e),
    };
    let branch_misses_per_sec = match parse_optional(fields, 14) {
        Ok(t) => t,
        Err(e) => return Err(e),
    };
    let branch_miss_rate_pct = match parse_optional(fields, 15) {
        Ok(t) => t,
        Err(e) => return Err(e),
    };
    Ok(
        LinuxHostSample {
            timestamp_ms,
            process_name,
            cpu_usage_pct,
            bcpu_usage_pct,
            mem_total_kb,
            mem_available_kb,
            top_app_rss_kb,
            total_mips,
            total_mcps,
            cpi,
            cache_references_per_sec,
            cache_misses_per_sec,
            cache_miss_rate_pct,
            branch_instructions_per_sec,
            branch_misses_per_sec,
            branch_miss_rate_pct,
        },
    )
}

pub open spec fn sample_views(v: Seq<LinuxHostSample<String>>) -> Seq<LinuxHostSample<Seq<char>>> {
    v.map_values(|s: LinuxHostSample<String>| s@)
}

proof fn lemma_samples_stop(lines: Seq<Seq<char>>, n: int)
    requires
        0 <= n <= lines.len(),
        samples_of_lines(lines.take(n)) is Err,
    ensures
        samples_of_lines(lines) == samples_of_lines(lines.take(n)),
    decreases lines.len(),
{
    if n == lines.len() {
        assert(lines.take(n) =~= lines);
    } else {
        assert(lines.drop_last().take(n) =~= lines.take(n));
        lemma_samples_stop(lines.drop_last(), n);
    }
}

/// Reads the samples of a recording.
pub fn parse_local_linux_csv(content: &str) -> (r: Result<Vec<LinuxHostSample<String>>, CsvError>)
    ensures
        match samples_of(content@) {
            Ok(v) => r matches Ok(samples) && sample_views(samples@) == v,
            Err(e) => r == Err::<Vec<LinuxHostSample<String>>, CsvError>(e),
        },
{
    let rows = lines(content);
    let ghost all = texts(rows@);
    let mut samples: Vec<LinuxHostSample<String>> = Vec::new();
    let mut i: usize = 0;
    assert(sample_views(samples@) =~= Seq::empty());
    while i < rows.len()
        invariant
            all == texts(rows@),
            all == lines_of(content@),
            i <= rows@.len(),
            samples_of_lines(all.take(i as int)) == Ok::<
                Seq<LinuxHostSample<Seq<char>>>,
                CsvError,
            >(sample_views(samples@)),
        decreases rows.len() - i,
    {
        let ghost t = all.take(i as int + 1);
        proof {
            assert(t.drop_last() =~= all.take(i as int));
            assert(t.last() == rows@[i as int]@);
        }
        if i != 0 && !is_blank(rows[i].as_str()) {
            let fields = parse_csv_line(rows[i].as_str());
            match parse_sample(&fields, i + 1) {
                Ok(s) => {
                    let ghost before = sample_views(samples@);
                    samples.push(s);
                    assert(sample_views(samples@) =~= before.push(s@));
                },
                Err(e) => {
                    proof {
                        lemma_samples_stop(all, i as int + 1);
                    }
                    return Err(e);
                },
            }
        }
        i += 1;
    }
    assert(all.take(all.len() as int) =~= all);
    Ok(samples)
}

/// The leftmost fault among a thread's fields.
pub open spec fn thread_fault(f: Seq<Seq<char>>) -> Option<CsvError> {
    or(fault(signed_field(f[0])), or(fault(signed_field(f[1])), float_fault(f, 3)))
}

/// The leftmost fault among the measured fields from `i` on.
pub open spec fn float_fault(f: Seq<Seq<char>>, i: int) -> Option<CsvError>
    decreases 11 - i,
{
    if i >= 11 {
        None
    } else {
        or(fault(float_field(f[i])), float_fault(f, i + 1))
    }
}

/// The thread summary that a row's fields stand for.
pub open spec fn read_thread(f: Seq<Seq<char>>, row: usize) -> Result<
    LinuxThreadSummary<Seq<char>, Seq<char>>,
    CsvError,
> {
    if f.len() != 11 {
        Err(CsvError::ThreadFields { row })
    } else {
        match thread_fault(f) {
            Some(e) => Err(e),
            None => Ok(
                LinuxThreadSummary {
                    pid: signed_field(f[0])->Ok_0,
                    tgid: signed_field(f[1])->Ok_0,
                    name: f[2],
                    loading_pct: float_field(f[3])->Ok_0,
                    c0_pct: float_field(f[4])->Ok_0,
                    c1_pct: float_field(f[5])->Ok_0,
                    c2_pct: float_field(f[6])->Ok_0,
                    runnable_pct: float_field(f[7])->Ok_0,
                    mips: float_field(f[8])->Ok_0,
                    mcps: float_field(f[9])->Ok_0,
                    cpi: float_field(f[10])->Ok_0,
                },
            ),
        }
    }
}

/// The thread summaries of a file's lines: the first line is the header,
/// blank lines are passed over, and the first row that cannot be read stops
/// the reading.
pub open spec fn threads_of_lines(lines: Seq<Seq<char>>) -> Result<
    Seq<LinuxThreadSummary<Seq<char>, Seq<char>>>,
    CsvError,
>
    decreases lines.len(),
{
    if lines.len() == 0 {
        Ok(Seq::empty())
    } else {
        match threads_of_lines(lines.drop_last()) {
            Err(e) => Err(e),
            Ok(v) => if lines.len() == 1 || blank(lines.last()) {
                Ok(v)
            } else {
                match read_thread(fields_of(lines.last()), lines.len() as usize) {
                    Err(e) => Err(e),
                    Ok(s) => Ok(v.push(s)),
                }
            },
        }
    }
}

/// The thread summaries of a file that may be missing.
pub open spec fn threads_of(content: Option<Seq<char>>) -> Result<
    Seq<LinuxThreadSummary<Seq<char>, Seq<char>>>,
    CsvError,
> {
    match content {
        None => Ok(Seq::empty()),
        Some(c) => threads_of_lines(lines_of(c)),
    }
}

fn parse_thread(fields: &Vec<String>, row: usize) -> (r: Result<
    LinuxThreadSummary<String, String>,
    CsvError,
>)
    ensures
        match read_thread(texts(fields@), row) {
            Ok(m) => r matches Ok(s) && s@ == m,
            Err(e) => r == Err::<LinuxThreadSummary<String, String>, CsvError>(e),
        },
{
    if fields.len() != 11 {
        return Err(CsvError::ThreadFields { row });
    }
    proof {
        let f = texts(fields@);
        assert forall|i: int| 0 <= i < f.len() implies #[trigger] f[i] == fields@[i]@ by {}
        reveal_with_fuel(float_fault, 9);
    }
    let pid: i32 = match read_signed(fields[0].as_str()) {
        Ok(n) => n,
        Err(e) => return Err(e),
    };
    let tgid: i32 = match read_signed(fields[1].as_str()) {
        Ok(n) => n,
        Err(e) => return Err(e),
    };
    let name = fields[2].clone();
    let loading_pct = match read_literal(fields[3].as_str()) {
        Ok(t) => t,
        Err(e) => return Err(e),
    };
    let c0_pct = match read_literal(fields[4].as_str()) {
        Ok(t) => t,
        Err(e) => return Err(e),
    };
    let c1_pct = match read_literal(fields[5].as_str()) {
        Ok(t) => t,
        Err(e) => return Err(e),
    };
    let c2_pct = match read_literal(fields[6].as_str()) {
        Ok(t) => t,
        Err(e) => return Err(e),
    };
    let runnable_pct = match read_literal(fields[7].as_str()) {
        Ok(t) => t,
        Err(e) => return Err(e),
    };
    let mips = match read_literal(fields[8].as_str()) {
        Ok(t) => t,
        Err(e) => return Err(e),
    };
    let mcps = match read_literal(fields[9].as_str()) {
        Ok(t) => t,
        Err(e) => return Err(e),
    };
    let cpi = match read_literal(fields[10].as_str()) {
        Ok(t) => t,
        Err(e) => return Err(e),
    };
    Ok(
        LinuxThreadSummary {
            pid,
            tgid,
            name,
            loading_pct,
            c0_pct,
            c1_pct,
            c2_pct,
            runnable_pct,
            mips,
            mcps,
            cpi,
        },
    )
}

pub open spec fn thread_views(v: Seq<LinuxThreadSummary<String, String>>) -> Seq<
    LinuxThreadSummary<Seq<char>, Seq<char>>,
> {
    v.map_values(|s: LinuxThreadSummary<String, String>| s@)
}

proof fn lemma_threads_stop(lines: Seq<Seq<char>>, n: int)
    requires
        0 <= n <= lines.len(),
        threads_of_lines(lines.take(n)) is Err,
    ensures
        threads_of_lines(lines) == threads_of_lines(lines.take(n)),
    decreases lines.len(),
{
    if n == lines.len() {
        assert(lines.take(n) =~= lines);
    } else {
        assert(lines.drop_last().take(n) =~= lines.take(n));
        lemma_threads_stop(lines.drop_last(), n);
    }
}

/// Reads the thread summaries of a file; a file that is missing holds none.
pub fn parse_thread_summary_csv(content: Option<&str>) -> (r: Result<
    Vec<LinuxThreadSummary<String, String>>,
    CsvError,
>)
    ensures
        match threads_of(
            match content {
                Some(c) => Some(c@),
                None => None,
            },
        ) {
            Ok(v) => r matches Ok(threads) && thread_views(threads@) == v,
            Err(e) => r == Err::<Vec<LinuxThreadSummary<String, String>>, CsvError>(e),
        },
{
    let mut threads: Vec<LinuxThreadSummary<String, String>> = Vec::new();
    assert(thread_views(threads@) =~= Seq::empty());
    let file: &str = match content {
        None => {
            return Ok(threads);
        },
        Some(c) => c,
    };
    let rows = lines(file);
    let ghost all = texts(rows@);
    let mut i: usize = 0;
    while i < rows.len()
        invariant
            content == Some(file),
            all == texts(rows@),
            all == lines_of(file@),
            i <= rows@.len(),
            threads_of_lines(all.take(i as int)) == Ok::<
                Seq<LinuxThreadSummary<Seq<char>, Seq<char>>>,
                CsvError,
            >(thread_views(threads@)),
        decreases rows.len() - i,
    {
        let ghost t = all.take(i as int + 1);
        proof {
            assert(t.drop_last() =~= all.take(i as int));
            assert(t.last() == rows@[i as int]@);
        }
        if i != 0 && !is_blank(rows[i].as_str()) {
            let fields = parse_csv_line(rows[i].as_str());
            match parse_thread(&fields, i + 1) {
                Ok(s) => {
                    let ghost before = thread_views(threads@);
                    threads.push(s);
                    assert(thread_views(threads@) =~= before.push(s@));
                },
                Err(e) => {
                    proof {
                        lemma_threads_stop(all, i as int + 1);
                    }
                    return Err(e);
                },
            }
        }
        i += 1;
    }
    assert(all.take(all.len() as int) =~= all);
    Ok(threads)
}

/// The name of the thread summary file beside a recording whose name is
/// `stem`, or `fallback` where it has none that is text.
pub fn threads_file_name(stem: Option<&str>, fallback: &str) -> (name: String)
    ensures
        name@ == (match stem {
            Some(s) => s@,
            None => fallback@,
        }) + ".threads.csv"@,
{
    match stem {
        Some(s) => crate::text::concat2(s, ".threads.csv"),
        None => crate::text::concat2(fallback, ".threads.csv"),
    }
}

} // verus!
