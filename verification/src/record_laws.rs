//! What a recording gives back: reading a file that was written row by row
//! yields the samples and threads that were recorded.
use vstd::prelude::*;
use crate::csv::{escaped, fields_of, law_row_reads_back, plain};
use crate::double::Double;
use crate::local_linux_record::{
    Column, CsvError, LinuxHostSample, LinuxThreadSummary, all_fit, first_usage, fits, float_fault,
    float_field, may_write, optional_fault, optional_field, point_columns, read_sample, read_thread,
    renders, rtb_header, samples_of, samples_of_lines, signed_field, thread_columns, thread_header,
    threads_of, threads_of_lines, whole_field,
};
use crate::number::{
    decimal, decimal_signed, float_literal, law_decimal_reads_back, lemma_decimal_signed_chars,
    lemma_float_literal_chars, literal_char,
};
use crate::proto::RtbDataPoint;
use crate::text::{
    blank, file_text, joined, law_file_lines, lemma_joined_contains, lemma_joined_ends, replaced,
    texts, white, without_cr,
};

verus! {

/// Whether all that `fixed` writes are floating-point literals.
pub open spec fn writes_literals<F: Fn(Double, usize) -> String>(fixed: F) -> bool {
    forall|v: Double, d: usize, s: String|
        #[trigger] may_write(fixed, v, d, s) ==> float_literal(s@)
}

/// Whether a text is what `fixed` may write for a value.
pub open spec fn written<F: Fn(Double, usize) -> String>(
    fixed: F,
    value: Double,
    decimals: usize,
    text: Seq<char>,
) -> bool {
    exists|s: String| #[trigger] may_write(fixed, value, decimals, s) && text == s@
}

/// Whether a sample is what a recorded point reads back as: the integers and
/// the name as they were, each measured value as `fixed` wrote it.
pub open spec fn sample_matches<F: Fn(Double, usize) -> String>(
    fixed: F,
    p: RtbDataPoint,
    s: LinuxHostSample<Seq<char>>,
) -> bool {
    &&& s.timestamp_ms == p.timestamp_ms
    &&& s.process_name == p.process_name@
    &&& s.mem_total_kb == p.mem_total_kb
    &&& s.mem_available_kb == p.mem_available_kb
    &&& s.top_app_rss_kb == p.top_app_rss_kb
    &&& written(fixed, first_usage(p.cpu_usages_pct@), 3, s.cpu_usage_pct)
    &&& written(fixed, p.bcpu_usage_pct, 3, s.bcpu_usage_pct)
    &&& written(fixed, p.total_mips, 6, s.total_mips)
    &&& written(fixed, p.total_mcps, 6, s.total_mcps)
    &&& written(fixed, p.cpi, 6, s.cpi)
    &&& written(fixed, p.cache_references_per_sec, 3, s.cache_references_per_sec)
    &&& written(fixed, p.cache_misses_per_sec, 3, s.cache_misses_per_sec)
    &&& written(fixed, p.cache_miss_rate_pct, 6, s.cache_miss_rate_pct)
    &&& written(fixed, p.branch_instructions_per_sec, 3, s.branch_instructions_per_sec)
    &&& written(fixed, p.branch_misses_per_sec, 3, s.branch_misses_per_sec)
    &&& written(fixed, p.branch_miss_rate_pct, 6, s.branch_miss_rate_pct)
}

/// Whether a summary is what a recorded thread reads back as.
pub open spec fn thread_matches<F: Fn(Double, usize) -> String>(
    fixed: F,
    t: LinuxThreadSummary<String, Double>,
    s: LinuxThreadSummary<Seq<char>, Seq<char>>,
) -> bool {
    &&& s.pid == t.pid
    &&& s.tgid == t.tgid
    &&& s.name == t.name@
    &&& written(fixed, t.loading_pct, 6, s.loading_pct)
    &&& written(fixed, t.c0_pct, 6, s.c0_pct)
    &&& written(fixed, t.c1_pct, 6, s.c1_pct)
    &&& written(fixed, t.c2_pct, 6, s.c2_pct)
    &&& written(fixed, t.runnable_pct, 6, s.runnable_pct)
    &&& written(fixed, t.mips, 6, s.mips)
    &&& written(fixed, t.mcps, 6, s.mcps)
    &&& written(fixed, t.cpi, 6, s.cpi)
}

/// A cell of literal characters: it needs no quotes and is not blank.
spec fn solid(c: Seq<char>) -> bool {
    c.len() > 0 && forall|k: int| 0 <= k < c.len() ==> literal_char(#[trigger] c[k])
}

proof fn lemma_solid(c: Seq<char>)
    requires
        solid(c),
    ensures
        plain(c),
        !blank(c),
        !white(c[0]),
        c.last() != '\r',
        escaped(c) == c,
{
    assert(literal_char(c[0]));
    assert(literal_char(c[c.len() - 1]));
}

proof fn lemma_integer_cell(n: int)
    ensures
        solid(decimal_signed(n)),
{
    lemma_decimal_signed_chars(n);
}

proof fn lemma_value_cell<F: Fn(Double, usize) -> String>(
    fixed: F,
    value: Double,
    decimals: usize,
    cell: String,
)
    requires
        writes_literals(fixed),
        may_write(fixed, value, decimals, cell),
    ensures
        solid(cell@),
        float_field(cell@) == Ok::<Seq<char>, CsvError>(cell@),
        written(fixed, value, decimals, cell@),
{
    assert(float_literal(cell@));
    lemma_float_literal_chars(cell@);
}

proof fn lemma_replaced_without(s: Seq<char>, from: char, to: Seq<char>, c: char)
    requires
        !s.contains(c),
        !to.contains(c),
    ensures
        !replaced(s, from, to).contains(c),
    decreases s.len(),
{
    if s.len() > 0 {
        let init = s.drop_last();
        assert(!init.contains(c)) by {
            assert forall|i: int| 0 <= i < init.len() implies init[i] != c by {
                assert(s.contains(s[i]));
            }
        }
        lemma_replaced_without(init, from, to, c);
        assert(s.contains(s.last()));
        let a = replaced(init, from, to);
        let b = if s.last() == from { to } else { seq![s.last()] };
        assert forall|i: int| 0 <= i < (a + b).len() implies (a + b)[i] != c by {
            if i < a.len() {
                assert(a.contains(a[i]));
            } else {
                assert(b.contains(b[i - a.len()]));
            }
        }
    }
}

proof fn lemma_escaped_keeps_lines(s: Seq<char>)
    requires
        !s.contains('\n'),
    ensures
        !escaped(s).contains('\n'),
{
    if !plain(s) {
        let dq = seq!['"', '"'];
        lemma_replaced_without(s, '"', dq, '\n');
        let body = replaced(s, '"', dq);
        let e = seq!['"'] + body + seq!['"'];
        assert forall|i: int| 0 <= i < e.len() implies e[i] != '\n' by {
            if 0 < i < e.len() - 1 {
                assert(body.contains(body[i - 1]));
            }
        }
    }
}

/// A row whose cells are solid, but for the name at `at`, which is escaped:
/// it reads back as those cells with the name as it was.
proof fn lemma_row_fields(cells: Seq<Seq<char>>, at: int, name: Seq<char>)
    requires
        0 < at < cells.len() - 1,
        cells[at] == escaped(name),
        forall|i: int| 0 <= i < cells.len() && i != at ==> solid(#[trigger] cells[i]),
    ensures
        fields_of(joined(cells, seq![','])) == cells.update(at, name),
        !blank(joined(cells, seq![','])),
        without_cr(joined(cells, seq![','])) == joined(cells, seq![',']),
        !name.contains('\n') ==> !joined(cells, seq![',']).contains('\n'),
{
    let fields = cells.update(at, name);
    assert forall|i: int| 0 <= i < cells.len() implies #[trigger] cells[i] == escaped(
        fields[i],
    ) by {
        if i != at {
            assert(solid(cells[i]));
            lemma_solid(cells[i]);
        }
    }
    assert(fields.map_values(|f: Seq<char>| escaped(f)) =~= cells);
    law_row_reads_back(fields);
    let row = joined(cells, seq![',']);
    assert(solid(cells[0]));
    assert(solid(cells[cells.len() - 1]));
    lemma_solid(cells[0]);
    lemma_solid(cells.last());
    lemma_joined_ends(cells, seq![',']);
    assert(!white(row[0]));
    if !name.contains('\n') {
        if row.contains('\n') {
            lemma_joined_contains(cells, seq![','], '\n');
            let i = choose|i: int| 0 <= i < cells.len() && (#[trigger] cells[i]).contains('\n');
            if i == at {
                lemma_escaped_keeps_lines(name);
            } else {
                assert(solid(cells[i]));
                lemma_solid(cells[i]);
            }
        }
    }
}

/// The fields of a row whose cells fit `columns`, with the name at `at`.
proof fn lemma_fitting_row<F: Fn(Double, usize) -> String>(
    fixed: F,
    columns: Seq<Column<Seq<char>>>,
    cells: Seq<String>,
    at: int,
    name: Seq<char>,
)
    requires
        writes_literals(fixed),
        all_fit(fixed, columns, cells),
        0 < at < columns.len() - 1,
        columns[at] == Column::Text(escaped(name)),
        forall|i: int|
            0 <= i < columns.len() && i != at ==> ((#[trigger] columns[i]) matches Column::Text(t)
                ==> solid(t)),
    ensures
        ({
            let row = joined(texts(cells), seq![',']);
            let f = texts(cells).update(at, name);
            &&& fields_of(row) == f
            &&& !blank(row)
            &&& without_cr(row) == row
            &&& !name.contains('\n') ==> !row.contains('\n')
            &&& forall|i: int|
                0 <= i < columns.len() && i != at ==> cell_reads(fixed, #[trigger] columns[i], f, i)
        }),
{
    let t = texts(cells);
    assert forall|i: int| 0 <= i < t.len() && i != at implies solid(#[trigger] t[i]) && cell_reads(
        fixed,
        columns[i],
        t.update(at, name),
        i,
    ) by {
        assert(fits(fixed, columns[i], cells[i]));
        if columns[i] is Fixed {
            lemma_value_cell(fixed, columns[i]->value, columns[i]->decimals, cells[i]);
            lemma_solid(cells[i]@);
        }
    }
    assert(fits(fixed, columns[at], cells[at]));
    lemma_row_fields(t, at, name);
    assert forall|i: int| 0 <= i < columns.len() && i != at implies cell_reads(
        fixed,
        #[trigger] columns[i],
        t.update(at, name),
        i,
    ) by {
        assert(solid(t[i]));
    }
}

/// What field `i` of a row reads as, where it was written for `column`.
spec fn cell_reads<F: Fn(Double, usize) -> String>(
    fixed: F,
    column: Column<Seq<char>>,
    f: Seq<Seq<char>>,
    i: int,
) -> bool {
    match column {
        Column::Text(t) => f[i] == t,
        Column::Fixed { value, decimals } => {
            &&& float_field(f[i]) == Ok::<Seq<char>, CsvError>(f[i])
            &&& optional_field(f, i) == Ok::<Seq<char>, CsvError>(f[i])
            &&& written(fixed, value, decimals, f[i])
        },
    }
}

proof fn lemma_whole_cell(n: u64)
    ensures
        whole_field(decimal(n as nat)) == Ok::<u64, CsvError>(n),
        solid(decimal(n as nat)),
{
    law_decimal_reads_back(n as int, 0, u64::MAX as int);
    lemma_integer_cell(n as int);
}

proof fn lemma_signed_cell(n: i32)
    ensures
        signed_field(decimal_signed(n as int)) == Ok::<i32, CsvError>(n),
        solid(decimal_signed(n as int)),
{
    law_decimal_reads_back(n as int, i32::MIN as int, i32::MAX as int);
    lemma_integer_cell(n as int);
}

/// The row of a point reads back as a sample that matches it.
pub proof fn law_sample_row_reads_back<F: Fn(Double, usize) -> String>(
    fixed: F,
    p: RtbDataPoint,
    row: Seq<char>,
    number: usize,
)
    requires
        writes_literals(fixed),
        renders(fixed, point_columns(p), row),
    ensures
        read_sample(fields_of(row), number) is Ok,
        sample_matches(fixed, p, read_sample(fields_of(row), number)->Ok_0),
        !blank(row),
        without_cr(row) == row,
        !p.process_name@.contains('\n') ==> !row.contains('\n'),
{
    let columns = point_columns(p);
    let cells = choose|cells: Seq<String>| #[trigger]
        all_fit(fixed, columns, cells) && row == joined(texts(cells), seq![',']);
    lemma_whole_cell(p.timestamp_ms);
    lemma_whole_cell(p.mem_total_kb);
    lemma_whole_cell(p.mem_available_kb);
    lemma_whole_cell(p.top_app_rss_kb);
    lemma_fitting_row(fixed, columns, cells, 1, p.process_name@);
    let f = fields_of(row);
    assert(cell_reads(fixed, columns[0], f, 0));
    assert(cell_reads(fixed, columns[2], f, 2));
    assert(cell_reads(fixed, columns[3], f, 3));
    assert(cell_reads(fixed, columns[4], f, 4));
    assert(cell_reads(fixed, columns[5], f, 5));
    assert(cell_reads(fixed, columns[6], f, 6));
    assert(cell_reads(fixed, columns[7], f, 7));
    assert(cell_reads(fixed, columns[8], f, 8));
    assert(cell_reads(fixed, columns[9], f, 9));
    assert(cell_reads(fixed, columns[10], f, 10));
    assert(cell_reads(fixed, columns[11], f, 11));
    assert(cell_reads(fixed, columns[12], f, 12));
    assert(cell_reads(fixed, columns[13], f, 13));
    assert(cell_reads(fixed, columns[14], f, 14));
    assert(cell_reads(fixed, columns[15], f, 15));
    reveal_with_fuel(optional_fault, 10);
}

/// The row of a thread reads back as a summary that matches it.
pub proof fn law_thread_row_reads_back<F: Fn(Double, usize) -> String>(
    fixed: F,
    t: LinuxThreadSummary<String, Double>,
    row: Seq<char>,
    number: usize,
)
    requires
        writes_literals(fixed),
        renders(fixed, thread_columns(t), row),
    ensures
        read_thread(fields_of(row), number) is Ok,
        thread_matches(fixed, t, read_thread(fields_of(row), number)->Ok_0),
        !blank(row),
        without_cr(row) == row,
        !t.name@.contains('\n') ==> !row.contains('\n'),
{
    let columns = thread_columns(t);
    let cells = choose|cells: Seq<String>| #[trigger]
        all_fit(fixed, columns, cells) && row == joined(texts(cells), seq![',']);
    lemma_signed_cell(t.pid);
    lemma_signed_cell(t.tgid);
    lemma_fitting_row(fixed, columns, cells, 2, t.name@);
    let f = fields_of(row);
    assert(cell_reads(fixed, columns[0], f, 0));
    assert(cell_reads(fixed, columns[1], f, 1));
    assert(cell_reads(fixed, columns[3], f, 3));
    assert(cell_reads(fixed, columns[4], f, 4));
    assert(cell_reads(fixed, columns[5], f, 5));
    assert(cell_reads(fixed, columns[6], f, 6));
    assert(cell_reads(fixed, columns[7], f, 7));
    assert(cell_reads(fixed, columns[8], f, 8));
    assert(cell_reads(fixed, columns[9], f, 9));
    assert(cell_reads(fixed, columns[10], f, 10));
    reveal_with_fuel(float_fault, 9);
}

proof fn lemma_sample_lines<F: Fn(Double, usize) -> String>(
    fixed: F,
    points: Seq<RtbDataPoint>,
    lines: Seq<Seq<char>>,
)
    requires
        writes_literals(fixed),
        lines.len() == points.len() + 1,
        forall|i: int|
            0 <= i < points.len() ==> renders(
                fixed,
                point_columns(#[trigger] points[i]),
                lines[i + 1],
            ),
    ensures
        samples_of_lines(lines) is Ok,
        samples_of_lines(lines)->Ok_0.len() == points.len(),
        forall|i: int|
            0 <= i < points.len() ==> sample_matches(
                fixed,
                #[trigger] points[i],
                samples_of_lines(lines)->Ok_0[i],
            ),
    decreases points.len(),
{
    let init = lines.drop_last();
    if points.len() == 0 {
        reveal_with_fuel(samples_of_lines, 2);
        assert(init.len() == 0);
    } else {
        let before = points.drop_last();
        assert forall|i: int| 0 <= i < before.len() implies renders(
            fixed,
            point_columns(#[trigger] before[i]),
            init[i + 1],
        ) by {
            assert(before[i] == points[i]);
        }
        lemma_sample_lines(fixed, before, init);
        let last = points[points.len() - 1];
        assert(lines[points.len() - 1 + 1] == lines.last());
        law_sample_row_reads_back(fixed, last, lines.last(), lines.len() as usize);
        assert forall|i: int| 0 <= i < points.len() implies sample_matches(
            fixed,
            #[trigger] points[i],
            samples_of_lines(lines)->Ok_0[i],
        ) by {
            if i < before.len() {
                assert(before[i] == points[i]);
            }
        }
    }
}

/// A recording reads back: where a file is the header and one row for each
/// point, and no process name holds a line feed, reading the file gives one
/// sample for each point, in order, that matches it.
pub proof fn law_recording_reads_back<F: Fn(Double, usize) -> String>(
    fixed: F,
    points: Seq<RtbDataPoint>,
    rows: Seq<Seq<char>>,
)
    requires
        writes_literals(fixed),
        rows.len() == points.len(),
        forall|i: int|
            0 <= i < points.len() ==> renders(fixed, point_columns(#[trigger] points[i]), rows[i]),
        forall|i: int|
            0 <= i < points.len() ==> !(#[trigger] points[i]).process_name@.contains('\n'),
    ensures
        ({
            let read = samples_of(file_text(seq![rtb_header()] + rows));
            &&& read is Ok
            &&& read->Ok_0.len() == points.len()
            &&& forall|i: int|
                0 <= i < points.len() ==> sample_matches(
                    fixed,
                    #[trigger] points[i],
                    read->Ok_0[i],
                )
        }),
{
    let lines = seq![rtb_header()] + rows;
    lemma_rtb_header();
    assert forall|i: int| 0 <= i < lines.len() implies !(#[trigger] lines[i]).contains('\n')
        && without_cr(lines[i]) == lines[i] by {
        if i > 0 {
            let p = points[i - 1];
            assert(lines[i] == rows[i - 1]);
            law_sample_row_reads_back(fixed, p, rows[i - 1], 0);
        }
    }
    law_file_lines(lines);
    assert forall|i: int| 0 <= i < points.len() implies renders(
        fixed,
        point_columns(#[trigger] points[i]),
        lines[i + 1],
    ) by {
        assert(lines[i + 1] == rows[i]);
    }
    lemma_sample_lines(fixed, points, lines);
}

proof fn lemma_rtb_header()
    ensures
        !rtb_header().contains('\n'),
        without_cr(rtb_header()) == rtb_header(),
{
    reveal_strlit(
        "timestamp_ms,process_name,cpu_usage_pct,bcpu_usage_pct,mem_total_kb,mem_available_kb,top_app_rss_kb,total_mips,total_mcps,cpi,cache_references_per_sec,cache_misses_per_sec,cache_miss_rate_pct,branch_instructions_per_sec,branch_misses_per_sec,branch_miss_rate_pct",
    );
}

proof fn lemma_thread_header()
    ensures
        !thread_header().contains('\n'),
        without_cr(thread_header()) == thread_header(),
{
    reveal_strlit("pid,tgid,name,loading_pct,c0_pct,c1_pct,c2_pct,runnable_pct,mips,mcps,cpi");
}

proof fn lemma_thread_lines<F: Fn(Double, usize) -> String>(
    fixed: F,
    threads: Seq<LinuxThreadSummary<String, Double>>,
    lines: Seq<Seq<char>>,
)
    requires
        writes_literals(fixed),
        lines.len() == threads.len() + 1,
        forall|i: int|
            0 <= i < threads.len() ==> renders(
                fixed,
                thread_columns(#[trigger] threads[i]),
                lines[i + 1],
            ),
    ensures
        threads_of_lines(lines) is Ok,
        threads_of_lines(lines)->Ok_0.len() == threads.len(),
        forall|i: int|
            0 <= i < threads.len() ==> thread_matches(
                fixed,
                #[trigger] threads[i],
                threads_of_lines(lines)->Ok_0[i],
            ),
    decreases threads.len(),
{
    let init = lines.drop_last();
    if threads.len() == 0 {
        reveal_with_fuel(threads_of_lines, 2);
        assert(init.len() == 0);
    } else {
        let before = threads.drop_last();
        assert forall|i: int| 0 <= i < before.len() implies renders(
            fixed,
            thread_columns(#[trigger] before[i]),
            init[i + 1],
        ) by {
            assert(before[i] == threads[i]);
        }
        lemma_thread_lines(fixed, before, init);
        let last = threads[threads.len() - 1];
        assert(lines[threads.len() - 1 + 1] == lines.last());
        law_thread_row_reads_back(fixed, last, lines.last(), lines.len() as usize);
        assert forall|i: int| 0 <= i < threads.len() implies thread_matches(
            fixed,
            #[trigger] threads[i],
            threads_of_lines(lines)->Ok_0[i],
        ) by {
            if i < before.len() {
                assert(before[i] == threads[i]);
            }
        }
    }
}

/// A thread summary file reads back: where a file is the header and one row
/// for each thread, and no thread name holds a line feed, reading the file
/// gives one summary for each thread, in order, that matches it.
pub proof fn law_thread_summary_reads_back<F: Fn(Double, usize) -> String>(
    fixed: F,
    threads: Seq<LinuxThreadSummary<String, Double>>,
    rows: Seq<Seq<char>>,
)
    requires
        writes_literals(fixed),
        rows.len() == threads.len(),
        forall|i: int|
            0 <= i < threads.len() ==> renders(
                fixed,
                thread_columns(#[trigger] threads[i]),
                rows[i],
            ),
        forall|i: int| 0 <= i < threads.len() ==> !(#[trigger] threads[i]).name@.contains('\n'),
    ensures
        ({
            let read = threads_of(Some(file_text(seq![thread_header()] + rows)));
            &&& read is Ok
            &&& read->Ok_0.len() == threads.len()
            &&& forall|i: int|
                0 <= i < threads.len() ==> thread_matches(
                    fixed,
                    #[trigger] threads[i],
                    read->Ok_0[i],
                )
        }),
{
    let lines = seq![thread_header()] + rows;
    lemma_thread_header();
    assert forall|i: int| 0 <= i < lines.len() implies !(#[trigger] lines[i]).contains('\n')
        && without_cr(lines[i]) == lines[i] by {
        if i > 0 {
            let t = threads[i - 1];
            assert(lines[i] == rows[i - 1]);
            law_thread_row_reads_back(fixed, t, rows[i - 1], 0);
        }
    }
    law_file_lines(lines);
    assert forall|i: int| 0 <= i < threads.len() implies renders(
        fixed,
        thread_columns(#[trigger] threads[i]),
        lines[i + 1],
    ) by {
        assert(lines[i + 1] == rows[i]);
    }
    lemma_thread_lines(fixed, threads, lines);
}

/// The next name of a header, with the comma before it.
proof fn lemma_name_joins(names: Seq<Seq<char>>, header: Seq<char>, k: int, at: int)
    requires
        0 < k < names.len(),
        0 <= at,
        at + 1 + names[k].len() <= header.len(),
        joined(names.take(k), seq![',']) == header.take(at),
        header[at] == ',',
        forall|i: int| 0 <= i < names[k].len() ==> header[at + 1 + i] == #[trigger] names[k][i],
    ensures
        joined(names.take(k + 1), seq![',']) == header.take(at + 1 + names[k].len()),
{
    assert(names.take(k + 1).drop_last() =~= names.take(k));
    assert(header.take(at) + seq![','] + names[k] =~= header.take(at + 1 + names[k].len()));
}

/// The names of a thread summary's columns, in the order of its rows.
pub open spec fn thread_names() -> Seq<Seq<char>> {
    seq![
        "pid"@,
        "tgid"@,
        "name"@,
        "loading_pct"@,
        "c0_pct"@,
        "c1_pct"@,
        "c2_pct"@,
        "runnable_pct"@,
        "mips"@,
        "mcps"@,
        "cpi"@,
    ]
}

/// The names of a recording's columns, in the order of its rows.
pub open spec fn sample_names() -> Seq<Seq<char>> {
    seq![
        "timestamp_ms"@,
        "process_name"@,
        "cpu_usage_pct"@,
        "bcpu_usage_pct"@,
        "mem_total_kb"@,
        "mem_available_kb"@,
        "top_app_rss_kb"@,
        "total_mips"@,
        "total_mcps"@,
        "cpi"@,
        "cache_references_per_sec"@,
        "cache_misses_per_sec"@,
        "cache_miss_rate_pct"@,
        "branch_instructions_per_sec"@,
        "branch_misses_per_sec"@,
        "branch_miss_rate_pct"@,
    ]
}

proof fn lemma_thread_names()
    ensures
        fields_of(thread_header()) == thread_names(),
{
    let names = thread_names();
    let h = thread_header();
    reveal_strlit("pid,tgid,name,loading_pct,c0_pct,c1_pct,c2_pct,runnable_pct,mips,mcps,cpi");
    reveal_strlit("pid");
    reveal_strlit("tgid");
    reveal_strlit("name");
    reveal_strlit("loading_pct");
    reveal_strlit("c0_pct");
    reveal_strlit("c1_pct");
    reveal_strlit("c2_pct");
    reveal_strlit("runnable_pct");
    reveal_strlit("mips");
    reveal_strlit("mcps");
    reveal_strlit("cpi");
    assert(h.take(3) =~= names[0]);
    assert(names.take(1) =~= seq![names[0]]);
    lemma_name_joins(names, h, 1, 3);
    lemma_name_joins(names, h, 2, 8);
    lemma_name_joins(names, h, 3, 13);
    lemma_name_joins(names, h, 4, 25);
    lemma_name_joins(names, h, 5, 32);
    lemma_name_joins(names, h, 6, 39);
    lemma_name_joins(names, h, 7, 46);
    lemma_name_joins(names, h, 8, 59);
    lemma_name_joins(names, h, 9, 64);
    lemma_name_joins(names, h, 10, 69);
    assert(h.take(73) =~= h);
    assert(names.take(11) =~= names);
    assert(names.map_values(|f: Seq<char>| escaped(f)) =~= names);
    law_row_reads_back(names);
}

proof fn lemma_sample_names()
    ensures
        fields_of(rtb_header()) == sample_names(),
{
    let names = sample_names();
    let h = rtb_header();
    reveal_strlit(
        "timestamp_ms,process_name,cpu_usage_pct,bcpu_usage_pct,mem_total_kb,mem_available_kb,top_app_rss_kb,total_mips,total_mcps,cpi,cache_references_per_sec,cache_misses_per_sec,cache_miss_rate_pct,branch_instructions_per_sec,branch_misses_per_sec,branch_miss_rate_pct",
    );
    reveal_strlit("timestamp_ms");
    reveal_strlit("process_name");
    reveal_strlit("cpu_usage_pct");
    reveal_strlit("bcpu_usage_pct");
    reveal_strlit("mem_total_kb");
    reveal_strlit("mem_available_kb");
    reveal_strlit("top_app_rss_kb");
    reveal_strlit("total_mips");
    reveal_strlit("total_mcps");
    reveal_strlit("cpi");
    reveal_strlit("cache_references_per_sec");
    reveal_strlit("cache_misses_per_sec");
    reveal_strlit("cache_miss_rate_pct");
    reveal_strlit("branch_instructions_per_sec");
    reveal_strlit("branch_misses_per_sec");
    reveal_strlit("branch_miss_rate_pct");
    assert(h.take(12) =~= names[0]);
    assert(names.take(1) =~= seq![names[0]]);
    lemma_name_joins(names, h, 1, 12);
    lemma_name_joins(names, h, 2, 25);
    lemma_name_joins(names, h, 3, 39);
    lemma_name_joins(names, h, 4, 54);
    lemma_name_joins(names, h, 5, 67);
    lemma_name_joins(names, h, 6, 84);
    lemma_name_joins(names, h, 7, 99);
    lemma_name_joins(names, h, 8, 110);
    lemma_name_joins(names, h, 9, 121);
    lemma_name_joins(names, h, 10, 125);
    lemma_name_joins(names, h, 11, 150);
    lemma_name_joins(names, h, 12, 171);
    lemma_name_joins(names, h, 13, 191);
    lemma_name_joins(names, h, 14, 219);
    lemma_name_joins(names, h, 15, 241);
    assert(h.take(262) =~= h);
    assert(names.take(16) =~= names);
    assert(names.map_values(|f: Seq<char>| escaped(f)) =~= names);
    law_row_reads_back(names);
}

/// Whether nothing that `fixed` writes holds a comma, a quote or a line feed.
pub open spec fn writes_plain<F: Fn(Double, usize) -> String>(fixed: F) -> bool {
    forall|v: Double, d: usize, s: String| #[trigger] may_write(fixed, v, d, s) ==> plain(s@)
}

/// What writes literals writes plain texts.
pub proof fn law_literals_are_plain<F: Fn(Double, usize) -> String>(fixed: F)
    requires
        writes_literals(fixed),
    ensures
        writes_plain(fixed),
{
    assert forall|v: Double, d: usize, s: String| #[trigger] may_write(
        fixed,
        v,
        d,
        s,
    ) implies plain(s@) by {
        lemma_value_cell(fixed, v, d, s);
        lemma_solid(s@);
    }
}

/// Whether a field is what `fixed` may write for a column.
spec fn holds<F: Fn(Double, usize) -> String>(
    fixed: F,
    column: Column<Seq<char>>,
    field: Seq<char>,
) -> bool {
    match column {
        Column::Text(t) => field == t,
        Column::Fixed { value, decimals } => written(fixed, value, decimals, field),
    }
}

/// A row splits into one field for each of its columns, with the name at `at`
/// as it was.
proof fn lemma_row_splits<F: Fn(Double, usize) -> String>(
    fixed: F,
    columns: Seq<Column<Seq<char>>>,
    row: Seq<char>,
    at: int,
    name: Seq<char>,
)
    requires
        writes_plain(fixed),
        renders(fixed, columns, row),
        0 <= at < columns.len(),
        columns[at] == Column::Text(escaped(name)),
        forall|i: int|
            0 <= i < columns.len() && i != at ==> ((#[trigger] columns[i]) matches Column::Text(t)
                ==> plain(t)),
    ensures
        fields_of(row).len() == columns.len(),
        fields_of(row)[at] == name,
        forall|i: int|
            0 <= i < columns.len() && i != at ==> holds(
                fixed,
                #[trigger] columns[i],
                fields_of(row)[i],
            ),
{
    let cells = choose|cells: Seq<String>| #[trigger]
        all_fit(fixed, columns, cells) && row == joined(texts(cells), seq![',']);
    let t = texts(cells);
    let fields = t.update(at, name);
    assert forall|i: int| 0 <= i < t.len() implies #[trigger] t[i] == escaped(fields[i]) by {
        assert(fits(fixed, columns[i], cells[i]));
    }
    assert(fields.map_values(|f: Seq<char>| escaped(f)) =~= t);
    law_row_reads_back(fields);
    assert forall|i: int| 0 <= i < columns.len() && i != at implies holds(
        fixed,
        #[trigger] columns[i],
        fields_of(row)[i],
    ) by {
        assert(fits(fixed, columns[i], cells[i]));
        assert(fields[i] == cells[i]@);
    }
}

/// The header of a thread summary file splits into the names of the columns,
/// and the row of every thread into as many fields, each of them what its
/// name says, whatever the thread's name
/// holds and however its values are written, as long as no comma, quote or
/// line feed is written for one.
pub proof fn law_thread_rows_fit_the_header<F: Fn(Double, usize) -> String>(
    fixed: F,
    t: LinuxThreadSummary<String, Double>,
    row: Seq<char>,
)
    requires
        writes_plain(fixed),
        renders(fixed, thread_columns(t), row),
    ensures
        fields_of(thread_header()) == thread_names(),
        thread_names().len() == 11,
        fields_of(row).len() == 11,
        thread_names()[0] == "pid"@,
        fields_of(row)[0] == decimal_signed(t.pid as int),
        thread_names()[1] == "tgid"@,
        fields_of(row)[1] == decimal_signed(t.tgid as int),
        thread_names()[2] == "name"@,
        fields_of(row)[2] == t.name@,
        thread_names()[3] == "loading_pct"@,
        written(fixed, t.loading_pct, 6, fields_of(row)[3]),
        thread_names()[4] == "c0_pct"@,
        written(fixed, t.c0_pct, 6, fields_of(row)[4]),
        thread_names()[5] == "c1_pct"@,
        written(fixed, t.c1_pct, 6, fields_of(row)[5]),
        thread_names()[6] == "c2_pct"@,
        written(fixed, t.c2_pct, 6, fields_of(row)[6]),
        thread_names()[7] == "runnable_pct"@,
        written(fixed, t.runnable_pct, 6, fields_of(row)[7]),
        thread_names()[8] == "mips"@,
        written(fixed, t.mips, 6, fields_of(row)[8]),
        thread_names()[9] == "mcps"@,
        written(fixed, t.mcps, 6, fields_of(row)[9]),
        thread_names()[10] == "cpi"@,
        written(fixed, t.cpi, 6, fields_of(row)[10]),
{
    lemma_thread_names();
    lemma_integer_cell(t.pid as int);
    lemma_integer_cell(t.tgid as int);
    lemma_solid(decimal_signed(t.pid as int));
    lemma_solid(decimal_signed(t.tgid as int));
    let columns = thread_columns(t);
    lemma_row_splits(fixed, columns, row, 2, t.name@);
    assert(holds(fixed, columns[0], fields_of(row)[0]));
    assert(holds(fixed, columns[1], fields_of(row)[1]));
    assert(holds(fixed, columns[3], fields_of(row)[3]));
    assert(holds(fixed, columns[4], fields_of(row)[4]));
    assert(holds(fixed, columns[5], fields_of(row)[5]));
    assert(holds(fixed, columns[6], fields_of(row)[6]));
    assert(holds(fixed, columns[7], fields_of(row)[7]));
    assert(holds(fixed, columns[8], fields_of(row)[8]));
    assert(holds(fixed, columns[9], fields_of(row)[9]));
    assert(holds(fixed, columns[10], fields_of(row)[10]));
}

/// The header of a recording splits into the names of the columns, and the
/// row of every point into as many fields, each of them what its name says,
/// whatever the process name holds
/// and however the values are written, as long as no comma, quote or line
/// feed is written for one.
pub proof fn law_sample_rows_fit_the_header<F: Fn(Double, usize) -> String>(
    fixed: F,
    p: RtbDataPoint,
    row: Seq<char>,
)
    requires
        writes_plain(fixed),
        renders(fixed, point_columns(p), row),
    ensures
        fields_of(rtb_header()) == sample_names(),
        sample_names().len() == 16,
        fields_of(row).len() == 16,
        sample_names()[0] == "timestamp_ms"@,
        fields_of(row)[0] == decimal(p.timestamp_ms as nat),
        sample_names()[1] == "process_name"@,
        fields_of(row)[1] == p.process_name@,
        sample_names()[2] == "cpu_usage_pct"@,
        p.cpu_usages_pct@.len() > 0 ==> written(
            fixed,
            p.cpu_usages_pct@[0],
            3,
            fields_of(row)[2],
        ),
        p.cpu_usages_pct@.len() == 0 ==> written(fixed, Double::nought(), 3, fields_of(row)[2]),
        sample_names()[3] == "bcpu_usage_pct"@,
        written(fixed, p.bcpu_usage_pct, 3, fields_of(row)[3]),
        sample_names()[4] == "mem_total_kb"@,
        fields_of(row)[4] == decimal(p.mem_total_kb as nat),
        sample_names()[5] == "mem_available_kb"@,
        fields_of(row)[5] == decimal(p.mem_available_kb as nat),
        sample_names()[6] == "top_app_rss_kb"@,
        fields_of(row)[6] == decimal(p.top_app_rss_kb as nat),
        sample_names()[7] == "total_mips"@,
        written(fixed, p.total_mips, 6, fields_of(row)[7]),
        sample_names()[8] == "total_mcps"@,
        written(fixed, p.total_mcps, 6, fields_of(row)[8]),
        sample_names()[9] == "cpi"@,
        written(fixed, p.cpi, 6, fields_of(row)[9]),
        sample_names()[10] == "cache_references_per_sec"@,
        written(fixed, p.cache_references_per_sec, 3, fields_of(row)[10]),
        sample_names()[11] == "cache_misses_per_sec"@,
        written(fixed, p.cache_misses_per_sec, 3, fields_of(row)[11]),
        sample_names()[12] == "cache_miss_rate_pct"@,
        written(fixed, p.cache_miss_rate_pct, 6, fields_of(row)[12]),
        sample_names()[13] == "branch_instructions_per_sec"@,
        written(fixed, p.branch_instructions_per_sec, 3, fields_of(row)[13]),
        sample_names()[14] == "branch_misses_per_sec"@,
        written(fixed, p.branch_misses_per_sec, 3, fields_of(row)[14]),
        sample_names()[15] == "branch_miss_rate_pct"@,
        written(fixed, p.branch_miss_rate_pct, 6, fields_of(row)[15]),
{
    lemma_sample_names();
    lemma_whole_cell(p.timestamp_ms);
    lemma_whole_cell(p.mem_total_kb);
    lemma_whole_cell(p.mem_available_kb);
    lemma_whole_cell(p.top_app_rss_kb);
    lemma_solid(decimal(p.timestamp_ms as nat));
    lemma_solid(decimal(p.mem_total_kb as nat));
    lemma_solid(decimal(p.mem_available_kb as nat));
    lemma_solid(decimal(p.top_app_rss_kb as nat));
    let columns = point_columns(p);
    lemma_row_splits(fixed, columns, row, 1, p.process_name@);
    assert(holds(fixed, columns[0], fields_of(row)[0]));
    assert(holds(fixed, columns[2], fields_of(row)[2]));
    assert(holds(fixed, columns[3], fields_of(row)[3]));
    assert(holds(fixed, columns[4], fields_of(row)[4]));
    assert(holds(fixed, columns[5], fields_of(row)[5]));
    assert(holds(fixed, columns[6], fields_of(row)[6]));
    assert(holds(fixed, columns[7], fields_of(row)[7]));
    assert(holds(fixed, columns[8], fields_of(row)[8]));
    assert(holds(fixed, columns[9], fields_of(row)[9]));
    assert(holds(fixed, columns[10], fields_of(row)[10]));
    assert(holds(fixed, columns[11], fields_of(row)[11]));
    assert(holds(fixed, columns[12], fields_of(row)[12]));
    assert(holds(fixed, columns[13], fields_of(row)[13]));
    assert(holds(fixed, columns[14], fields_of(row)[14]));
    assert(holds(fixed, columns[15], fields_of(row)[15]));
}

} // verus!
