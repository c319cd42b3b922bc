//! What the rows of a recording are read as, field by field.
use vstd::prelude::*;
use crate::csv::fields_of;
use crate::local_linux_record::{
    CsvError, LinuxHostSample, LinuxThreadSummary, float_fault, optional_fault, read_sample,
    read_thread, samples_of_lines, threads_of, threads_of_lines,
};
use crate::number::{
    FloatFault, IntFault, decimal, float_literal, lemma_read_int_range, lowered, read_int,
};
use crate::text::blank;

verus! {

/// Whether a field is the decimal text of `n` or stands for it otherwise.
pub open spec fn says_int(field: Seq<char>, n: int) -> bool {
    read_int(field, 0, u64::MAX as int) == Ok::<int, IntFault>(n)
}

/// What a field that may be left out or blank comes to: zero there, else the
/// literal it holds.
pub open spec fn says_value(f: Seq<Seq<char>>, i: int, value: Seq<char>) -> bool {
    if i < f.len() && !blank(f[i]) {
        value == f[i] && float_literal(f[i])
    } else {
        value == "0"@
    }
}

/// A row of seven or sixteen fields that can be read gives a sample whose
/// fields are, one for one, those of the row. The counters, which come behind
/// the seventh field, are zero where the row does not have them or leaves them
/// blank.
pub proof fn law_samples_are_what_their_rows_say(f: Seq<Seq<char>>, row: usize)
    ensures
        read_sample(f, row) is Ok ==> f.len() == 7 || f.len() == 16,
        read_sample(f, row) matches Ok(s) ==> {
            &&& says_int(f[0], s.timestamp_ms as int)
            &&& s.process_name == f[1]
            &&& s.cpu_usage_pct == f[2] && float_literal(f[2])
            &&& s.bcpu_usage_pct == f[3] && float_literal(f[3])
            &&& says_int(f[4], s.mem_total_kb as int)
            &&& says_int(f[5], s.mem_available_kb as int)
            &&& says_int(f[6], s.top_app_rss_kb as int)
            &&& says_value(f, 7, s.total_mips)
            &&& says_value(f, 8, s.total_mcps)
            &&& says_value(f, 9, s.cpi)
            &&& says_value(f, 10, s.cache_references_per_sec)
            &&& says_value(f, 11, s.cache_misses_per_sec)
            &&& says_value(f, 12, s.cache_miss_rate_pct)
            &&& says_value(f, 13, s.branch_instructions_per_sec)
            &&& says_value(f, 14, s.branch_misses_per_sec)
            &&& says_value(f, 15, s.branch_miss_rate_pct)
        },
{
    lemma_read_int_range(f[0], 0, u64::MAX as int);
    lemma_read_int_range(f[4], 0, u64::MAX as int);
    lemma_read_int_range(f[5], 0, u64::MAX as int);
    lemma_read_int_range(f[6], 0, u64::MAX as int);
    reveal_with_fuel(optional_fault, 10);
}

proof fn lemma_no_empty_literal(s: Seq<char>)
    requires
        s.len() == 0,
    ensures
        !float_literal(s),
{
    reveal_strlit("inf");
    reveal_strlit("infinity");
    reveal_strlit("nan");
    assert(s.skip(0) =~= s);
    assert(lowered(s.skip(0)).len() == 0);
}

/// The fault of the optional fields from `i` on is that of one of them.
proof fn lemma_optional(f: Seq<Seq<char>>, i: int)
    requires
        0 <= i,
        f.len() <= 16,
    ensures
        optional_fault(f, i) is None <==> forall|j: int|
            i <= j < f.len() ==> blank(#[trigger] f[j]) || float_literal(f[j]),
        optional_fault(f, i) matches Some(e) ==> e == CsvError::Float(FloatFault::Invalid)
            && exists|j: int| i <= j < f.len() && f[j].len() > 0 && !float_literal(#[trigger] f[j]),
    decreases 16 - i,
{
    if i < 16 {
        lemma_optional(f, i + 1);
        if i < f.len() && f[i].len() == 0 {
            assert(blank(f[i]));
        }
    }
}

/// There is no fault among the measured fields from `i` on where each of them
/// is a literal.
proof fn lemma_floats(f: Seq<Seq<char>>, i: int)
    requires
        0 <= i,
        f.len() == 11,
    ensures
        float_fault(f, i) is None <==> forall|j: int|
            i <= j < 11 ==> float_literal(#[trigger] f[j]),
    decreases 11 - i,
{
    if i < 11 {
        lemma_floats(f, i + 1);
        if f[i].len() == 0 {
            lemma_no_empty_literal(f[i]);
        }
    }
}

/// A row with another number of fields is refused, with its number; so is,
/// with the fault of the field, one in which a field that must be a number is
/// none. Every other row is read.
pub proof fn law_rows_that_are_no_samples_are_refused(f: Seq<Seq<char>>, row: usize)
    ensures
        f.len() != 7 && f.len() != 16 ==> read_sample(f, row) == Err::<
            LinuxHostSample<Seq<char>>,
            CsvError,
        >(CsvError::SampleFields { row }),
        f.len() == 7 || f.len() == 16 ==> (read_sample(f, row) is Ok <==> {
            &&& read_int(f[0], 0, u64::MAX as int) is Ok
            &&& float_literal(f[2])
            &&& float_literal(f[3])
            &&& read_int(f[4], 0, u64::MAX as int) is Ok
            &&& read_int(f[5], 0, u64::MAX as int) is Ok
            &&& read_int(f[6], 0, u64::MAX as int) is Ok
            &&& forall|i: int|
                7 <= i < f.len() ==> blank(#[trigger] f[i]) || float_literal(f[i])
        }),
        f.len() == 7 || f.len() == 16 ==> (read_int(f[0], 0, u64::MAX as int) matches Err(e)
            ==> read_sample(f, row) == Err::<LinuxHostSample<Seq<char>>, CsvError>(
            CsvError::Integer(e),
        )),
        f.len() == 7 || f.len() == 16 ==> (read_sample(f, row) matches Err(e) ==> match e {
            CsvError::Integer(fault) => exists|i: int|
                (i == 0 || 4 <= i <= 6) && read_int(#[trigger] f[i], 0, u64::MAX as int) == Err::<
                    int,
                    IntFault,
                >(fault),
            CsvError::Float(fault) => exists|i: int|
                2 <= i < f.len() && !float_literal(#[trigger] f[i]) && fault == (if f[i].len()
                    == 0 {
                    FloatFault::Empty
                } else {
                    FloatFault::Invalid
                }),
            _ => false,
        }),
{
    if f.len() == 7 || f.len() == 16 {
        lemma_optional(f, 7);
        let _ = (f[0], f[2], f[3], f[4], f[5], f[6]);
        if f[2].len() == 0 {
            lemma_no_empty_literal(f[2]);
        }
        if f[3].len() == 0 {
            lemma_no_empty_literal(f[3]);
        }
    }
}

/// A row of eleven fields that can be read gives a thread's summary whose
/// fields are, one for one, those of the row. Every other row is refused.
pub proof fn law_threads_are_what_their_rows_say(f: Seq<Seq<char>>, row: usize)
    ensures
        f.len() != 11 ==> read_thread(f, row) == Err::<
            LinuxThreadSummary<Seq<char>, Seq<char>>,
            CsvError,
        >(CsvError::ThreadFields { row }),
        f.len() == 11 ==> (read_thread(f, row) is Ok <==> {
            &&& read_int(f[0], i32::MIN as int, i32::MAX as int) is Ok
            &&& read_int(f[1], i32::MIN as int, i32::MAX as int) is Ok
            &&& forall|i: int| 3 <= i < 11 ==> float_literal(#[trigger] f[i])
        }),
        read_thread(f, row) matches Ok(t) ==> {
            &&& read_int(f[0], i32::MIN as int, i32::MAX as int) == Ok::<int, IntFault>(
                t.pid as int,
            )
            &&& read_int(f[1], i32::MIN as int, i32::MAX as int) == Ok::<int, IntFault>(
                t.tgid as int,
            )
            &&& t.name == f[2]
            &&& t.loading_pct == f[3]
            &&& t.c0_pct == f[4]
            &&& t.c1_pct == f[5]
            &&& t.c2_pct == f[6]
            &&& t.runnable_pct == f[7]
            &&& t.mips == f[8]
            &&& t.mcps == f[9]
            &&& t.cpi == f[10]
        },
{
    lemma_read_int_range(f[0], i32::MIN as int, i32::MAX as int);
    lemma_read_int_range(f[1], i32::MIN as int, i32::MAX as int);
    if f.len() == 11 {
        lemma_floats(f, 3);
    }
    reveal_with_fuel(float_fault, 9);
}

/// The first line of a recording is passed over, whatever it holds; so is a
/// blank line. Each other line is one sample, behind those of the lines before
/// it. Where a line cannot be read, the recording cannot, for the fault of the
/// first such line, whose number counts the header as one.
pub proof fn law_each_line_is_one_sample(lines: Seq<Seq<char>>, line: Seq<char>)
    requires
        lines.len() < usize::MAX,
    ensures
        samples_of_lines(seq![line]) == Ok::<Seq<LinuxHostSample<Seq<char>>>, CsvError>(
            Seq::empty(),
        ),
        lines.len() > 0 && blank(line) ==> samples_of_lines(lines.push(line)) == samples_of_lines(
            lines,
        ),
        samples_of_lines(lines) is Err ==> samples_of_lines(lines.push(line)) == samples_of_lines(
            lines,
        ),
        lines.len() > 0 && !blank(line) && samples_of_lines(lines) is Ok ==> match read_sample(
            fields_of(line),
            (lines.len() + 1) as usize,
        ) {
            Ok(s) => samples_of_lines(lines.push(line)) == Ok::<
                Seq<LinuxHostSample<Seq<char>>>,
                CsvError,
            >(samples_of_lines(lines)->Ok_0.push(s)),
            Err(e) => samples_of_lines(lines.push(line)) == Err::<
                Seq<LinuxHostSample<Seq<char>>>,
                CsvError,
            >(e),
        },
{
    assert(lines.push(line).drop_last() =~= lines);
    assert(seq![line].drop_last() =~= Seq::<Seq<char>>::empty());
    assert(samples_of_lines(seq![line].drop_last()) is Ok);
}

/// The lines of a thread summary file are read in the same way, and a file
/// that is missing holds no threads.
pub proof fn law_each_line_is_one_thread(lines: Seq<Seq<char>>, line: Seq<char>)
    requires
        lines.len() < usize::MAX,
    ensures
        threads_of(None) == Ok::<Seq<LinuxThreadSummary<Seq<char>, Seq<char>>>, CsvError>(
            Seq::empty(),
        ),
        threads_of_lines(seq![line]) == Ok::<
            Seq<LinuxThreadSummary<Seq<char>, Seq<char>>>,
            CsvError,
        >(Seq::empty()),
        lines.len() > 0 && blank(line) ==> threads_of_lines(lines.push(line)) == threads_of_lines(
            lines,
        ),
        threads_of_lines(lines) is Err ==> threads_of_lines(lines.push(line)) == threads_of_lines(
            lines,
        ),
        lines.len() > 0 && !blank(line) && threads_of_lines(lines) is Ok ==> match read_thread(
            fields_of(line),
            (lines.len() + 1) as usize,
        ) {
            Ok(s) => threads_of_lines(lines.push(line)) == Ok::<
                Seq<LinuxThreadSummary<Seq<char>, Seq<char>>>,
                CsvError,
            >(threads_of_lines(lines)->Ok_0.push(s)),
            Err(e) => threads_of_lines(lines.push(line)) == Err::<
                Seq<LinuxThreadSummary<Seq<char>, Seq<char>>>,
                CsvError,
            >(e),
        },
{
    assert(lines.push(line).drop_last() =~= lines);
    assert(seq![line].drop_last() =~= Seq::<Seq<char>>::empty());
    assert(threads_of_lines(seq![line].drop_last()) is Ok);
}

/// What is said of a row that cannot be read.
pub proof fn law_faults_name_their_row(row: usize)
    ensures
        (CsvError::SampleFields { row }).words() == "invalid local linux csv row "@
            + decimal(row as nat) + ": expected 7 or 16 fields"@,
        (CsvError::ThreadFields { row }).words() == "invalid thread csv row "@
            + decimal(row as nat) + ": expected 11 fields"@,
{
}

} // verus!
