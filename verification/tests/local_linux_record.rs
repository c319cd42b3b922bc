use profiler_core::csv::parse_csv_line;
use profiler_core::double::Double;
use profiler_core::gar::{Metric, SheetPlan, Value, generate_linux_host_gar_xlsx, min_mem_available};
use profiler_core::local_linux_record::{
    LinuxHostSample, LinuxThreadSummary, parse_local_linux_csv, parse_thread_summary_csv,
    rtb_csv_header, rtb_csv_row, thread_csv_header, thread_csv_row, threads_file_name,
};
use profiler_core::proto::RtbDataPoint;
use std::io::Cursor;

fn double(value: f64) -> Double {
    Double::from_bits(value.to_bits())
}

fn fixed(value: Double, decimals: usize) -> String {
    format!("{:.*}", decimals, f64::from_bits(value.bits))
}

#[test]
fn formats_linux_host_rtb_samples_as_csv() {
    let sample = RtbDataPoint {
        timestamp_ms: 1234,
        process_name: "demo".to_string(),
        cpu_usages_pct: vec![double(12.5)],
        bcpu_usage_pct: double(12.5),
        mem_total_kb: 1024,
        mem_available_kb: 768,
        top_app_rss_kb: 256,
        total_mips: double(10.0),
        total_mcps: double(20.0),
        cpi: double(2.0),
        cache_references_per_sec: double(1000.0),
        cache_misses_per_sec: double(100.0),
        cache_miss_rate_pct: double(10.0),
        branch_instructions_per_sec: double(500.0),
        branch_misses_per_sec: double(25.0),
        branch_miss_rate_pct: double(5.0),
        ..RtbDataPoint::default()
    };

    assert_eq!(
        rtb_csv_header(),
        "timestamp_ms,process_name,cpu_usage_pct,bcpu_usage_pct,mem_total_kb,mem_available_kb,top_app_rss_kb,total_mips,total_mcps,cpi,cache_references_per_sec,cache_misses_per_sec,cache_miss_rate_pct,branch_instructions_per_sec,branch_misses_per_sec,branch_miss_rate_pct"
    );
    assert_eq!(
        rtb_csv_row(&sample, &fixed),
        "1234,demo,12.500,12.500,1024,768,256,10.000000,20.000000,2.000000,1000.000,100.000,10.000000,500.000,25.000,5.000000"
    );
}

fn number(literal: &str) -> f64 {
    literal.parse().unwrap()
}

fn mean(metric: Metric, samples: &Vec<LinuxHostSample<String>>) -> f64 {
    let values: Vec<f64> = metric
        .literals(samples)
        .iter()
        .map(|l| number(l))
        .filter(|v| !metric.leaves_zeros_out() || *v > 0.0)
        .collect();
    if values.is_empty() {
        0.0
    } else {
        values.iter().sum::<f64>() / values.len() as f64
    }
}

fn workbook(
    sheets: &Vec<SheetPlan>,
    samples: &Vec<LinuxHostSample<String>>,
) -> umya_spreadsheet::Spreadsheet {
    let mut book = umya_spreadsheet::new_file();
    book.get_sheet_by_name_mut("Sheet1").unwrap().set_name("summary");
    for sheet in &sheets[1..] {
        book.new_sheet(sheet.name).unwrap();
    }
    for sheet in sheets {
        let ws = book.get_sheet_by_name_mut(sheet.name).unwrap();
        for c in &sheet.cells {
            let cell = ws.get_cell_mut((c.col, c.row));
            match &c.value {
                Value::Text(s) => cell.set_value(s),
                Value::Whole(n) => cell.set_value_number(*n as f64),
                Value::Signed(n) => cell.set_value_number(*n as f64),
                Value::Literal(s) => cell.set_value_number(number(s)),
                Value::Rounded(s) => cell.set_value_number((number(s) * 100.0).round() / 100.0),
                Value::Seconds(ms) => cell.set_value_number(*ms as f64 / 1000.0),
                Value::Metric(m) => cell.set_value_number(mean(*m, samples)),
                Value::MetricText { metric, decimals, percent } => {
                    let sign = if *percent { "%" } else { "" };
                    cell.set_value(format!("{:.*}{sign}", *decimals, mean(*metric, samples)))
                }
            };
        }
    }
    let mut bytes: Vec<u8> = Vec::new();
    umya_spreadsheet::writer::xlsx::write_writer(&book, Cursor::new(&mut bytes)).unwrap();
    umya_spreadsheet::reader::xlsx::read_reader(Cursor::new(bytes), true).unwrap()
}

fn recording() -> Vec<LinuxHostSample<String>> {
    parse_local_linux_csv(
        "timestamp_ms,process_name,cpu_usage_pct,bcpu_usage_pct,mem_total_kb,mem_available_kb,top_app_rss_kb\n\
         1000,linux-host-local,0.000,0.000,1000,800,0\n\
         1500,linux-host-local,25.500,25.500,1000,700,128\n",
    )
    .unwrap()
}

fn thread(pid: i32) -> LinuxThreadSummary<String, String> {
    LinuxThreadSummary {
        pid,
        tgid: 111,
        name: "heavy-thread".to_string(),
        loading_pct: "76.5".to_string(),
        c0_pct: "0.0".to_string(),
        c1_pct: "0.0".to_string(),
        c2_pct: "76.5".to_string(),
        runnable_pct: "76.5".to_string(),
        mips: "1234.0".to_string(),
        mcps: "2345.0".to_string(),
        cpi: "1.9".to_string(),
    }
}

#[test]
fn generates_csharp_compatible_linux_host_gar_workbook() {
    let samples = recording();
    let threads = vec![thread(111)];
    let sheets = generate_linux_host_gar_xlsx(&samples, &threads);
    let book = workbook(&sheets, &samples);

    assert!(book.get_sheet_by_name("summary").is_some());
    assert!(book.get_sheet_by_name("Advanced Report").is_some());
    assert!(book.get_sheet_by_name("RawData").is_some());
    assert!(book.get_sheet_by_name("Power Summary").is_some());
    assert!(book.get_sheet_by_name("gpt_summary").is_some());

    let advanced = book.get_sheet_by_name("Advanced Report").unwrap();
    assert_eq!(advanced.get_value("A1"), "System Index*");
    assert_eq!(advanced.get_value("B1"), "Key Index");
    assert_eq!(advanced.get_value("C1"), "Linux Host Local");
    assert_eq!(advanced.get_value("B2"), "Avg FPS");
    assert_eq!(advanced.get_value("B19"), "Avg. BCPU Freq. (MHz)");

    let raw = book.get_sheet_by_name("RawData").unwrap();
    assert_eq!(raw.get_value("A1"), "timestamp_ms");
    assert_eq!(raw.get_value("B1"), "elapsed_s");
    assert_eq!(raw.get_value("F1"), "cpu0_loading_pct");
    assert_eq!(raw.get_value("AK1"), "vcore_v");
    assert_eq!(raw.get_value("A3"), "1500");
    assert_eq!(raw.get_value("F3"), "25.5");

    let summary = book.get_sheet_by_name("summary").unwrap();
    assert_eq!(summary.get_value("A2"), "FPS Avg");
    assert_eq!(summary.get_value("A5"), "CPU C0 Freq");
    assert_eq!(summary.get_value("C6"), "12.75");
    assert_eq!(summary.get_value("A23"), "111");
    assert_eq!(summary.get_value("C23"), "heavy-thread");
    assert_eq!(summary.get_value("D23"), "76.5");
    assert_eq!(summary.get_value("I23"), "1234");
}

#[test]
fn the_workbook_shows_twenty_threads_and_the_time_since_the_first_sample() {
    let samples = recording();
    let threads: Vec<_> = (0..25).map(thread).collect();
    let sheets = generate_linux_host_gar_xlsx(&samples, &threads);
    let book = workbook(&sheets, &samples);
    let summary = book.get_sheet_by_name("summary").unwrap();
    assert_eq!(summary.get_value("A42"), "19");
    assert_eq!(summary.get_value("A43"), "");
    let raw = book.get_sheet_by_name("RawData").unwrap();
    assert_eq!(raw.get_value("B3"), "0.5");
    assert_eq!(raw.get_value("AP3"), "linux-host-local");
    assert_eq!(raw.get_value("AR3"), "700");
    let vertical = book.get_sheet_by_name("summary_vertical").unwrap();
    assert_eq!(vertical.get_value("B2"), "2");
    assert_eq!(vertical.get_value("B4"), "700");
    let advanced = book.get_sheet_by_name("Advanced Report").unwrap();
    assert_eq!(advanced.get_value("A5"), "MIPS");
    assert_eq!(advanced.get_value("C20"), "12.8%");
    assert_eq!(min_mem_available(&vec![]), 0);
}

#[test]
fn a_recording_reads_back() {
    let point = RtbDataPoint {
        timestamp_ms: 9,
        process_name: "a \"quoted\", name".to_string(),
        cpu_usages_pct: vec![double(1.25), double(9.0)],
        bcpu_usage_pct: double(2.5),
        mem_total_kb: 3,
        mem_available_kb: 2,
        top_app_rss_kb: 1,
        total_mips: double(0.125),
        ..RtbDataPoint::default()
    };
    assert_eq!(parse_csv_line(rtb_csv_header()).len(), 16);
    assert_eq!(parse_csv_line(&rtb_csv_row(&point, &fixed)).len(), 16);
    let file = format!("{}\n{}\n", rtb_csv_header(), rtb_csv_row(&point, &fixed));
    let back = parse_local_linux_csv(&file).unwrap();
    assert_eq!(back.len(), 1);
    assert_eq!(back[0].timestamp_ms, 9);
    assert_eq!(back[0].process_name, "a \"quoted\", name");
    assert_eq!(back[0].cpu_usage_pct, "1.250");
    assert_eq!(back[0].bcpu_usage_pct, "2.500");
    assert_eq!(back[0].mem_available_kb, 2);
    assert_eq!(back[0].total_mips, "0.125000");
}

#[test]
fn a_thread_summary_reads_back() {
    let t = LinuxThreadSummary {
        pid: -1,
        tgid: 2,
        name: "worker,1".to_string(),
        loading_pct: double(76.5),
        c0_pct: double(0.0),
        c1_pct: double(1.0),
        c2_pct: double(2.0),
        runnable_pct: double(3.0),
        mips: double(4.0),
        mcps: double(5.0),
        cpi: double(6.25),
    };
    let row = thread_csv_row(&t, &fixed);
    assert_eq!(
        row,
        "-1,2,\"worker,1\",76.500000,0.000000,1.000000,2.000000,3.000000,4.000000,5.000000,6.250000"
    );
    assert_eq!(parse_csv_line(&row).len(), 11);
    assert_eq!(
        parse_csv_line(thread_csv_header()),
        vec![
            "pid", "tgid", "name", "loading_pct", "c0_pct", "c1_pct", "c2_pct", "runnable_pct",
            "mips", "mcps", "cpi",
        ]
    );
    let file = format!("{}\n{row}\n", thread_csv_header());
    let back = parse_thread_summary_csv(Some(&file)).unwrap();
    assert_eq!(back.len(), 1);
    assert_eq!(back[0].pid, -1);
    assert_eq!(back[0].name, "worker,1");
    assert_eq!(back[0].cpi, "6.250000");
    assert_eq!(parse_thread_summary_csv(None).unwrap().len(), 0);
}

#[test]
fn rows_that_cannot_be_read_say_why() {
    let says = |row: &str| match parse_local_linux_csv(&format!("header\n{row}\n")) {
        Ok(_) => panic!("{row}"),
        Err(e) => e.message(),
    };
    assert_eq!(says("1,2"), "invalid local linux csv row 2: expected 7 or 16 fields");
    assert_eq!(says("x,p,0,0,1,1,1"), "invalid digit found in string");
    assert_eq!(says(",p,0,0,1,1,1"), "cannot parse integer from empty string");
    assert_eq!(says("1,p,zero,0,1,1,1"), "invalid float literal");
    assert_eq!(
        says("99999999999999999999,p,0,0,1,1,1"),
        "number too large to fit in target type"
    );
    let threads = parse_thread_summary_csv(Some("h\n1,2\n"));
    assert_eq!(
        threads.err().unwrap().message(),
        "invalid thread csv row 2: expected 11 fields"
    );
}

#[test]
fn blank_lines_and_missing_columns_are_passed_over() {
    let back = parse_local_linux_csv("h\n\n  \r\n1,p,2,3,4,5,6, ,7,,,,,,,\n").unwrap();
    assert_eq!(back.len(), 1);
    assert_eq!(back[0].total_mips, "0");
    assert_eq!(back[0].total_mcps, "7");
    assert_eq!(back[0].branch_miss_rate_pct, "0");
}

#[test]
fn thread_files_stand_beside_recordings() {
    assert_eq!(threads_file_name(Some("a.b"), "record"), "a.b.threads.csv");
    assert_eq!(threads_file_name(None, "record"), "record.threads.csv");
}
