use profiler_core::daq::avro_writer::{
    build_schema, chunk_records, is_avro_path, schema_result, schema_text,
};
use profiler_core::daq::config::{
    ChannelConfig, DaqConfig, NumericCell, PowerPair, Rgb, build_save_name, convert_voltage_in_name,
    extract_cell_color, parse_numeric_cell, power_pair_for_channel, sanitize_name, voltage_parts,
};
use profiler_core::daq::device::{DeviceInfo, device_info, device_names, parse_daqmx_list};
use profiler_core::daq::error::{DaqmxError, check_error, warning_text};
use profiler_core::daq::load::{Cell, RowNumbers, Sheet, load_config, row_expressions};
use profiler_core::daq::reader::{
    AccumulationBuffer, accumulate, assemble_chunk, has_data, sample_count, take_turn,
};
use profiler_core::daq::streaming::{
    ChannelMeta, SessionError, SessionStep, StartStep, channel_number, cleanup_messages,
    input_range, pair_plans, plan_session, poisoned_buffer_message, terminal_config, timing,
};
use profiler_core::daq::summary::{ChannelStats, poll_data, summarize};
use profiler_core::double::Double;

fn double(value: f64) -> Double {
    Double::from_bits(value.to_bits())
}

fn text(s: &str) -> Cell {
    Cell { text: s.to_string(), argb: None }
}

fn sheet(max_col: u32, rows: &[&[&str]]) -> Sheet {
    Sheet { max_col, rows: rows.iter().map(|r| r.iter().map(|c| text(c)).collect()).collect() }
}

fn evaluate(cell: &NumericCell<String>) -> Option<Double> {
    let f = |s: &String| s.parse::<f64>().unwrap();
    match cell {
        NumericCell::Nothing => None,
        NumericCell::Value(a) => Some(double(f(a))),
        NumericCell::Quotient(a, b) if f(b) == 0.0 => None,
        NumericCell::Quotient(a, b) => Some(double(f(a) / f(b))),
        NumericCell::Product(a, b) => Some(double(f(a) * f(b))),
    }
}

fn numbers(s: &Sheet) -> Vec<RowNumbers> {
    (2..=s.rows.len())
        .map(|row| {
            let e = row_expressions(s, row);
            RowNumbers {
                gain: evaluate(&e.gain),
                offset: evaluate(&e.offset),
                range_max: evaluate(&e.range_max),
                range_min: evaluate(&e.range_min),
                millivolts: e
                    .volts
                    .iter()
                    .map(|v| (v.parse::<f64>().unwrap() * 1000.0).round() as i64)
                    .collect(),
            }
        })
        .collect()
}

fn config() -> DaqConfig {
    let mut channels = sheet(
        7,
        &[
            &["Channel", "Name", "Gain", "Offset", "Order", "Range max", "Range min"],
            &["Dev1/ai0", "VDD_0.75V", "=1/2", "", "1", "5", "-5"],
            &["Dev1/ai9", "I/SOC", "2*3", "0.5", "", "", ""],
            &["", "nothing", "", "", "", "", ""],
            &["Dev2/ai1", "VBAT", "", "", "3", "", ""],
        ],
    );
    channels.rows[1][1].argb = Some("FF102030".to_string());
    let pairs = sheet(
        3,
        &[&["Index", "I", "V"], &["4", "I_SOC", "Dev1/ai0"], &["", "", "x"]],
    );
    load_config(Some(&channels), &numbers(&channels), Some(&pairs)).unwrap()
}

fn device(name: &str) -> DeviceInfo {
    DeviceInfo {
        name: name.to_string(),
        product_type: "USB-6363".to_string(),
        serial_number: 7,
        ai_channels: vec![format!("{name}/ai0"), format!("{name}/ai1")],
    }
}

#[test]
fn configurations_are_read_off_sheets() {
    let c = config();
    assert!(c.has_order && c.has_range);
    assert_eq!(c.channels.len(), 3);
    assert_eq!(c.channels[0].physical_channel, "Dev1/ai0");
    assert_eq!(c.channels[0].name, "VDD_750mV");
    assert_eq!(c.channels[0].gain, double(0.5));
    assert_eq!(c.channels[0].offset, double(0.0));
    assert_eq!(c.channels[0].order, Some(1));
    assert_eq!(c.channels[0].range_min, Some(double(-5.0)));
    assert_eq!(c.channels[0].color, Rgb::new(0x10, 0x20, 0x30));
    assert_eq!(c.channels[1].gain, double(6.0));
    assert_eq!(c.channels[1].order, None);
    assert_eq!(c.channels[2].gain, double(1.0));
    assert_eq!(c.power_pairs.len(), 1);
    assert_eq!(c.power_pairs[0].index, 4);
}

#[test]
fn configurations_that_cannot_be_read_say_why() {
    let says = |s: &Sheet, p: Option<&Sheet>| {
        load_config(Some(s), &numbers(s), p).err().unwrap().message()
    };
    let head: &[&str] = &["c", "n", "g", "o", "Order"];
    assert_eq!(
        says(&sheet(5, &[head, &["a", "N", "0"]]), None),
        "Gain is zero for channel 'N' at row 2 -- this would cause division by zero"
    );
    assert_eq!(
        says(&sheet(5, &[head, &["a", "N", "1", "0", "x"]]), None),
        "Invalid order 'x' at row 2"
    );
    assert_eq!(
        says(&sheet(5, &[head, &["a", "N?M"]]), None),
        "Channel name 'N?M' contains illegal character '?'"
    );
    let bad = sheet(3, &[&["i"], &["one", "a", "b"]]);
    assert_eq!(
        says(&sheet(5, &[head]), Some(&bad)),
        "Invalid power pair index 'one' at row 2"
    );
    assert_eq!(
        load_config(None, &vec![], None).err().unwrap().message(),
        "Failed to read channel settings sheet (sheet index 0)"
    );
}

#[test]
fn cells_hold_numbers_quotients_and_products() {
    assert!(matches!(parse_numeric_cell(" = 1.5 "), NumericCell::Value(a) if a == "1.5"));
    assert!(
        matches!(parse_numeric_cell("1 / 4"), NumericCell::Quotient(a, b) if a == "1" && b == "4")
    );
    assert!(matches!(parse_numeric_cell("=2*3"), NumericCell::Product(_, _)));
    assert!(matches!(parse_numeric_cell("1/x"), NumericCell::Nothing));
    assert!(matches!(parse_numeric_cell(""), NumericCell::Nothing));
}

#[test]
fn names_are_made_legal() {
    assert_eq!(voltage_parts("A_1.8V_B_0.75V"), vec!["1.8V", "0.75V"]);
    assert_eq!(convert_voltage_in_name("A_1.8V", &vec![1800]), "A_1800mV");
    assert_eq!(sanitize_name("a/b\\c,d e").unwrap(), "a_b_c;d e");
    assert!(sanitize_name("a?").is_err());
    assert_eq!(extract_cell_color(Some("#102030")), Rgb::new(0x10, 0x20, 0x30));
    assert_eq!(extract_cell_color(Some("FF000000")), Rgb::new(0xFF, 0xFF, 0xFF));
    assert_eq!(extract_cell_color(None), Rgb::new(0xFF, 0xFF, 0xFF));
    assert_eq!(
        build_save_name("Dev1/ai0", "N", &Rgb::new(1, 2, 255), Some((4, true))),
        "Dev1_ai0_N-CR01-CG02-CBFF-PI4"
    );
}

#[test]
fn voltages_are_converted_once() {
    let once = convert_voltage_in_name("A_1.5V_11.5V_x1.5Vy", &vec![1500, 11500]);
    assert_eq!(once, "A_1500mV_11500mV_x1500mVy");
    assert!(voltage_parts(&once).is_empty());
    assert_eq!(convert_voltage_in_name(&once, &vec![]), once);
    assert_eq!(once.matches('_').count(), 3);
    assert!(voltage_parts("A_12V_5v").is_empty());
    assert_eq!(convert_voltage_in_name("A_12V_5v", &vec![]), "A_12V_5v");
}

#[test]
fn channels_come_in_the_order_of_the_rows() {
    let s = sheet(
        7,
        &[
            &["Channel", "Name", "Gain", "Offset", "Order", "Range", "Min"],
            &["Dev1/ai2", "B_1.8V", "1", "0", "2", "5", "1"],
            &["", "no place", "1", "0", "", "", ""],
            &["Dev1/ai1", "", "1", "0", "", "", ""],
            &["Dev1/ai0", "A/1", "1", "0", "1", "", ""],
        ],
    );
    let c = load_config(Some(&s), &numbers(&s), None).unwrap();
    let names: Vec<&str> = c.channels.iter().map(|c| c.name.as_str()).collect();
    assert_eq!(names, vec!["B_1800mV", "A_1"]);
    assert_eq!((c.channels[0].order, c.channels[1].order), (Some(2), Some(1)));
    assert!(c.channels[0].range_max.is_some());

    let s = sheet(
        7,
        &[
            &["Channel", "Name", "Gain", "Offset", "x", "y", "z"],
            &["Dev1/ai2", "B", "1", "0", "2", "5", "1"],
        ],
    );
    let c = load_config(Some(&s), &numbers(&s), None).unwrap();
    assert!(!c.has_order && !c.has_range);
    assert!(c.channels[0].order.is_none());
    assert!(c.channels[0].range_max.is_none() && c.channels[0].range_min.is_none());
}

#[test]
fn channels_find_their_pairs() {
    let c = config();
    assert_eq!(power_pair_for_channel(&c, &c.channels[0]), Some((4, false)));
    assert_eq!(power_pair_for_channel(&c, &c.channels[1]), Some((4, true)));
    assert_eq!(power_pair_for_channel(&c, &c.channels[2]), None);
}

#[test]
fn sessions_take_the_inputs_that_can_be_used() {
    let c = config();
    let devices = vec![device("Dev1"), device("Dev3"), device("Dev2")];
    let plan = plan_session(&c, &devices, true).unwrap();
    assert_eq!(plan.devices.len(), 2);
    assert_eq!(plan.devices[0].task_name, "mprofiler_Dev1");
    assert_eq!(plan.devices[0].scales.len(), 2);
    assert_eq!(plan.devices[0].inputs.len(), 1);
    assert_eq!(
        plan.devices[0].steps(),
        vec![
            SessionStep::Scale(0),
            SessionStep::Scale(1),
            SessionStep::Task,
            SessionStep::Channel(0),
            SessionStep::Timing,
            SessionStep::InputBuffer,
            SessionStep::Callback,
            SessionStep::Start,
        ]
    );
    let label = plan.devices[0].step_label(SessionStep::Scale(1), &c, &devices[0]);
    assert_eq!(
        SessionError::Step(label, "e".to_string()).message(),
        "Failed to create scale for I_SOC: e"
    );
    assert_eq!(plan.metas.len(), 2);
    assert!(plan.check_inputs().is_ok());
    assert_eq!(plan_session(&c, &devices, false).unwrap().metas.len(), 3);
    assert_eq!(input_range(&c.channels[0], double(-10.0), double(10.0)).0, double(-5.0));
    assert_eq!(input_range(&c.channels[2], double(-10.0), double(10.0)).1, double(10.0));
}

#[test]
fn sessions_without_inputs_do_not_start() {
    let c = config();
    let e = plan_session(&c, &vec![], false).err().unwrap();
    assert_eq!(e.message(), "No DAQmx devices found");
    let none = plan_session(&c, &vec![device("Dev9")], false).unwrap();
    assert_eq!(
        none.check_inputs().err().unwrap().message(),
        "No valid channels found for any device"
    );
    let mut only_high = config();
    only_high.channels.remove(0);
    only_high.channels.truncate(1);
    let plan = plan_session(&only_high, &vec![device("Dev1")], true).unwrap();
    assert_eq!(plan.devices[0].steps(), vec![SessionStep::Scale(0), SessionStep::Task]);
    assert!(plan.check_inputs().is_err());
}

#[test]
fn failures_name_their_step() {
    let says = |s| SessionError::Step(s, "e".to_string()).message();
    assert_eq!(says(StartStep::Task("D".to_string())), "Failed to create task for D: e");
    assert_eq!(says(StartStep::Channel("D".to_string())), "Failed to add channel D: e");
    assert_eq!(says(StartStep::Timing), "Failed to configure timing: e");
    assert_eq!(says(StartStep::InputBuffer), "Failed to configure input buffer: e");
    assert_eq!(says(StartStep::Callback), "Failed to register callback: e");
    assert_eq!(says(StartStep::Start), "Failed to start task: e");
    assert_eq!(
        SessionError::Panicked("p".to_string()).message(),
        "DAQ background thread panicked: p"
    );
    assert_eq!(
        SessionError::AlreadyStopped.message(),
        "DAQ: No thread handle available (already stopped?)"
    );
    assert_eq!(poisoned_buffer_message(3, "e"), "Buffer mutex poisoned for buffer 3: e");
    assert_eq!(
        cleanup_messages(1, -5, 6),
        vec!["stop_task[1] returned error code -5", "clear_task[1] returned error code 6"]
    );
    assert_eq!(cleanup_messages(1, 0, 0).len(), 0);
}

#[test]
fn hardware_is_set_up_by_the_rate() {
    let t = timing(10_000);
    assert_eq!((t.samples_per_channel, t.buffer, t.interval), (10_000, 20_000, 1_000));
    assert_eq!(timing(5).interval, 1);
    assert_eq!(terminal_config(true), 10106);
    assert_eq!(terminal_config(false), 10083);
    assert_eq!(channel_number("Dev1/ai17"), 17);
    assert_eq!(channel_number("Dev1/port0"), 0);
}

#[test]
fn no_sample_is_lost() {
    let mut b: AccumulationBuffer<i32> = AccumulationBuffer::new(2);
    b.absorb(&vec![1, 2, 0, 3, 4, 0], 3, 2);
    b.absorb(&vec![5, 6], 1, 1);
    assert_eq!(b.total_samples, 3);
    let taken = b.take();
    assert_eq!(taken, vec![vec![1, 2, 5], vec![3, 4, 6]]);
    assert_eq!(b.take(), vec![Vec::<i32>::new(), vec![]]);
    let chunk = assemble_chunk(3, &vec![Some(taken), Some(vec![vec![9]])]);
    assert_eq!(chunk, vec![vec![1, 2, 5], vec![3, 4, 6], vec![9]]);
    assert!(has_data(&chunk));
    assert!(!has_data(&vec![Vec::<i32>::new()]));
    assert_eq!(sample_count(&chunk), 3);
    let mut all = vec![vec![0], vec![], vec![]];
    accumulate(&mut all, &chunk);
    assert_eq!(all, vec![vec![0, 1, 2, 5], vec![3, 4, 6], vec![9]]);
}

fn meta(name: &str, power_pair: Option<(u32, bool)>) -> ChannelMeta<String> {
    ChannelMeta { name: name.to_string(), color: Rgb::new(1, 2, 3), power_pair }
}

#[test]
fn pairs_are_complete_and_in_order() {
    let metas = vec![
        meta("V2", Some((7, false))),
        meta("I2", Some((7, true))),
        meta("I1", Some((3, true))),
        meta("", Some((3, false))),
        meta("lone", Some((5, true))),
        meta("none", None),
    ];
    let pairs = pair_plans(&metas);
    assert_eq!(pairs.len(), 2);
    assert_eq!((pairs[0].index, pairs[0].voltage, pairs[0].current), (3, 3, 2));
    assert_eq!(pairs[0].name, "I1");
    assert_eq!(pairs[1].name, "V2");
    let d = poll_data(
        500,
        &metas[..2].to_vec(),
        &vec![double(1.0), double(2.0)],
        &pairs,
        &vec![double(3.0), double(4.0)],
    );
    assert_eq!(d.channel_values[1], ("I2".to_string(), double(2.0)));
    assert_eq!(d.power_pairs[1], ("V2".to_string(), double(4.0)));
    let stats = ChannelStats {
        mean: double(1.0),
        min: double(0.0),
        max: double(2.0),
        rms: double(1.5),
    };
    let s = summarize(
        &metas,
        &vec![stats; 6],
        &pairs,
        &vec![double(3.0), double(4.0)],
        double(7.0),
        double(9.0),
    );
    assert_eq!(s.channels[1].pair_index, 7);
    assert!(s.channels[1].is_current);
    assert_eq!(s.channels[5].pair_index, -1);
    assert_eq!(s.channels[0].color_b, 3);
    assert_eq!(s.power_breakdown[0].name, "I1");
    assert_eq!(s.total_power_mw, double(7.0));
}

#[test]
fn devices_are_read_from_buffers() {
    assert_eq!(parse_daqmx_list("Dev1, Dev2,,"), vec!["Dev1", "Dev2"]);
    assert_eq!(device_names(&b"Dev1, Dev2\0junk".to_vec()).unwrap(), vec!["Dev1", "Dev2"]);
    let e = device_names(&b"\0".to_vec()).err().unwrap();
    assert_eq!(e.to_string(), "No DAQmx devices found");
    let d = device_info("Dev1", &b"USB\xff\0".to_vec(), 5, &b"Dev1/ai0, Dev1/ai1\0".to_vec());
    assert_eq!(d.product_type, "USB\u{fffd}");
    assert_eq!(d.ai_channels, vec!["Dev1/ai0", "Dev1/ai1"]);
}

#[test]
fn driver_codes_above_zero_are_warnings() {
    let asked = std::cell::Cell::new(0);
    let text = || {
        asked.set(asked.get() + 1);
        "sampled late".to_string()
    };
    assert_eq!(warning_text(200_010, &text), Some("sampled late".to_string()));
    assert_eq!(asked.get(), 1);
    assert_eq!(warning_text(0, &text), None);
    assert_eq!(warning_text(-200_220, &text), None);
    assert!(check_error(200_010, &text).is_ok());
    assert_eq!(asked.get(), 1);
}

#[test]
fn driver_codes_below_zero_are_errors() {
    let text = || "no such device".to_string();
    assert!(check_error(0, &text).is_ok());
    assert!(check_error(200_010, &text).is_ok());
    let e = check_error(-200_220, &text).err().unwrap();
    assert_eq!(e.to_string(), "DAQmx error (code -200220): no such device");
    assert_eq!(
        DaqmxError::LibraryNotFound("x".to_string()).to_string(),
        "DAQmx library not found: x"
    );
}

#[test]
fn schemas_describe_their_channels() {
    let names = vec!["V \"core\"".to_string(), "I\\x".to_string()];
    let json = schema_text(&names);
    assert_eq!(
        json,
        "{\"type\":\"record\",\"name\":\"DaqSample\",\"namespace\":\"mprofiler.daq\",\"fields\":[\
         {\"name\":\"timestamp_s\",\"type\":\"double\"},\
         {\"name\":\"ch_0\",\"type\":\"double\",\"doc\":\"V \\\"core\\\"\"},\
         {\"name\":\"ch_1\",\"type\":\"double\",\"doc\":\"I\\\\x\"}]}"
    );
    let schema = build_schema(&names).unwrap();
    match schema {
        apache_avro::Schema::Record(r) => {
            assert_eq!(r.name.fullname(None), "mprofiler.daq.DaqSample");
            assert_eq!(r.fields.len(), 3);
            assert_eq!(r.fields[1].name, "ch_0");
            assert_eq!(r.fields[1].doc, Some("V \"core\"".to_string()));
        }
        other => panic!("{other:?}"),
    }
    let control = vec!["a\nb".to_string()];
    let e = build_schema(&control).err().unwrap();
    assert!(e.starts_with("Avro schema error: "));
    let e = schema_result(Err("bad".to_string())).err().unwrap();
    assert_eq!(e, "Avro schema error: bad");
}

#[test]
fn records_fill_gaps() {
    assert_eq!(
        chunk_records(&vec![vec![1, 2], vec![3]], 3, -1),
        vec![vec![1, 3, -1], vec![2, -1, -1]]
    );
}

#[test]
fn pairs_are_known_by_place_or_name() {
    let c = DaqConfig {
        channels: vec![ChannelConfig {
            physical_channel: "Dev1/ai0".to_string(),
            name: "N".to_string(),
            gain: double(1.0),
            offset: double(0.0),
            order: None,
            range_max: None,
            range_min: None,
            color: Rgb::new(0, 0, 0),
        }],
        power_pairs: vec![PowerPair {
            index: 1,
            current_channel: "N".to_string(),
            voltage_channel: "M".to_string(),
        }],
        has_order: false,
        has_range: false,
    };
    assert_eq!(power_pair_for_channel(&c, &c.channels[0]), Some((1, true)));
}

#[test]
fn a_turn_adds_what_came() {
    let mut all = vec![vec![1], vec![2], vec![]];
    assert_eq!(take_turn(&mut all, &vec![None, Some(vec![vec![], vec![]])]), None);
    assert_eq!(all, vec![vec![1], vec![2], vec![]]);
    let taken = vec![Some(vec![vec![3, 4]]), None, Some(vec![vec![5], vec![6], vec![7]])];
    assert_eq!(take_turn(&mut all, &taken), Some(vec![vec![3, 4], vec![5], vec![6]]));
    assert_eq!(all, vec![vec![1, 3, 4], vec![2, 5], vec![6]]);
}

#[test]
fn avro_files_are_known_by_their_names() {
    assert!(is_avro_path("a.avro"));
    assert!(is_avro_path(".avro"));
    assert!(!is_avro_path("a.csv"));
    assert!(!is_avro_path("avro"));
}
