# profiler_core

Profiling Android devices and Linux hosts from a desktop: finding devices with
`adb`, deploying and talking to the profiling daemon, recording and reporting,
and measuring power with data acquisition hardware.

The library under `src/` is written in Verus. It decides, parses and renders,
and every function of it states and proves what it returns. It opens no socket
and no file: what has to be sent, run or written is handed out as plain data,
and what came of it is handed back in.

- `text`, `number`, `double`, `wide`, `csv`: texts, numbers as literals and as
  bits, UTF-16, comma-separated lines.
- `local_linux_record`, `record_laws`, `gar`: recordings of the local machine,
  that they read back what was written, and the workbook that reports on one.
- `adb`, `connect`, `core_api`: the commands of `adb`, deploying the daemon and
  connecting to it step by step, and the operations on a connected device.
- `grpc`: the control protocol, the streams and the service of the daemon;
  `proto` holds their requests and answers, `bounded_queue` what waits to be
  polled.
- `daq`: configurations, devices, plans and samples of a measurement.
- `runtime`, `crash`: what a process holds, and what it notes when it fails.
- `ffi`: all of this for callers in other languages.

`app/` is ordinary Rust around it: processes, sockets, files, threads, the
driver of the measuring hardware, floating point, and the exported C functions.
`tests/` runs the library on concrete values.

Proofs rest on what the library states, without proof, of a few functions of
other crates: `String::push` and `String::from_utf8_lossy` of the standard
library, `Regex` of `regex`, `ArrayQueue` of `crossbeam-queue`, `U16CString` of
`widestring` and `Schema::parse_str` of `apache-avro`. Each statement stands at
the function that makes the call.
