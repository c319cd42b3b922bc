[package]
name = "profiler_core"
version = "0.1.0"
edition = "2021"
publish = false

[dependencies]
anyhow = "1"
apache-avro = "=0.17.0"
crossbeam-queue = "=0.3.14"
libloading = "0.8"
log = "0.4"
log4rs = "1"
parking_lot = "0.12"
prost = "0.13"
regex = "=1.13.1"
thiserror = "1"
tokio = { version = "1", features = ["rt-multi-thread", "process", "time", "macros"] }
tokio-util = "0.7"
tonic = { version = "=0.12.3", features = ["zstd"] }
umya-spreadsheet = "=2.3.3"
widestring = "=1.2.1"
