use profiler_core::bounded_queue::BoundedQueue;
use profiler_core::crash::{
    crash_entry, exception_detail, panic_detail, panic_error, panic_location, should_log,
};
use profiler_core::runtime::{ConnectionEntry, HandleTable, Runtime};
use profiler_core::{
    init_runtime, next_cr_handle_id, next_rtb_handle_id, set_last_error, shutdown_runtime,
    take_last_error,
};

fn entry(serial: &str, port: u16) -> ConnectionEntry<u8> {
    ConnectionEntry { serial: serial.to_string(), client: 1, port, daemon_low_overhead: false }
}

#[test]
fn a_device_has_one_connection() {
    let mut rt: Runtime<u8, u8> = Runtime::new();
    assert!(init_runtime(&mut rt));
    assert!(!init_runtime(&mut rt));
    let table = &mut rt.state.as_mut().unwrap().connections;
    table.insert(entry("a", 1));
    table.insert(entry("b", 2));
    table.insert(entry("a", 3));
    assert_eq!(table.get("a").unwrap().port, 3);
    assert_eq!(table.remove("a").unwrap().port, 3);
    assert!(table.get("a").is_none());
    assert!(table.remove("a").is_none());
    assert!(table.contains_key("b"));
}

#[test]
fn the_last_error_is_handed_out_once() {
    let mut rt: Runtime<u8, u8> = Runtime::new();
    set_last_error(&mut rt, "lost".to_string());
    assert_eq!(take_last_error(&mut rt), "");
    init_runtime(&mut rt);
    set_last_error(&mut rt, "first".to_string());
    set_last_error(&mut rt, "second".to_string());
    assert_eq!(take_last_error(&mut rt), "second");
    assert_eq!(take_last_error(&mut rt), "");
}

#[test]
fn handle_numbers_are_not_reused() {
    let mut rt: Runtime<u8, u8> = Runtime::new();
    init_runtime(&mut rt);
    let state = rt.state.as_mut().unwrap();
    assert_eq!(next_rtb_handle_id(state), 1);
    assert_eq!(next_rtb_handle_id(state), 2);
    assert_eq!(next_cr_handle_id(state), 1);
    let mut t: HandleTable<char> = HandleTable::new();
    let id = t.next_handle_id();
    t.insert(id, 'x');
    assert_eq!(t.get(id), Some(&'x'));
    assert_eq!(t.remove(id), Some('x'));
    assert_eq!(t.get(id), None);
    assert_eq!(t.next_handle_id(), id + 1);
}

#[test]
fn a_shutdown_hands_everything_back() {
    let mut rt: Runtime<u8, u8> = Runtime::new();
    assert!(shutdown_runtime(&mut rt).is_none());
    init_runtime(&mut rt);
    let state = rt.state.as_mut().unwrap();
    let id = next_rtb_handle_id(state);
    state.rtb.insert(id, 9);
    state.connections.insert(entry("a", 1));
    let left = shutdown_runtime(&mut rt).unwrap();
    assert_eq!(left.rtb.get(&id), Some(&9));
    assert_eq!(left.connections.len(), 1);
    let state = rt.state.as_mut().unwrap();
    assert!(state.connections.get("a").is_none());
    assert_eq!(next_rtb_handle_id(state), id + 1);
}

#[test]
fn a_full_queue_refuses_or_forgets_the_oldest() {
    let mut q: BoundedQueue<&str> = BoundedQueue::new(2);
    assert_eq!(q.push("a"), Ok(()));
    assert_eq!(q.push("b"), Ok(()));
    assert_eq!(q.push("c"), Err("c"));
    q.push_latest("d");
    assert_eq!(q.poll(), Some("b"));
    assert_eq!(q.push("e"), Ok(()));
    assert_eq!(q.drain(), vec!["d", "e"]);
    assert_eq!(q.poll(), None);
}

#[test]
fn crashes_are_written_down() {
    assert_eq!(crash_entry(12, "rust error", "it broke"), "[12] rust error\nit broke\n\n");
    assert_eq!(panic_location(Some(("a.rs", 3, 4))), "a.rs:3:4");
    assert_eq!(panic_location(None), "unknown location");
    assert_eq!(panic_error("a.rs:3:4", "boom"), "Rust panic at a.rs:3:4: boom");
    assert_eq!(
        panic_detail("main", "a.rs:3:4", "boom", "bt"),
        "thread: main\nlocation: a.rs:3:4\npayload: boom\nbacktrace:\nbt"
    );
    assert_eq!(
        exception_detail(0xC0000005, 1, 0xABC, "bt"),
        "code: 0xC0000005\nflags: 0x00000001\naddress: 0x0000000000000ABC\nbacktrace:\nbt"
    );
    assert!(should_log(0xC00000FD));
    assert!(!should_log(0x40010006));
}
