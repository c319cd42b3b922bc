//! What the crash log says of errors, panics and hardware exceptions.
use vstd::prelude::*;
use crate::number::{decimal, decimal_text};
use crate::text::concat4;

verus! {

/// An entry of the log: when, what kind, the details, and an empty line.
pub open spec fn entry(seconds: u64, kind: Seq<char>, detail: Seq<char>) -> Seq<char> {
    "["@ + decimal(seconds as nat) + "] "@ + kind + "\n"@ + detail + "\n\n"@
}

/// An entry of the log.
pub fn crash_entry(seconds: u64, kind: &str, detail: &str) -> (s: String)
    ensures
        s@ == entry(seconds, kind@, detail@),
{
    let mut s = concat4("[", decimal_text(seconds).as_str(), "] ", kind);
    s.append("\n");
    s.append(detail);
    s.append("\n\n");
    s
}

/// Where a panic came from.
pub open spec fn place(at: Option<(Seq<char>, u32, u32)>) -> Seq<char> {
    match at {
        Some((file, line, column)) => file + ":"@ + decimal(line as nat) + ":"@ + decimal(
            column as nat,
        ),
        None => "unknown location"@,
    }
}

/// Where a panic came from.
pub fn panic_location(at: Option<(&str, u32, u32)>) -> (s: String)
    ensures
        s@ == place(
            match at {
                Some((file, line, column)) => Some((file@, line, column)),
                None => None,
            },
        ),
{
    match at {
        Some((file, line, column)) => {
            let mut s = concat4(file, ":", decimal_text(line as u64).as_str(), ":");
            s.append(decimal_text(column as u64).as_str());
            s
        },
        None => "unknown location".to_string(),
    }
}

/// The details of a panic.
pub fn panic_detail(thread_name: &str, location: &str, payload: &str, backtrace: &str) -> (s:
    String)
    ensures
        s@ == "thread: "@ + thread_name@ + "\nlocation: "@ + location@ + "\npayload: "@ + payload@
            + "\nbacktrace:\n"@ + backtrace@,
{
    let mut s = concat4("thread: ", thread_name, "\nlocation: ", location);
    s.append("\npayload: ");
    s.append(payload);
    s.append("\nbacktrace:\n");
    s.append(backtrace);
    s
}

/// What is remembered of a panic.
pub fn panic_error(location: &str, payload: &str) -> (s: String)
    ensures
        s@ == "Rust panic at "@ + location@ + ": "@ + payload@,
{
    concat4("Rust panic at ", location, ": ", payload)
}

// ---------------------------------------------------------------------------
// Hardware exceptions
// ---------------------------------------------------------------------------

/// Whether an exception is one that ends the program: a division by zero, a
/// wrong access, a fast fail, an illegal instruction, a stack overflow or a
/// breakpoint.
pub open spec fn ends_the_program(code: u32) -> bool {
    code == 0xC000_0094 || code == 0xC000_0005 || code == 0xC000_0409 || code == 0xC000_001D || code
        == 0xC000_00FD || code == 0x8000_0003
}

/// Whether an exception is logged.
pub fn should_log(code: u32) -> (r: bool)
    ensures
        r == ends_the_program(code),
{
    code == 0xC000_0094 || code == 0xC000_0005 || code == 0xC000_0409 || code == 0xC000_001D || code
        == 0xC000_00FD || code == 0x8000_0003
}

/// A hexadecimal digit.
pub open spec fn hex_digit(n: int) -> char {
    if n < 10 {
        (48 + n) as char
    } else {
        (55 + n) as char
    }
}

/// The last `width` hexadecimal digits of a number.
pub open spec fn hex(n: nat, width: nat) -> Seq<char>
    decreases width,
{
    if width == 0 {
        Seq::empty()
    } else {
        hex(n / 16, (width - 1) as nat).push(hex_digit((n % 16) as int))
    }
}

fn hex_text(n: u64, width: usize) -> (s: String)
    ensures
        s@ == hex(n as nat, width as nat),
    decreases width,
{
    if width == 0 {
        let s = String::new();
        assert(s@ =~= hex(n as nat, 0));
        s
    } else {
        let mut s = hex_text(n / 16, width - 1);
        let d: u8 = (n % 16) as u8;
        let c: u8 = if d < 10 {
            48 + d
        } else {
            55 + d
        };
        s.push(c as char);
        s
    }
}

/// The details of an exception.
pub fn exception_detail(code: u32, flags: u32, address: u64, backtrace: &str) -> (s: String)
    ensures
        s@ == "code: 0x"@ + hex(code as nat, 8) + "\nflags: 0x"@ + hex(flags as nat, 8)
            + "\naddress: 0x"@ + hex(address as nat, 16) + "\nbacktrace:\n"@ + backtrace@,
{
    let code_text = hex_text(code as u64, 8);
    let flags_text = hex_text(flags as u64, 8);
    let mut s = concat4("code: 0x", code_text.as_str(), "\nflags: 0x", flags_text.as_str());
    s.append("\naddress: 0x");
    s.append(hex_text(address, 16).as_str());
    s.append("\nbacktrace:\n");
    s.append(backtrace);
    s
}

} // verus!
