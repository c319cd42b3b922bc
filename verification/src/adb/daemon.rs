//! The daemon on a device: what is read off it, how it is started, and the
//! steps that make sure it runs as root in the mode that is asked for.
use vstd::prelude::*;
use crate::number::{decimal, decimal_text, parse_i32, parse_u16, parse_u32, read_int};
use crate::text::{
    before_last, blank, concat2, concat3, concat4, is_blank, lemma_one_word, lemma_words_join,
    lines, lines_of, occurs_at, rsplit_before, same_text, starts_with, texts, white, words,
    words_of,
};

verus! {

// ---------------------------------------------------------------------------
// Reading
// ---------------------------------------------------------------------------

/// Whether the daemon runs, by what `pidof` prints; `None` says that the
/// command failed.
pub open spec fn running(output: Option<Seq<char>>) -> bool {
    output matches Some(o) && !blank(o)
}

/// The text of an optional one.
pub open spec fn opt_view(o: Option<&str>) -> Option<Seq<char>> {
    match o {
        Some(s) => Some(s@),
        None => None,
    }
}

/// Whether the daemon runs, by what `pidof` prints.
pub fn is_running(output: Option<&str>) -> (r: bool)
    ensures
        r == running(opt_view(output)),
{
    match output {
        Some(o) => !is_blank(o),
        None => false,
    }
}

/// The first word of a command's output.
pub open spec fn first_word(output: Option<Seq<char>>) -> Option<Seq<char>> {
    match output {
        Some(o) => if words_of(o).len() > 0 {
            Some(words_of(o)[0])
        } else {
            None
        },
        None => None,
    }
}

pub(crate) fn take_first_word(output: Option<&str>) -> (r: Option<String>)
    ensures
        match first_word(opt_view(output)) {
            Some(w) => r matches Some(s) && s@ == w,
            None => r is None,
        },
{
    match output {
        Some(o) => {
            let w = words(o);
            assert(texts(w@).len() == w@.len());
            if w.len() > 0 {
                assert(texts(w@)[0] == w@[0]@);
                Some(w[0].clone())
            } else {
                None
            }
        },
        None => None,
    }
}

/// The daemon's process, by what `pidof` prints: the first word, where it is a
/// number.
pub open spec fn daemon_pid(output: Option<Seq<char>>) -> Option<i32> {
    match first_word(output) {
        Some(w) => match read_int(w, i32::MIN as int, i32::MAX as int) {
            Ok(n) => Some(n as i32),
            Err(_) => None,
        },
        None => None,
    }
}

/// The daemon's process, by what `pidof` prints.
pub fn get_daemon_pid(output: Option<&str>) -> (r: Option<i32>)
    ensures
        r == daemon_pid(opt_view(output)),
{
    match take_first_word(output) {
        Some(w) => match parse_i32(w.as_str()) {
            Ok(n) => Some(n),
            Err(_) => None,
        },
        None => None,
    }
}

/// The number in a word.
pub open spec fn uid_of_word(w: Seq<char>) -> Option<u32> {
    match read_int(w, 0, u32::MAX as int) {
        Ok(n) => Some(n as u32),
        Err(_) => None,
    }
}

/// Whether a line of a process's status gives its users: the label, the real
/// user, the effective user and more.
pub open spec fn uid_line(line: Seq<char>) -> bool {
    occurs_at(line, "Uid:"@, 0) && words_of(line).len() > 2
}

/// The effective user in the first of the lines from `i` on that gives one.
pub open spec fn uid_from(lines: Seq<Seq<char>>, i: int) -> Option<u32>
    decreases lines.len() - i,
{
    if i < 0 || i >= lines.len() {
        None
    } else if uid_line(lines[i]) {
        uid_of_word(words_of(lines[i])[2])
    } else {
        uid_from(lines, i + 1)
    }
}

/// The daemon's effective user, by its status file.
pub open spec fn daemon_uid(status: Option<Seq<char>>) -> Option<u32> {
    match status {
        Some(s) => uid_from(lines_of(s), 0),
        None => None,
    }
}

/// The daemon's effective user, by its status file.
pub fn get_daemon_uid(status: Option<&str>) -> (r: Option<u32>)
    ensures
        r == daemon_uid(opt_view(status)),
{
    let text: &str = match status {
        Some(s) => s,
        None => {
            return None;
        },
    };
    let rows = lines(text);
    let ghost all = texts(rows@);
    let mut i: usize = 0;
    while i < rows.len()
        invariant
            status == Some(text),
            all == texts(rows@),
            all == lines_of(text@),
            i <= rows@.len(),
            uid_from(all, 0) == uid_from(all, i as int),
        decreases rows.len() - i,
    {
        assert(all[i as int] == rows@[i as int]@);
        if starts_with(rows[i].as_str(), "Uid:") {
            let w = words(rows[i].as_str());
            assert(texts(w@).len() == w@.len());
            if w.len() > 2 {
                assert(texts(w@)[2] == w@[2]@);
                return match parse_u32(w[2].as_str()) {
                    Ok(n) => Some(n),
                    Err(_) => None,
                };
            }
        }
        i += 1;
    }
    None
}

/// Whether a list of words holds one.
pub open spec fn has_word(w: Seq<Seq<char>>, word: Seq<char>) -> bool {
    exists|i: int| 0 <= i < w.len() && #[trigger] w[i] == word
}

fn contains_word(w: &Vec<String>, word: &str) -> (r: bool)
    ensures
        r == has_word(texts(w@), word@),
{
    let mut i: usize = 0;
    while i < w.len()
        invariant
            i <= w@.len(),
            forall|j: int| 0 <= j < i ==> #[trigger] texts(w@)[j] != word@,
        decreases w.len() - i,
    {
        assert(texts(w@)[i as int] == w@[i as int]@);
        if same_text(w[i].as_str(), word) {
            return true;
        }
        i += 1;
    }
    false
}

/// Whether a daemon with the given arguments runs in the mode asked for.
pub open spec fn mode_matches(w: Seq<Seq<char>>, low_overhead: bool) -> bool {
    if low_overhead {
        has_word(w, "--low-overhead"@) && has_word(w, "--sync-only"@) && !has_word(
            w,
            "--legacy-mode"@,
        )
    } else {
        has_word(w, "--legacy-mode"@) || !has_word(w, "--low-overhead"@)
    }
}

/// Whether a daemon runs in the mode asked for, by its command line; `None`
/// says that the command line could not be read.
pub open spec fn mode_of(cmdline: Option<Seq<char>>, low_overhead: bool) -> Option<bool> {
    match cmdline {
        Some(c) => Some(mode_matches(words_of(c), low_overhead)),
        None => None,
    }
}

/// Whether a daemon runs in the mode asked for, by its command line.
pub fn daemon_low_overhead_matches(cmdline: Option<&str>, expected_low_overhead: bool) -> (r:
    Option<bool>)
    ensures
        r == mode_of(opt_view(cmdline), expected_low_overhead),
{
    match cmdline {
        Some(c) => {
            let parts = words(c);
            let has_low_overhead = contains_word(&parts, "--low-overhead");
            let has_sync_only = contains_word(&parts, "--sync-only");
            let has_legacy_mode = contains_word(&parts, "--legacy-mode");
            Some(
                if expected_low_overhead {
                    has_low_overhead && has_sync_only && !has_legacy_mode
                } else {
                    has_legacy_mode || !has_low_overhead
                },
            )
        },
        None => None,
    }
}

/// The number behind the first `--grpc-port` from word `i` on.
pub open spec fn port_from(w: Seq<Seq<char>>, i: int) -> Option<u16>
    decreases w.len() - i,
{
    if i < 0 || i >= w.len() {
        None
    } else if w[i] == "--grpc-port"@ {
        if i + 1 < w.len() {
            match read_int(w[i + 1], 0, u16::MAX as int) {
                Ok(n) => Some(n as u16),
                Err(_) => None,
            }
        } else {
            None
        }
    } else {
        port_from(w, i + 1)
    }
}

/// The port that a daemon listens on, by its command line.
pub open spec fn grpc_port(cmdline: Option<Seq<char>>) -> Option<u16> {
    match cmdline {
        Some(c) => port_from(words_of(c), 0),
        None => None,
    }
}

/// The port that a daemon listens on, by its command line.
pub fn get_grpc_port(cmdline: Option<&str>) -> (r: Option<u16>)
    ensures
        r == grpc_port(opt_view(cmdline)),
{
    let text: &str = match cmdline {
        Some(c) => c,
        None => {
            return None;
        },
    };
    let parts = words(text);
    let ghost w = texts(parts@);
    let mut i: usize = 0;
    while i < parts.len()
        invariant
            cmdline == Some(text),
            w == texts(parts@),
            w == words_of(text@),
            i <= parts@.len(),
            port_from(w, 0) == port_from(w, i as int),
        decreases parts.len() - i,
    {
        assert(w[i as int] == parts@[i as int]@);
        if same_text(parts[i].as_str(), "--grpc-port") {
            if i + 1 < parts.len() {
                assert(w[i + 1] == parts@[i + 1]@);
                return match parse_u16(parts[i + 1].as_str()) {
                    Ok(n) => Some(n),
                    Err(_) => None,
                };
            }
            return None;
        }
        i += 1;
    }
    None
}

// ---------------------------------------------------------------------------
// Starting
// ---------------------------------------------------------------------------

/// How root is had on a device.
#[derive(Debug, Clone, Copy, PartialEq, Eq, Structural)]
pub enum RootMode {
    /// The shell itself runs as root.
    Adb,
    /// Commands run as root through `su`.
    Su,
    /// There is no root.
    NoRoot,
}

/// The directory of a path on the device.
pub open spec fn directory_of(path: Seq<char>) -> Seq<char> {
    match before_last(path, '/') {
        Some(d) => d,
        None => "/data/local/tmp"@,
    }
}

/// The directory of a path on the device: what stands before the last slash.
pub fn remote_dir(path: &str) -> (d: String)
    ensures
        d@ == directory_of(path@),
{
    match rsplit_before(path, '/') {
        Some(d) => d,
        None => "/data/local/tmp".to_string(),
    }
}

/// Where the shared library goes that stands beside the binary.
pub fn remote_library(remote_path: &str) -> (s: String)
    ensures
        s@ == directory_of(remote_path@) + "/libc++_shared.so"@,
{
    concat2(remote_dir(remote_path).as_str(), "/libc++_shared.so")
}

/// The words that choose the daemon's mode.
pub open spec fn mode_flags(low_overhead: bool) -> Seq<char> {
    if low_overhead {
        "--low-overhead --sync-only"@
    } else {
        "--legacy-mode"@
    }
}

/// The daemon's command line.
pub open spec fn daemon_args(remote_path: Seq<char>, port: u16, low_overhead: bool) -> Seq<char> {
    remote_path + " --daemon --grpc-port "@ + decimal(port as nat) + " "@ + mode_flags(low_overhead)
}

/// The command that starts the daemon in the background.
pub open spec fn background(remote_path: Seq<char>, port: u16, low_overhead: bool) -> Seq<char> {
    "LD_LIBRARY_PATH="@ + directory_of(remote_path) + " nohup "@ + daemon_args(
        remote_path,
        port,
        low_overhead,
    ) + " > /dev/null 2>&1 &"@
}

/// The shell command that starts the daemon: through `su` where root is had
/// that way.
pub open spec fn start_text(
    remote_path: Seq<char>,
    port: u16,
    low_overhead: bool,
    mode: RootMode,
) -> Seq<char> {
    match mode {
        RootMode::Su => "su -c \""@ + background(remote_path, port, low_overhead) + "\""@,
        _ => background(remote_path, port, low_overhead),
    }
}

/// The shell command that starts the daemon.
pub fn start_command(
    remote_path: &str,
    port: u16,
    low_overhead: bool,
    mode: RootMode,
) -> (s: String)
    ensures
        s@ == start_text(remote_path@, port, low_overhead, mode),
{
    let flags: &str = if low_overhead {
        "--low-overhead --sync-only"
    } else {
        "--legacy-mode"
    };
    let mut args = concat4(
        remote_path,
        " --daemon --grpc-port ",
        decimal_text(port as u64).as_str(),
        " ",
    );
    args.append(flags);
    let mut command = concat4(
        "LD_LIBRARY_PATH=",
        remote_dir(remote_path).as_str(),
        " nohup ",
        args.as_str(),
    );
    command.append(" > /dev/null 2>&1 &");
    match mode {
        RootMode::Su => concat3("su -c \"", command.as_str(), "\""),
        _ => command,
    }
}

proof fn lemma_decimal_word(port: u16)
    ensures
        decimal(port as nat).len() > 0,
        forall|i: int|
            0 <= i < decimal(port as nat).len() ==> !white(#[trigger] decimal(port as nat)[i]),
{
    crate::number::lemma_decimal_signed_chars(port as int);
    let d = crate::number::decimal_signed(port as int);
    assert forall|i: int| 0 <= i < d.len() implies !white(#[trigger] d[i]) by {
        assert(crate::number::digit(d[i]) || d[i] == '-');
    }
}

/// The words of the command line of a daemon that this library has started.
proof fn lemma_daemon_words(remote_path: Seq<char>, port: u16, low_overhead: bool)
    requires
        remote_path.len() > 0,
        forall|i: int| 0 <= i < remote_path.len() ==> !white(#[trigger] remote_path[i]),
    ensures
        words_of(daemon_args(remote_path, port, low_overhead)) == seq![
            remote_path,
            "--daemon"@,
            "--grpc-port"@,
            decimal(port as nat),
        ] + if low_overhead {
            seq!["--low-overhead"@, "--sync-only"@]
        } else {
            seq!["--legacy-mode"@]
        },
{
    let d = decimal(port as nat);
    let flags = mode_flags(low_overhead);
    reveal_strlit(" --daemon --grpc-port ");
    reveal_strlit("--daemon");
    reveal_strlit("--grpc-port");
    reveal_strlit(" ");
    reveal_strlit("--low-overhead --sync-only");
    reveal_strlit("--low-overhead");
    reveal_strlit("--sync-only");
    reveal_strlit("--legacy-mode");
    lemma_decimal_word(port);
    lemma_one_word(remote_path);
    lemma_one_word(d);
    lemma_one_word("--daemon"@);
    lemma_one_word("--grpc-port"@);
    lemma_one_word("--low-overhead"@);
    lemma_one_word("--sync-only"@);
    lemma_one_word("--legacy-mode"@);
    let a1 = remote_path.push(' ') + "--daemon"@;
    let a2 = a1.push(' ') + "--grpc-port"@;
    let a3 = a2.push(' ') + d;
    let a4 = a3.push(' ') + flags;
    lemma_words_join(remote_path, "--daemon"@);
    lemma_words_join(a1, "--grpc-port"@);
    lemma_words_join(a2, d);
    lemma_words_join(a3, flags);
    assert(daemon_args(remote_path, port, low_overhead) =~= a4);
    if low_overhead {
        lemma_words_join("--low-overhead"@, "--sync-only"@);
        assert(flags =~= "--low-overhead"@.push(' ') + "--sync-only"@);
    }
    assert(words_of(a4) =~= seq![remote_path, "--daemon"@, "--grpc-port"@, d]
        + if low_overhead {
        seq!["--low-overhead"@, "--sync-only"@]
    } else {
        seq!["--legacy-mode"@]
    });
}

/// A daemon that this library has started is known again: its command line
/// gives the port that it was started with, and matches the mode that it was
/// started in and not the other. The path of the binary is one word, and none
/// of the daemon's own options.
pub proof fn law_started_daemon_is_known_again(
    remote_path: Seq<char>,
    port: u16,
    low_overhead: bool,
)
    requires
        remote_path.len() > 0,
        forall|i: int| 0 <= i < remote_path.len() ==> !white(#[trigger] remote_path[i]),
        remote_path != "--grpc-port"@,
        remote_path != "--low-overhead"@,
        remote_path != "--sync-only"@,
        remote_path != "--legacy-mode"@,
    ensures
        grpc_port(Some(daemon_args(remote_path, port, low_overhead))) == Some(port),
        mode_of(Some(daemon_args(remote_path, port, low_overhead)), low_overhead) == Some(true),
        mode_of(Some(daemon_args(remote_path, port, low_overhead)), !low_overhead) == Some(false),
{
    lemma_daemon_words(remote_path, port, low_overhead);
    let w = words_of(daemon_args(remote_path, port, low_overhead));
    let d = decimal(port as nat);
    reveal_strlit("--daemon");
    reveal_strlit("--grpc-port");
    reveal_strlit("--low-overhead");
    reveal_strlit("--sync-only");
    reveal_strlit("--legacy-mode");
    assert("--daemon"@.len() == 8 && "--grpc-port"@.len() == 11);
    assert("--low-overhead"@.len() == 14 && "--sync-only"@.len() == 11 && "--legacy-mode"@.len()
        == 13);
    assert("--sync-only"@[2] != "--grpc-port"@[2]);
    crate::number::law_decimal_reads_back(port as int, 0, u16::MAX as int);
    reveal_with_fuel(port_from, 4);
    assert(w[2] == "--grpc-port"@);
    assert(w[3] == d);
    assert(port_from(w, 0) == Some(port));
    lemma_decimal_word(port);
    crate::number::lemma_decimal_signed_chars(port as int);
    assert(d == crate::number::decimal_signed(port as int));
    assert(d != "--low-overhead"@ && d != "--sync-only"@ && d != "--legacy-mode"@) by {
        lemma_no_minus(port as nat);
        assert("--low-overhead"@[0] == '-');
        assert("--sync-only"@[0] == '-');
        assert("--legacy-mode"@[0] == '-');
    }
    if low_overhead {
        assert(w[4] == "--low-overhead"@);
        assert(w[5] == "--sync-only"@);
        assert(!has_word(w, "--legacy-mode"@)) by {
            assert forall|i: int| 0 <= i < w.len() implies #[trigger] w[i] != "--legacy-mode"@ by {}
        }
    } else {
        assert(w[4] == "--legacy-mode"@);
        assert(!has_word(w, "--low-overhead"@)) by {
            assert forall|i: int| 0 <= i < w.len() implies #[trigger] w[i] != "--low-overhead"@ by {
            }
        }
    }
}

proof fn lemma_no_minus(n: nat)
    ensures
        decimal(n).len() > 0,
        decimal(n)[0] != '-',
    decreases n,
{
    if n >= 10 {
        lemma_no_minus(n / 10);
    }
}

} // verus!
