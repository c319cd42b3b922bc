//! What deploying the daemon and talking to `adb` comes to on the device.
use vstd::prelude::*;
use crate::adb::commands::{AdbCommand, AdbError, AdbOutput, not_executed, outcome_of};
use crate::adb::daemon::{
    RootMode, daemon_pid, daemon_uid, directory_of, first_word, grpc_port, has_word, mode_matches,
    mode_of, port_from, running, uid_from, uid_line,
};
use crate::adb::deploy::{
    AfterKill, DeployAction, DeployError, DeployState, DeployTarget, action_of, next_state,
};
use crate::adb::devices::{
    DeviceInfo, capture_from, device_of_line, devices_of_lines, field_of, present, run_end,
};
use crate::number::{
    decimal, decimal_signed, digit, law_decimal_reads_back, lemma_decimal_signed_chars, read_int,
};
use crate::text::{
    before_last, blank, file_text, last_index_of, law_file_lines, lemma_one_word, lossy_text,
    occurs, occurs_at, replaced, trimmed, white, without_cr, words_of,
};

verus! {

/// Where a deployment stands, as contracts speak of it.
pub type Deploying = DeployState<Seq<char>>;

// ---------------------------------------------------------------------------
// Starting the daemon
// ---------------------------------------------------------------------------

proof fn lemma_last_slash(dir: Seq<char>, name: Seq<char>)
    requires
        !name.contains('/'),
    ensures
        last_index_of(dir.push('/') + name, '/') == dir.len(),
        before_last(dir.push('/') + name, '/') == Some(dir),
    decreases name.len(),
{
    let s = dir.push('/') + name;
    if name.len() == 0 {
        assert(s =~= dir.push('/'));
    } else {
        let init = name.drop_last();
        assert forall|i: int| 0 <= i < init.len() implies init[i] != '/' by {
            assert(name.contains(name[i]));
        }
        assert(name.contains(name.last()));
        assert(s.drop_last() =~= dir.push('/') + init);
        lemma_last_slash(dir, init);
    }
    assert(s.take(dir.len() as int) =~= dir);
}

proof fn lemma_no_slash(s: Seq<char>)
    requires
        !s.contains('/'),
    ensures
        before_last(s, '/') is None,
    decreases s.len(),
{
    if s.len() > 0 {
        let init = s.drop_last();
        assert forall|i: int| 0 <= i < init.len() implies init[i] != '/' by {
            assert(s.contains(s[i]));
        }
        assert(s.contains(s.last()));
        lemma_no_slash(init);
    }
}

/// Where the deployment pushes the shared library.
pub open spec fn pushed_library(t: DeployTarget<Seq<char>>) -> Seq<char> {
    action_of(Deploying::PushLibrary, t)->PushLibrary_remote
}

/// The shell command that a deployment starts the daemon with.
pub open spec fn started_with(t: DeployTarget<Seq<char>>, mode: RootMode) -> Seq<char> {
    action_of(Deploying::Start { mode }, t)->Shell_0
}

/// The daemon finds the shared library that is pushed for it: the command
/// that starts it sets the library path to the directory into which the
/// library is pushed, which is that of the binary. A path without a directory
/// counts as one in the directory for temporary files.
pub proof fn law_the_daemon_finds_its_library(
    t: DeployTarget<Seq<char>>,
    dir: Seq<char>,
    name: Seq<char>,
    mode: RootMode,
)
    requires
        !name.contains('/'),
        t.remote_path == dir.push('/') + name || (t.remote_path == name && dir
            == "/data/local/tmp"@),
    ensures
        action_of(Deploying::PushLibrary, t) is PushLibrary,
        action_of(Deploying::Start { mode }, t) is Shell,
        pushed_library(t) == dir + "/libc++_shared.so"@,
        ({
            let environment = "LD_LIBRARY_PATH="@ + dir + " nohup "@ + t.remote_path + " "@;
            let s = started_with(t, mode);
            if mode == RootMode::Su {
                s.take(7 + environment.len() as int) == "su -c \""@ + environment
            } else {
                s.take(environment.len() as int) == environment
            }
        }),
{
    if t.remote_path == dir.push('/') + name {
        lemma_last_slash(dir, name);
    } else {
        lemma_no_slash(name);
    }
    assert(directory_of(t.remote_path) == dir);
    reveal_strlit(" ");
    reveal_strlit(" --daemon --grpc-port ");
    reveal_strlit("su -c \"");
    let environment = "LD_LIBRARY_PATH="@ + dir + " nohup "@ + t.remote_path + " "@;
    let s = started_with(t, mode);
    if mode == RootMode::Su {
        assert(s.take(7 + environment.len() as int) =~= "su -c \""@ + environment);
    } else {
        assert(s.take(environment.len() as int) =~= environment);
    }
}

/// What the daemon is started with behind its path: it runs as a daemon on
/// the port asked for, in the mode asked for, in the background, with nothing
/// printed; and through `su`, all of it in quotes, where root is had that way.
pub proof fn law_the_daemon_is_started_as_asked(t: DeployTarget<Seq<char>>, mode: RootMode)
    ensures
        ({
            let s = started_with(t, mode);
            let plain = started_with(t, RootMode::Adb);
            let tail = t.remote_path + " --daemon --grpc-port "@ + decimal(t.port as nat)
                + if t.low_overhead {
                " --low-overhead --sync-only > /dev/null 2>&1 &"@
            } else {
                " --legacy-mode > /dev/null 2>&1 &"@
            };
            &&& tail.len() <= plain.len()
            &&& plain.skip(plain.len() - tail.len()) == tail
            &&& mode != RootMode::Su ==> s == plain
            &&& mode == RootMode::Su ==> s == "su -c \""@ + plain + "\""@
        }),
{
    reveal_strlit(" ");
    reveal_strlit(" --daemon --grpc-port ");
    reveal_strlit("--low-overhead --sync-only");
    reveal_strlit("--legacy-mode");
    reveal_strlit(" > /dev/null 2>&1 &");
    reveal_strlit(" --low-overhead --sync-only > /dev/null 2>&1 &");
    reveal_strlit(" --legacy-mode > /dev/null 2>&1 &");
    let plain = started_with(t, RootMode::Adb);
    let flags = if t.low_overhead {
        " --low-overhead --sync-only > /dev/null 2>&1 &"@
    } else {
        " --legacy-mode > /dev/null 2>&1 &"@
    };
    assert(flags =~= " "@ + crate::adb::daemon::mode_flags(t.low_overhead)
        + " > /dev/null 2>&1 &"@);
    let tail = t.remote_path + " --daemon --grpc-port "@ + decimal(t.port as nat) + flags;
    let head = "LD_LIBRARY_PATH="@ + directory_of(t.remote_path) + " nohup "@;
    assert(plain =~= head + tail);
    assert(plain.skip(plain.len() - tail.len()) =~= tail);
}

/// What is pushed is what is made executable and started: the binary goes
/// from the local path to the remote one, and the library from beside it.
pub proof fn law_what_is_pushed_is_made_executable(t: DeployTarget<Seq<char>>)
    ensures
        action_of(Deploying::PushBinary, t) == (DeployAction::Push {
            local: t.local_path,
            remote: t.remote_path,
        }),
        action_of(Deploying::PushLibrary, t)->PushLibrary_local == t.local_path,
        action_of(Deploying::Chmod, t) == DeployAction::Shell("chmod +x "@ + t.remote_path),
{
}

/// What is asked and done on the way: every look for the daemon asks for its
/// process by name, its status and command line are read under its process,
/// it is killed by name, with `su` where a plain kill was not enough, and the
/// two seconds, five and three that a poll may take.
pub proof fn law_the_daemon_is_looked_for_by_name(
    state: DeployState<Seq<char>>,
    t: DeployTarget<Seq<char>>,
)
    ensures
        ({
            let a = action_of(state, t);
            let look = "pidof realtime_profile"@;
            &&& state is CheckRunning || state is FindPid || state is FindPidForMode
                || state is KillCheck || state is StopCheck || state is Verify ==> a
                == DeployAction::Shell(look)
            &&& state matches Deploying::ReadUid { pid } ==> a == DeployAction::Shell(
                "cat /proc/"@ + decimal_signed(pid as int) + "/status"@,
            )
            &&& state matches Deploying::ReadMode { pid } ==> a == DeployAction::Shell(
                "cat /proc/"@ + pid + "/cmdline | tr '\\0' ' '"@,
            )
            &&& state is Kill || state is Stop ==> a == DeployAction::Shell(
                "pkill -f realtime_profile"@,
            )
            &&& state is KillSu || state is StopSu ==> a == DeployAction::Shell(
                "su -c \"pkill -f realtime_profile\""@,
            )
            &&& state matches Deploying::KillWait { next: _, first } ==> a
                == (DeployAction::Poll { command: look, limit_secs: 2, first })
            &&& state matches Deploying::StopWait { mode: _, first } ==> a
                == (DeployAction::Poll { command: look, limit_secs: 2, first })
            &&& state matches Deploying::StartWait { first } ==> a == (DeployAction::Poll {
                command: look,
                limit_secs: 3,
                first,
            })
            &&& state matches Deploying::RootWait { first } ==> a == (DeployAction::Poll {
                command: "echo ok"@,
                limit_secs: 5,
                first,
            })
            &&& state is Root ==> a is Root
            &&& state is RootCheck ==> a == DeployAction::Shell("id"@)
            &&& state is SuCheck ==> a == DeployAction::Shell("su -c id"@)
            &&& state is RootPermissive ==> a == DeployAction::Shell("setenforce 0"@)
            &&& state is SuPermissive ==> a == DeployAction::Shell("su -c setenforce 0"@)
        }),
{
}

/// How root is had decides how the daemon is started: as the shell's own root
/// only where the shell was seen to be root, through `su` only where `su` was,
/// and without root only where neither was.
pub proof fn law_root_is_had_as_it_was_seen(
    state: DeployState<Seq<char>>,
    t: DeployTarget<Seq<char>>,
    output: Option<Seq<char>>,
    late: bool,
)
    ensures
        ({
            let next = next_state(state, t, output, late);
            let root = output is Some && occurs(output->Some_0, "uid=0"@);
            &&& state is RootCheck ==> if root {
                next is RootPermissive
            } else {
                next is SuCheck
            }
            &&& state is RootPermissive ==> next == (Deploying::Stop { mode: RootMode::Adb })
            &&& state is SuCheck ==> if root {
                next is SuPermissive
            } else {
                next == (Deploying::Stop { mode: RootMode::NoRoot })
            }
            &&& state is SuPermissive ==> next == (Deploying::Stop { mode: RootMode::Su })
            &&& next is RootPermissive ==> state is RootCheck
            &&& next is SuPermissive ==> state is SuCheck
            &&& state matches Deploying::Stop { mode } ==> if mode == RootMode::Su {
                next == (Deploying::StopCheck { mode })
            } else {
                next == (Deploying::StopWait { mode, first: true })
            }
            &&& state matches Deploying::StopCheck { mode } ==> if running(output) {
                next == (Deploying::StopSu { mode })
            } else {
                next == (Deploying::StopWait { mode, first: true })
            }
            &&& state matches Deploying::StopSu { mode } ==> next == (Deploying::StopWait {
                mode,
                first: true,
            })
            &&& state matches Deploying::StopWait { mode, first: _ } ==> if running(output)
                && !late {
                next == (Deploying::StopWait { mode, first: false })
            } else {
                next == (Deploying::Start { mode })
            }
        }),
{
}

/// A daemon that runs is left alone only where its process, its root user and
/// the mode asked for were all seen; anything else has it killed and deployed
/// anew. Where none runs, one is deployed at once.
pub proof fn law_a_daemon_is_kept_or_deployed_anew(
    state: DeployState<Seq<char>>,
    t: DeployTarget<Seq<char>>,
    output: Option<Seq<char>>,
    late: bool,
)
    ensures
        ({
            let next = next_state(state, t, output, late);
            let anew = Deploying::Kill { next: AfterKill::Deploy };
            let begin = if t.local_path.len() > 0 {
                Deploying::Kill { next: AfterKill::Push }
            } else {
                Deploying::Chmod
            };
            &&& state is CheckRunning ==> next == if running(output) {
                Deploying::FindPid
            } else {
                begin
            }
            &&& state is FindPid && daemon_pid(output) is None ==> next == anew
            &&& state is FindPid && daemon_pid(output) is Some ==> next == (Deploying::ReadUid {
                pid: daemon_pid(output)->Some_0,
            })
            &&& state is ReadUid && daemon_uid(output) != Some(0u32) ==> next == anew
            &&& state is ReadUid && daemon_uid(output) == Some(0u32) ==> next is FindPidForMode
            &&& state is FindPidForMode && first_word(output) is None ==> next == anew
            &&& state is FindPidForMode && first_word(output) is Some ==> next == (
            Deploying::ReadMode { pid: first_word(output)->Some_0 })
            &&& state is ReadMode && mode_of(output, t.low_overhead) != Some(true) ==> next == anew
            &&& state is ReadMode && mode_of(output, t.low_overhead) == Some(true) ==> next
                == Deploying::Finished(Ok(()))
            &&& state matches Deploying::Kill { next: then_what } ==> next == (
            Deploying::KillCheck { next: then_what })
            &&& state matches Deploying::KillCheck { next: then_what } ==> if running(output) {
                next == (Deploying::KillSu { next: then_what })
            } else {
                next == (Deploying::KillWait { next: then_what, first: true })
            }
            &&& state matches Deploying::KillSu { next: then_what } ==> next == (
            Deploying::KillWait { next: then_what, first: true })
            &&& state matches Deploying::KillWait { next: then_what, first: _ } ==> if running(
                output,
            ) && !late {
                next == (Deploying::KillWait { next: then_what, first: false })
            } else if then_what == AfterKill::Deploy {
                next == begin
            } else {
                next is PushBinary
            }
        }),
{
}

/// A deployment goes on as long as each step is done, and ends with the step
/// that was not: the binary, the library, making it executable, starting it,
/// and at the end whether it runs, which is said otherwise where there was no
/// binary to push.
pub proof fn law_a_deployment_ends_at_the_step_that_failed(
    state: DeployState<Seq<char>>,
    t: DeployTarget<Seq<char>>,
    output: Option<Seq<char>>,
    late: bool,
)
    ensures
        ({
            let next = next_state(state, t, output, late);
            let done = output is Some;
            &&& state is PushBinary ==> next == if done {
                Deploying::PushLibrary
            } else {
                Deploying::Finished(Err(DeployError::PushBinary))
            }
            &&& state is PushLibrary ==> next == if done {
                Deploying::Chmod
            } else {
                Deploying::Finished(Err(DeployError::PushLibrary))
            }
            &&& state is Chmod ==> next == if done {
                Deploying::Root
            } else {
                Deploying::Finished(Err(DeployError::Chmod))
            }
            &&& state is Root ==> next == (Deploying::RootWait { first: true })
            &&& state is RootWait ==> next == if done || late {
                Deploying::RootCheck
            } else {
                Deploying::RootWait { first: false }
            }
            &&& state is Start ==> next == if done {
                Deploying::StartWait { first: true }
            } else {
                Deploying::Finished(Err(DeployError::Start))
            }
            &&& state is StartWait ==> next == if running(output) || late {
                Deploying::Verify
            } else {
                Deploying::StartWait { first: false }
            }
            &&& state is Verify ==> next == Deploying::Finished(
                if running(output) {
                    Ok(())
                } else if t.local_path.len() > 0 {
                    Err(DeployError::NotAliveAfterPush)
                } else {
                    Err(DeployError::NotAliveWithoutBinary)
                },
            )
        }),
{
}

// ---------------------------------------------------------------------------
// Reading what the device prints
// ---------------------------------------------------------------------------

proof fn lemma_words_joined(a: Seq<char>, c: char, b: Seq<char>)
    requires
        white(c),
    ensures
        words_of(a.push(c) + b) == words_of(a) + words_of(b),
    decreases b.len(),
{
    let t = a.push(c) + b;
    if b.len() == 0 {
        assert(t =~= a.push(c));
        assert(t.drop_last() =~= a);
        assert(words_of(a) + words_of(b) =~= words_of(a));
    } else {
        let init = b.drop_last();
        lemma_words_joined(a, c, init);
        assert(t.drop_last() =~= a.push(c) + init);
        assert(t.last() == b.last());
        if b.len() == 1 {
            assert(t[t.len() - 2] == c);
            assert(words_of(init) =~= Seq::<Seq<char>>::empty());
            assert(words_of(a) + words_of(b) =~= (words_of(a) + words_of(init)) + words_of(b));
        } else {
            assert(t[t.len() - 2] == b[b.len() - 2]);
            let p = words_of(init);
            if white(b.last()) {
            } else if white(b[b.len() - 2]) {
                assert(words_of(a) + p.push(seq![b.last()]) =~= (words_of(a) + p).push(
                    seq![b.last()],
                ));
            } else {
                lemma_has_words(init);
                let longer = p.drop_last().push(p.last().push(b.last()));
                assert((words_of(a) + p).drop_last() =~= words_of(a) + p.drop_last());
                assert(words_of(a) + longer =~= (words_of(a) + p).drop_last().push(
                    p.last().push(b.last()),
                ));
            }
        }
    }
}

proof fn lemma_has_words(s: Seq<char>)
    requires
        s.len() > 0,
        !white(s.last()),
    ensures
        words_of(s).len() > 0,
    decreases s.len(),
{
    if s.len() > 1 && !white(s[s.len() - 2]) {
        assert(s.drop_last().last() == s[s.len() - 2]);
        lemma_has_words(s.drop_last());
    }
}

/// Whether a text is one word.
pub open spec fn one_word(w: Seq<char>) -> bool {
    w.len() > 0 && forall|i: int| 0 <= i < w.len() ==> !white(#[trigger] w[i])
}

proof fn lemma_number_word(n: int)
    ensures
        one_word(decimal_signed(n)),
{
    lemma_decimal_signed_chars(n);
    let d = decimal_signed(n);
    assert forall|i: int| 0 <= i < d.len() implies !white(#[trigger] d[i]) by {
        assert(digit(d[i]) || d[i] == '-');
    }
}

/// The daemon's process is the first number that `pidof` prints, whatever
/// follows; nothing that is printed, or nothing but white space, says that it
/// does not run.
pub proof fn law_the_process_is_the_first_number(pid: i32, c: char, rest: Seq<char>)
    requires
        white(c),
    ensures
        daemon_pid(Some(decimal_signed(pid as int).push(c) + rest)) == Some(pid),
        first_word(Some(decimal_signed(pid as int).push(c) + rest)) == Some(
            decimal_signed(pid as int),
        ),
        running(Some(decimal_signed(pid as int).push(c) + rest)),
        !running(None),
        blank(rest) ==> !running(Some(rest)),
        daemon_pid(None) is None,
{
    let d = decimal_signed(pid as int);
    let o = d.push(c) + rest;
    lemma_number_word(pid as int);
    lemma_one_word(d);
    lemma_words_joined(d, c, rest);
    assert(words_of(o)[0] == d);
    law_decimal_reads_back(pid as int, i32::MIN as int, i32::MAX as int);
    assert(o[0] == d[0]);
    assert(!white(o[0]));
}

proof fn lemma_uid_from(lines: Seq<Seq<char>>, from: int, k: int)
    requires
        0 <= from <= k <= lines.len(),
        forall|j: int| from <= j < k ==> !uid_line(#[trigger] lines[j]),
    ensures
        uid_from(lines, from) == uid_from(lines, k),
    decreases k - from,
{
    if from < k {
        assert(!uid_line(lines[from]));
        lemma_uid_from(lines, from + 1, k);
    }
}

/// The daemon's user is the effective one: of the line that gives its users,
/// the second number, behind the real user's.
pub proof fn law_the_user_is_the_effective_one(
    before: Seq<Seq<char>>,
    own: u32,
    effective: u32,
    rest: Seq<char>,
    after: Seq<Seq<char>>,
)
    requires
        forall|j: int|
            0 <= j < before.len() ==> !occurs_at(#[trigger] before[j], "Uid:"@, 0)
                && !before[j].contains('\n') && without_cr(before[j]) == before[j],
        forall|j: int|
            0 <= j < after.len() ==> !(#[trigger] after[j]).contains('\n') && without_cr(
                after[j],
            ) == after[j],
        !rest.contains('\n'),
        rest.len() > 0,
        rest.last() != '\r',
    ensures
        ({
            let line = "Uid:"@.push('\t') + (decimal_signed(own as int).push('\t') + (
            decimal_signed(effective as int).push('\t') + rest));
            daemon_uid(Some(file_text(before.push(line) + after))) == Some(effective)
        }),
{
    let a = decimal_signed(own as int);
    let b = decimal_signed(effective as int);
    let tail = b.push('\t') + rest;
    let middle = a.push('\t') + tail;
    let line = "Uid:"@.push('\t') + middle;
    reveal_strlit("Uid:");
    lemma_number_word(own as int);
    lemma_number_word(effective as int);
    lemma_one_word(a);
    lemma_one_word(b);
    lemma_one_word("Uid:"@);
    lemma_words_joined(b, '\t', rest);
    lemma_words_joined(a, '\t', tail);
    lemma_words_joined("Uid:"@, '\t', middle);
    let w = words_of(line);
    assert(w[2] == b);
    assert(line.subrange(0, 4) =~= "Uid:"@);
    assert(uid_line(line));
    let lines = before.push(line) + after;
    assert(!line.contains('\n')) by {
        lemma_decimal_signed_chars(own as int);
        lemma_decimal_signed_chars(effective as int);
        assert forall|i: int| 0 <= i < line.len() implies line[i] != '\n' by {
            if i < 4 {
            } else if i == 4 {
            } else if i < 5 + a.len() {
                assert(line[i] == a[i - 5]);
                assert(digit(a[i - 5]) || a[i - 5] == '-');
            } else if i == 5 + a.len() {
            } else if i < 6 + a.len() + b.len() {
                assert(line[i] == b[i - 6 - a.len()]);
                assert(digit(b[i - 6 - a.len()]) || b[i - 6 - a.len()] == '-');
            } else if i == 6 + a.len() + b.len() {
            } else {
                assert(line[i] == rest[i - 7 - a.len() - b.len()]);
                assert(rest.contains(rest[i - 7 - a.len() - b.len()]));
            }
        }
    }
    assert(line.last() == rest.last());
    assert forall|i: int| 0 <= i < lines.len() implies !(#[trigger] lines[i]).contains('\n')
        && without_cr(lines[i]) == lines[i] by {
        if i < before.len() {
            assert(lines[i] == before[i]);
        } else if i > before.len() {
            assert(lines[i] == after[i - before.len() - 1]);
        }
    }
    law_file_lines(lines);
    assert forall|j: int| 0 <= j < before.len() implies !uid_line(#[trigger] lines[j]) by {
        assert(lines[j] == before[j]);
    }
    lemma_uid_from(lines, 0, before.len() as int);
    assert(lines[before.len() as int] == line);
    law_decimal_reads_back(effective as int, 0, u32::MAX as int);
}

/// The mode of a daemon by its words: the low-overhead one has both of that
/// mode's words and not the other's, the legacy one has the legacy word or
/// lacks the word for low overhead.
pub proof fn law_modes_are_told_by_their_words(w: Seq<Seq<char>>)
    ensures
        mode_matches(w, true) <==> has_word(w, "--low-overhead"@) && has_word(w, "--sync-only"@)
            && !has_word(w, "--legacy-mode"@),
        mode_matches(w, false) <==> has_word(w, "--legacy-mode"@) || !has_word(
            w,
            "--low-overhead"@,
        ),
        has_word(w, "--low-overhead"@) <==> w.contains("--low-overhead"@),
        has_word(w, "--sync-only"@) <==> w.contains("--sync-only"@),
        has_word(w, "--legacy-mode"@) <==> w.contains("--legacy-mode"@),
        mode_of(None, true) is None && mode_of(None, false) is None,
        grpc_port(None) is None,
{
}

proof fn lemma_port_from(w: Seq<Seq<char>>, i: int, k: int)
    requires
        0 <= i <= k <= w.len(),
        forall|j: int| i <= j < k ==> #[trigger] w[j] != "--grpc-port"@,
    ensures
        port_from(w, i) == port_from(w, k),
    decreases k - i,
{
    if i < k {
        assert(w[i] != "--grpc-port"@);
        lemma_port_from(w, i + 1, k);
    }
}

/// The port of a daemon is the number behind the first word of its command
/// line that announces it; where no word does, or no port follows, there is
/// none.
pub proof fn law_the_port_stands_behind_its_word(cmdline: Seq<char>, k: int, port: u16)
    requires
        0 <= k <= words_of(cmdline).len(),
        forall|j: int| 0 <= j < k ==> #[trigger] words_of(cmdline)[j] != "--grpc-port"@,
        k < words_of(cmdline).len() ==> words_of(cmdline)[k] == "--grpc-port"@,
    ensures
        k + 1 < words_of(cmdline).len() && words_of(cmdline)[k + 1] == decimal(port as nat)
            ==> grpc_port(Some(cmdline)) == Some(port),
        k + 1 < words_of(cmdline).len() && read_int(
            words_of(cmdline)[k + 1],
            0,
            u16::MAX as int,
        ) is Err ==> grpc_port(Some(cmdline)) is None,
        k + 1 >= words_of(cmdline).len() ==> grpc_port(Some(cmdline)) is None,
{
    lemma_port_from(words_of(cmdline), 0, k);
    law_decimal_reads_back(port as int, 0, u16::MAX as int);
    assert(decimal_signed(port as int) == decimal(port as nat));
}

/// A device is listed by its line: the first word is its serial number, the
/// second its state. The header and what `adb` says of itself list none.
pub proof fn law_a_device_is_listed_by_its_line(
    serial: Seq<char>,
    c: char,
    state: Seq<char>,
)
    requires
        one_word(serial),
        one_word(state),
        white(c),
        !occurs_at(serial.push(c) + state, "List of"@, 0),
        serial[0] != '*',
    ensures
        ({
            let d = device_of_line(serial.push(c) + state);
            &&& d is Some
            &&& d->Some_0.serial == serial
            &&& d->Some_0.state == state
        }),
{
    let l = serial.push(c) + state;
    assert(l[0] == serial[0] && l.last() == state.last());
    assert(!white(serial[0]) && !white(state[state.len() - 1]));
    assert(trimmed(l) == l);
    lemma_one_word(serial);
    lemma_one_word(state);
    lemma_words_joined(serial, c, state);
    let w = words_of(l);
    assert(w[0] == serial && w[1] == state);
    reveal_strlit("*");
    if occurs_at(l, "*"@, 0) {
        assert(l.subrange(0, 1)[0] == l[0]);
    }
}

proof fn lemma_run_end(s: Seq<char>, i: int, j: int)
    requires
        0 <= i <= j <= s.len(),
        forall|k: int| i <= k < j ==> !white(#[trigger] s[k]),
        j < s.len() ==> white(s[j]),
    ensures
        run_end(s, i) == j,
    decreases j - i,
{
    if i < j {
        assert(!white(s[i]));
        lemma_run_end(s, i + 1, j);
    }
}

proof fn lemma_capture(s: Seq<char>, key: Seq<char>, from: int, i: int)
    requires
        0 <= from <= i,
        i + key.len() < s.len(),
        forall|k: int| from <= k < i ==> !occurs_at(s, key, k),
    ensures
        capture_from(s, key, from) == capture_from(s, key, i),
    decreases i - from,
{
    if from < i {
        lemma_capture(s, key, from + 1, i);
    }
}

/// What a line says under a key is the word behind the first such key, up to
/// the next white space or the end.
pub proof fn law_a_field_is_the_word_behind_its_key(
    head: Seq<char>,
    key: Seq<char>,
    value: Seq<char>,
    tail: Seq<char>,
)
    requires
        one_word(value),
        tail.len() == 0 || white(tail[0]),
        forall|k: int| 0 <= k < head.len() ==> !occurs_at(head + key + value + tail, key, k),
    ensures
        field_of(head + key + value + tail, key) == value,
{
    let s = head + key + value + tail;
    let i = head.len() as int;
    assert(s.subrange(i, i + key.len()) =~= key);
    let v = i + key.len();
    assert(s[v] == value[0]);
    lemma_capture(s, key, 0, i);
    assert forall|k: int| v <= k < v + value.len() implies !white(#[trigger] s[k]) by {
        assert(s[k] == value[k - v]);
    }
    lemma_run_end(s, v, v + value.len() as int);
    assert(s.subrange(v, v + value.len() as int) =~= value);
}

/// What a listed device is called: its product, its device name and its model
/// are each the field of that name, the model with blanks for underscores.
pub proof fn law_a_device_has_the_fields_of_its_line(line: Seq<char>)
    requires
        device_of_line(line) is Some,
    ensures
        ({
            let d = device_of_line(line)->Some_0;
            let l = trimmed(line);
            &&& d.product == field_of(l, "product:"@)
            &&& d.device_name == field_of(l, "device:"@)
            &&& d.model == replaced(field_of(l, "model:"@), '_', " "@)
            &&& d.serial == words_of(l)[0]
            &&& d.state == words_of(l)[1]
        }),
{
}

/// Devices are listed in the order of their lines, and each line lists no
/// more than one.
pub proof fn law_devices_are_listed_in_order(lines: Seq<Seq<char>>, next: Seq<char>)
    ensures
        devices_of_lines(lines.push(next)) == match device_of_line(next) {
            Some(d) => devices_of_lines(lines).push(d),
            None => devices_of_lines(lines),
        },
        devices_of_lines(Seq::empty()).len() == 0,
        occurs_at(trimmed(next), "List of"@, 0) ==> device_of_line(next) is None,
        occurs_at(trimmed(next), "*"@, 0) ==> device_of_line(next) is None,
        blank(next) ==> device_of_line(next) is None,
{
    assert(lines.push(next).drop_last() =~= lines);
    crate::text::lemma_blank_iff_trimmed_empty(next);
}

/// A device can be connected to exactly where it is listed with the state of
/// one that is ready.
pub proof fn law_a_device_must_be_ready(devices: Seq<DeviceInfo<Seq<char>>>, k: int)
    requires
        0 <= k < devices.len(),
    ensures
        devices[k].state == "device"@ ==> present(devices, devices[k].serial),
        (forall|j: int|
            0 <= j < devices.len() && (#[trigger] devices[j]).serial == devices[k].serial
                ==> devices[j].state != "device"@) ==> !present(devices, devices[k].serial),
{
}

// ---------------------------------------------------------------------------
// Commands
// ---------------------------------------------------------------------------

/// What `adb` is told: a command for one device names the device first; a
/// file is pushed from the local path to the remote one and pulled from the
/// remote path to the local one; a port is forwarded from the local one to the
/// device's, and reversed from the device's to the local one.
pub proof fn law_adb_is_told_what_was_asked(
    serial: Seq<char>,
    a: Seq<char>,
    b: Seq<char>,
    p: u16,
    q: u16,
)
    ensures
        AdbCommand::<Seq<char>>::Devices.arguments() == seq!["devices"@, "-l"@],
        (AdbCommand::Shell { serial, command: a }).arguments() == seq!["-s"@, serial, "shell"@, a],
        (AdbCommand::Push { serial, local: a, remote: b }).arguments() == seq![
            "-s"@,
            serial,
            "push"@,
            "-z"@,
            "zstd"@,
            a,
            b,
        ],
        (AdbCommand::Pull { serial, remote: a, local: b }).arguments() == seq![
            "-s"@,
            serial,
            "pull"@,
            "-z"@,
            "zstd"@,
            a,
            b,
        ],
        (AdbCommand::Root { serial }).arguments() == seq!["-s"@, serial, "root"@],
        (AdbCommand::Remount { serial }).arguments() == seq!["-s"@, serial, "remount"@],
        (AdbCommand::Disconnect { serial }).arguments() == seq!["disconnect"@, serial],
        AdbCommand::<Seq<char>>::DisconnectAll.arguments() == seq!["disconnect"@],
        (AdbCommand::Tcpip { serial, port: p }).arguments() == seq![
            "-s"@,
            serial,
            "tcpip"@,
            decimal(p as nat),
        ],
        (AdbCommand::Connect { ip: a, port: p }).arguments() == seq![
            "connect"@,
            a + ":"@ + decimal(p as nat),
        ],
        (AdbCommand::Forward { serial, local_port: p, remote_port: q }).arguments() == seq![
            "-s"@,
            serial,
            "forward"@,
            "tcp:"@ + decimal(p as nat),
            "tcp:"@ + decimal(q as nat),
        ],
        (AdbCommand::Reverse { serial, device_port: p, host_port: q }).arguments() == seq![
            "-s"@,
            serial,
            "reverse"@,
            "tcp:"@ + decimal(p as nat),
            "tcp:"@ + decimal(q as nat),
        ],
        (AdbCommand::ReverseRemove { serial, device_port: p }).arguments() == seq![
            "-s"@,
            serial,
            "reverse"@,
            "--remove"@,
            "tcp:"@ + decimal(p as nat),
        ],
{
}

/// What a command comes to: where its exit status counts, a bad one is a
/// failure with what was printed about it; asking for root, disconnecting and
/// connecting are judged by what they print, and only connecting can fail so.
/// Copying and forwarding give no text, a list of devices its text as it is,
/// and anything else its text without white space around it.
pub proof fn law_commands_come_to_what_they_print(
    c: AdbCommand<Seq<char>>,
    output: AdbOutput,
)
    ensures
        ({
            let r = outcome_of(c, output);
            let out = lossy_text(output.stdout@);
            let lenient = c is Root || c is Disconnect || c is DisconnectAll || c is Connect;
            let refused = occurs(trimmed(out), "cannot connect"@) || occurs(
                trimmed(out),
                "failed to connect"@,
            );
            &&& !lenient && !output.success ==> r == Err::<Seq<char>, AdbError<Seq<char>>>(
                AdbError::Failed(c.name(), lossy_text(output.stderr@)),
            )
            &&& c is Connect && refused ==> r == Err::<Seq<char>, AdbError<Seq<char>>>(
                AdbError::Failed("connect"@, trimmed(out)),
            )
            &&& (lenient || output.success) && !(c is Connect && refused) ==> r == Ok::<
                Seq<char>,
                AdbError<Seq<char>>,
            >(
                if c is Push || c is Pull || c is Forward || c is Reverse || c is ReverseRemove {
                    Seq::empty()
                } else if c is Devices {
                    out
                } else {
                    trimmed(out)
                },
            )
        }),
        c is Shell ==> c.name() == "shell"@,
        c is Push ==> c.name() == "push"@,
        c is Pull ==> c.name() == "pull"@,
        c is Remount ==> c.name() == "remount"@,
        c is Tcpip ==> c.name() == "tcpip"@,
        c is Forward ==> c.name() == "forward"@,
        c is Reverse || c is ReverseRemove ==> c.name() == "reverse"@,
        c is Root ==> c.name() == "root"@,
        c is Devices ==> c.name() == "devices"@,
        not_executed(c) == AdbError::NotExecuted(
            if c is Devices {
                "devices -l"@
            } else {
                c.name()
            },
        ),
{
}

} // verus!
