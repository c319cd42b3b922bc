//! Making sure that the daemon runs as root in the mode asked for, step by
//! step: each step names one thing to be done, and what came of it leads to
//! the next.
use vstd::prelude::*;
use crate::adb::daemon::{
    RootMode, daemon_low_overhead_matches, daemon_pid, daemon_uid, directory_of, first_word,
    get_daemon_pid, get_daemon_uid, is_running, mode_of, remote_library, running, start_command,
    start_text, take_first_word,
};
use crate::number::{decimal_signed, signed_text};
use crate::text::{concat2, concat3, contains_text, occurs};

verus! {

/// What to deploy. `S` is the type of its texts; an empty local path says that
/// the binary is on the device already.
#[derive(Debug, Clone)]
pub struct DeployTarget<S> {
    pub serial: S,
    pub local_path: S,
    pub remote_path: S,
    pub port: u16,
    pub low_overhead: bool,
}

impl View for DeployTarget<String> {
    type V = DeployTarget<Seq<char>>;

    open spec fn view(&self) -> DeployTarget<Seq<char>> {
        DeployTarget {
            serial: self.serial@,
            local_path: self.local_path@,
            remote_path: self.remote_path@,
            port: self.port,
            low_overhead: self.low_overhead,
        }
    }
}

/// What stops a deployment.
#[derive(Debug, Clone, Copy, PartialEq, Eq, Structural)]
pub enum DeployError {
    PushBinary,
    PushLibrary,
    Chmod,
    Start,
    /// The daemon does not run though its binary was pushed and started.
    NotAliveAfterPush,
    /// The daemon does not run, and there was no binary to push.
    NotAliveWithoutBinary,
}

impl DeployError {
    /// The error in words.
    pub open spec fn words(self) -> Seq<char> {
        match self {
            DeployError::PushBinary => "Failed to push realtime_profile binary"@,
            DeployError::PushLibrary => "Failed to push libc++_shared.so"@,
            DeployError::Chmod => "Failed to chmod realtime_profile"@,
            DeployError::Start => "Failed to start realtime_profile daemon"@,
            DeployError::NotAliveAfterPush => "部署後 daemon 仍無法啟動"@,
            DeployError::NotAliveWithoutBinary => "Daemon 啟動失敗且未提供 local binary 路徑"@,
        }
    }

    /// The error in words.
    pub fn message(&self) -> (s: String)
        ensures
            s@ == self.words(),
    {
        match self {
            DeployError::PushBinary => "Failed to push realtime_profile binary".to_string(),
            DeployError::PushLibrary => "Failed to push libc++_shared.so".to_string(),
            DeployError::Chmod => "Failed to chmod realtime_profile".to_string(),
            DeployError::Start => "Failed to start realtime_profile daemon".to_string(),
            DeployError::NotAliveAfterPush => "部署後 daemon 仍無法啟動".to_string(),
            DeployError::NotAliveWithoutBinary => {
                "Daemon 啟動失敗且未提供 local binary 路徑".to_string()
            },
        }
    }
}

/// What follows after the daemon has been killed.
#[derive(Debug, Clone, Copy, PartialEq, Eq, Structural)]
pub enum AfterKill {
    /// Deploy and start it.
    Deploy,
    /// Push its binary.
    Push,
}

/// Where a deployment stands. `first` marks the first turn of a poll.
#[derive(Debug)]
pub enum DeployState<S> {
    CheckRunning,
    FindPid,
    ReadUid { pid: i32 },
    FindPidForMode,
    ReadMode { pid: S },
    Kill { next: AfterKill },
    KillCheck { next: AfterKill },
    KillSu { next: AfterKill },
    KillWait { next: AfterKill, first: bool },
    PushBinary,
    PushLibrary,
    Chmod,
    Root,
    RootWait { first: bool },
    RootCheck,
    RootPermissive,
    SuCheck,
    SuPermissive,
    Stop { mode: RootMode },
    StopCheck { mode: RootMode },
    StopSu { mode: RootMode },
    StopWait { mode: RootMode, first: bool },
    Start { mode: RootMode },
    StartWait { first: bool },
    Verify,
    Finished(Result<(), DeployError>),
}

impl View for DeployState<String> {
    type V = DeployState<Seq<char>>;

    open spec fn view(&self) -> DeployState<Seq<char>> {
        match self {
            DeployState::CheckRunning => DeployState::CheckRunning,
            DeployState::FindPid => DeployState::FindPid,
            DeployState::ReadUid { pid } => DeployState::ReadUid { pid: *pid },
            DeployState::FindPidForMode => DeployState::FindPidForMode,
            DeployState::ReadMode { pid } => DeployState::ReadMode { pid: pid@ },
            DeployState::Kill { next } => DeployState::Kill { next: *next },
            DeployState::KillCheck { next } => DeployState::KillCheck { next: *next },
            DeployState::KillSu { next } => DeployState::KillSu { next: *next },
            DeployState::KillWait { next, first } => DeployState::KillWait {
                next: *next,
                first: *first,
            },
            DeployState::PushBinary => DeployState::PushBinary,
            DeployState::PushLibrary => DeployState::PushLibrary,
            DeployState::Chmod => DeployState::Chmod,
            DeployState::Root => DeployState::Root,
            DeployState::RootWait { first } => DeployState::RootWait { first: *first },
            DeployState::RootCheck => DeployState::RootCheck,
            DeployState::RootPermissive => DeployState::RootPermissive,
            DeployState::SuCheck => DeployState::SuCheck,
            DeployState::SuPermissive => DeployState::SuPermissive,
            DeployState::Stop { mode } => DeployState::Stop { mode: *mode },
            DeployState::StopCheck { mode } => DeployState::StopCheck { mode: *mode },
            DeployState::StopSu { mode } => DeployState::StopSu { mode: *mode },
            DeployState::StopWait { mode, first } => DeployState::StopWait {
                mode: *mode,
                first: *first,
            },
            DeployState::Start { mode } => DeployState::Start { mode: *mode },
            DeployState::StartWait { first } => DeployState::StartWait { first: *first },
            DeployState::Verify => DeployState::Verify,
            DeployState::Finished(r) => DeployState::Finished(*r),
        }
    }
}

/// What is to be done next.
#[derive(Debug)]
pub enum DeployAction<S> {
    /// Run a shell command on the device.
    Shell(S),
    /// Wait a tenth of a second, then run a shell command. The time limit
    /// counts from the poll's first turn.
    Poll { command: S, limit_secs: u64, first: bool },
    /// Ask for a root shell.
    Root,
    /// Copy a file to the device.
    Push { local: S, remote: S },
    /// Copy the shared library that stands beside the binary to the device,
    /// where there is one.
    PushLibrary { local: S, remote: S },
    /// The deployment is over.
    Finish(Result<(), DeployError>),
}

impl View for DeployAction<String> {
    type V = DeployAction<Seq<char>>;

    open spec fn view(&self) -> DeployAction<Seq<char>> {
        match self {
            DeployAction::Shell(c) => DeployAction::Shell(c@),
            DeployAction::Poll { command, limit_secs, first } => DeployAction::Poll {
                command: command@,
                limit_secs: *limit_secs,
                first: *first,
            },
            DeployAction::Root => DeployAction::Root,
            DeployAction::Push { local, remote } => DeployAction::Push {
                local: local@,
                remote: remote@,
            },
            DeployAction::PushLibrary { local, remote } => DeployAction::PushLibrary {
                local: local@,
                remote: remote@,
            },
            DeployAction::Finish(r) => DeployAction::Finish(*r),
        }
    }
}

/// The command that prints the daemon's process.
pub open spec fn pidof() -> Seq<char> {
    "pidof realtime_profile"@
}

/// The command that prints the status of a process.
pub open spec fn status_command(pid: i32) -> Seq<char> {
    "cat /proc/"@ + decimal_signed(pid as int) + "/status"@
}

/// The command that prints the command line of a process.
pub open spec fn cmdline_command(pid: Seq<char>) -> Seq<char> {
    "cat /proc/"@ + pid + "/cmdline | tr '\\0' ' '"@
}

/// What is done in a state.
pub open spec fn action_of(
    state: DeployState<Seq<char>>,
    t: DeployTarget<Seq<char>>,
) -> DeployAction<Seq<char>> {
    match state {
        DeployState::CheckRunning => DeployAction::Shell(pidof()),
        DeployState::FindPid => DeployAction::Shell(pidof()),
        DeployState::ReadUid { pid } => DeployAction::Shell(status_command(pid)),
        DeployState::FindPidForMode => DeployAction::Shell(pidof()),
        DeployState::ReadMode { pid } => DeployAction::Shell(cmdline_command(pid)),
        DeployState::Kill { .. } => DeployAction::Shell("pkill -f realtime_profile"@),
        DeployState::KillCheck { .. } => DeployAction::Shell(pidof()),
        DeployState::KillSu { .. } => DeployAction::Shell("su -c \"pkill -f realtime_profile\""@),
        DeployState::KillWait { next: _, first } => DeployAction::Poll {
            command: pidof(),
            limit_secs: 2,
            first,
        },
        DeployState::PushBinary => DeployAction::Push {
            local: t.local_path,
            remote: t.remote_path,
        },
        DeployState::PushLibrary => DeployAction::PushLibrary {
            local: t.local_path,
            remote: directory_of(t.remote_path) + "/libc++_shared.so"@,
        },
        DeployState::Chmod => DeployAction::Shell("chmod +x "@ + t.remote_path),
        DeployState::Root => DeployAction::Root,
        DeployState::RootWait { first } => DeployAction::Poll {
            command: "echo ok"@,
            limit_secs: 5,
            first,
        },
        DeployState::RootCheck => DeployAction::Shell("id"@),
        DeployState::RootPermissive => DeployAction::Shell("setenforce 0"@),
        DeployState::SuCheck => DeployAction::Shell("su -c id"@),
        DeployState::SuPermissive => DeployAction::Shell("su -c setenforce 0"@),
        DeployState::Stop { .. } => DeployAction::Shell("pkill -f realtime_profile"@),
        DeployState::StopCheck { .. } => DeployAction::Shell(pidof()),
        DeployState::StopSu { .. } => DeployAction::Shell("su -c \"pkill -f realtime_profile\""@),
        DeployState::StopWait { mode: _, first } => DeployAction::Poll {
            command: pidof(),
            limit_secs: 2,
            first,
        },
        DeployState::Start { mode } => DeployAction::Shell(
            start_text(t.remote_path, t.port, t.low_overhead, mode),
        ),
        DeployState::StartWait { first } => DeployAction::Poll {
            command: pidof(),
            limit_secs: 3,
            first,
        },
        DeployState::Verify => DeployAction::Shell(pidof()),
        DeployState::Finished(r) => DeployAction::Finish(r),
    }
}

/// How a deployment begins: a binary that is to be pushed takes the place of
/// a daemon that runs.
pub open spec fn begin_deploy(t: DeployTarget<Seq<char>>) -> DeployState<Seq<char>> {
    if t.local_path.len() > 0 {
        DeployState::Kill { next: AfterKill::Push }
    } else {
        DeployState::Chmod
    }
}

/// What follows after the daemon has been killed.
pub open spec fn after_kill(next: AfterKill, t: DeployTarget<Seq<char>>) -> DeployState<Seq<char>> {
    match next {
        AfterKill::Deploy => begin_deploy(t),
        AfterKill::Push => DeployState::PushBinary,
    }
}

/// Whether the output of `id` is that of a root shell.
pub open spec fn is_root(output: Option<Seq<char>>) -> bool {
    output matches Some(o) && occurs(o, "uid=0"@)
}

/// Where a deployment goes on after what was done has printed `output`, or
/// failed; `late` says that the time limit of a poll has passed.
pub open spec fn next_state(
    state: DeployState<Seq<char>>,
    t: DeployTarget<Seq<char>>,
    output: Option<Seq<char>>,
    late: bool,
) -> DeployState<Seq<char>> {
    match state {
        DeployState::CheckRunning => if running(output) {
            DeployState::FindPid
        } else {
            begin_deploy(t)
        },
        DeployState::FindPid => match daemon_pid(output) {
            Some(pid) => DeployState::ReadUid { pid },
            None => DeployState::Kill { next: AfterKill::Deploy },
        },
        DeployState::ReadUid { .. } => if daemon_uid(output) == Some(0u32) {
            DeployState::FindPidForMode
        } else {
            DeployState::Kill { next: AfterKill::Deploy }
        },
        DeployState::FindPidForMode => match first_word(output) {
            Some(pid) => DeployState::ReadMode { pid },
            None => DeployState::Kill { next: AfterKill::Deploy },
        },
        DeployState::ReadMode { .. } => if mode_of(output, t.low_overhead) == Some(true) {
            DeployState::Finished(Ok(()))
        } else {
            DeployState::Kill { next: AfterKill::Deploy }
        },
        DeployState::Kill { next } => DeployState::KillCheck { next },
        DeployState::KillCheck { next } => if running(output) {
            DeployState::KillSu { next }
        } else {
            DeployState::KillWait { next, first: true }
        },
        DeployState::KillSu { next } => DeployState::KillWait { next, first: true },
        DeployState::KillWait { next, first: _ } => if !running(output) || late {
            after_kill(next, t)
        } else {
            DeployState::KillWait { next, first: false }
        },
        DeployState::PushBinary => if output is Some {
            DeployState::PushLibrary
        } else {
            DeployState::Finished(Err(DeployError::PushBinary))
        },
        DeployState::PushLibrary => if output is Some {
            DeployState::Chmod
        } else {
            DeployState::Finished(Err(DeployError::PushLibrary))
        },
        DeployState::Chmod => if output is Some {
            DeployState::Root
        } else {
            DeployState::Finished(Err(DeployError::Chmod))
        },
        DeployState::Root => DeployState::RootWait { first: true },
        DeployState::RootWait { .. } => if output is Some || late {
            DeployState::RootCheck
        } else {
            DeployState::RootWait { first: false }
        },
        DeployState::RootCheck => if is_root(output) {
            DeployState::RootPermissive
        } else {
            DeployState::SuCheck
        },
        DeployState::RootPermissive => DeployState::Stop { mode: RootMode::Adb },
        DeployState::SuCheck => if is_root(output) {
            DeployState::SuPermissive
        } else {
            DeployState::Stop { mode: RootMode::NoRoot }
        },
        DeployState::SuPermissive => DeployState::Stop { mode: RootMode::Su },
        DeployState::Stop { mode } => if mode == RootMode::Su {
            DeployState::StopCheck { mode }
        } else {
            DeployState::StopWait { mode, first: true }
        },
        DeployState::StopCheck { mode } => if running(output) {
            DeployState::StopSu { mode }
        } else {
            DeployState::StopWait { mode, first: true }
        },
        DeployState::StopSu { mode } => DeployState::StopWait { mode, first: true },
        DeployState::StopWait { mode, first: _ } => if !running(output) || late {
            DeployState::Start { mode }
        } else {
            DeployState::StopWait { mode, first: false }
        },
        DeployState::Start { .. } => if output is Some {
            DeployState::StartWait { first: true }
        } else {
            DeployState::Finished(Err(DeployError::Start))
        },
        DeployState::StartWait { .. } => if running(output) || late {
            DeployState::Verify
        } else {
            DeployState::StartWait { first: false }
        },
        DeployState::Verify => if running(output) {
            DeployState::Finished(Ok(()))
        } else if t.local_path.len() > 0 {
            DeployState::Finished(Err(DeployError::NotAliveAfterPush))
        } else {
            DeployState::Finished(Err(DeployError::NotAliveWithoutBinary))
        },
        DeployState::Finished(r) => DeployState::Finished(r),
    }
}

fn pidof_text() -> (s: String)
    ensures
        s@ == pidof(),
{
    "pidof realtime_profile".to_string()
}

/// The first step of making sure that the daemon runs as root: look whether
/// it runs.
pub fn ensure_running_rooted() -> (s: DeployState<String>)
    ensures
        s@ == DeployState::<Seq<char>>::CheckRunning,
{
    DeployState::CheckRunning
}

/// The first step of a deployment: a daemon that runs is killed where there is
/// a binary to push in its place.
pub fn deploy_and_start(t: &DeployTarget<String>) -> (s: DeployState<String>)
    ensures
        s@ == begin_deploy(t@),
{
    if crate::text::chars_of(t.local_path.as_str()).len() > 0 {
        DeployState::Kill { next: AfterKill::Push }
    } else {
        DeployState::Chmod
    }
}

impl DeployState<String> {
    /// What is done in this state.
    pub fn action(&self, t: &DeployTarget<String>) -> (a: DeployAction<String>)
        ensures
            a@ == action_of(self@, t@),
    {
        match self {
            DeployState::CheckRunning => DeployAction::Shell(pidof_text()),
            DeployState::FindPid => DeployAction::Shell(pidof_text()),
            DeployState::ReadUid { pid } => DeployAction::Shell(
                concat3("cat /proc/", signed_text(*pid as i64).as_str(), "/status"),
            ),
            DeployState::FindPidForMode => DeployAction::Shell(pidof_text()),
            DeployState::ReadMode { pid } => DeployAction::Shell(
                concat3("cat /proc/", pid.as_str(), "/cmdline | tr '\\0' ' '"),
            ),
            DeployState::Kill { .. } => DeployAction::Shell(
                "pkill -f realtime_profile".to_string(),
            ),
            DeployState::KillCheck { .. } => DeployAction::Shell(pidof_text()),
            DeployState::KillSu { .. } => DeployAction::Shell(
                "su -c \"pkill -f realtime_profile\"".to_string(),
            ),
            DeployState::KillWait { next: _, first } => DeployAction::Poll {
                command: pidof_text(),
                limit_secs: 2,
                first: *first,
            },
            DeployState::PushBinary => DeployAction::Push {
                local: t.local_path.clone(),
                remote: t.remote_path.clone(),
            },
            DeployState::PushLibrary => DeployAction::PushLibrary {
                local: t.local_path.clone(),
                remote: remote_library(t.remote_path.as_str()),
            },
            DeployState::Chmod => DeployAction::Shell(concat2("chmod +x ", t.remote_path.as_str())),
            DeployState::Root => DeployAction::Root,
            DeployState::RootWait { first } => DeployAction::Poll {
                command: "echo ok".to_string(),
                limit_secs: 5,
                first: *first,
            },
            DeployState::RootCheck => DeployAction::Shell("id".to_string()),
            DeployState::RootPermissive => DeployAction::Shell("setenforce 0".to_string()),
            DeployState::SuCheck => DeployAction::Shell("su -c id".to_string()),
            DeployState::SuPermissive => DeployAction::Shell("su -c setenforce 0".to_string()),
            DeployState::Stop { .. } => DeployAction::Shell(
                "pkill -f realtime_profile".to_string(),
            ),
            DeployState::StopCheck { .. } => DeployAction::Shell(pidof_text()),
            DeployState::StopSu { .. } => DeployAction::Shell(
                "su -c \"pkill -f realtime_profile\"".to_string(),
            ),
            DeployState::StopWait { mode: _, first } => DeployAction::Poll {
                command: pidof_text(),
                limit_secs: 2,
                first: *first,
            },
            DeployState::Start { mode } => DeployAction::Shell(
                start_command(t.remote_path.as_str(), t.port, t.low_overhead, *mode),
            ),
            DeployState::StartWait { first } => DeployAction::Poll {
                command: pidof_text(),
                limit_secs: 3,
                first: *first,
            },
            DeployState::Verify => DeployAction::Shell(pidof_text()),
            DeployState::Finished(r) => DeployAction::Finish(*r),
        }
    }

    /// Where the deployment goes on after what was done has printed `output`,
    /// or failed; `late` says that the time limit of a poll has passed.
    pub fn advance(self, t: &DeployTarget<String>, output: Option<&str>, late: bool) -> (s:
        DeployState<String>)
        ensures
            s@ == next_state(self@, t@, crate::adb::daemon::opt_view(output), late),
    {
        let alive = is_running(output);
        let ok = output.is_some();
        let rooted = match output {
            Some(o) => contains_text(o, "uid=0"),
            None => false,
        };
        match self {
            DeployState::CheckRunning => if alive {
                DeployState::FindPid
            } else {
                deploy_and_start(t)
            },
            DeployState::FindPid => match get_daemon_pid(output) {
                Some(pid) => DeployState::ReadUid { pid },
                None => DeployState::Kill { next: AfterKill::Deploy },
            },
            DeployState::ReadUid { .. } => match get_daemon_uid(output) {
                Some(0) => DeployState::FindPidForMode,
                _ => DeployState::Kill { next: AfterKill::Deploy },
            },
            DeployState::FindPidForMode => match take_first_word(output) {
                Some(pid) => DeployState::ReadMode { pid },
                None => DeployState::Kill { next: AfterKill::Deploy },
            },
            DeployState::ReadMode { .. } => match daemon_low_overhead_matches(
                output,
                t.low_overhead,
            ) {
                Some(true) => DeployState::Finished(Ok(())),
                _ => DeployState::Kill { next: AfterKill::Deploy },
            },
            DeployState::Kill { next } => DeployState::KillCheck { next },
            DeployState::KillCheck { next } => if alive {
                DeployState::KillSu { next }
            } else {
                DeployState::KillWait { next, first: true }
            },
            DeployState::KillSu { next } => DeployState::KillWait { next, first: true },
            DeployState::KillWait { next, first: _ } => if !alive || late {
                match next {
                    AfterKill::Deploy => deploy_and_start(t),
                    AfterKill::Push => DeployState::PushBinary,
                }
            } else {
                DeployState::KillWait { next, first: false }
            },
            DeployState::PushBinary => if ok {
                DeployState::PushLibrary
            } else {
                DeployState::Finished(Err(DeployError::PushBinary))
            },
            DeployState::PushLibrary => if ok {
                DeployState::Chmod
            } else {
                DeployState::Finished(Err(DeployError::PushLibrary))
            },
            DeployState::Chmod => if ok {
                DeployState::Root
            } else {
                DeployState::Finished(Err(DeployError::Chmod))
            },
            DeployState::Root => DeployState::RootWait { first: true },
            DeployState::RootWait { .. } => if ok || late {
                DeployState::RootCheck
            } else {
                DeployState::RootWait { first: false }
            },
            DeployState::RootCheck => if rooted {
                DeployState::RootPermissive
            } else {
                DeployState::SuCheck
            },
            DeployState::RootPermissive => DeployState::Stop { mode: RootMode::Adb },
            DeployState::SuCheck => if rooted {
                DeployState::SuPermissive
            } else {
                DeployState::Stop { mode: RootMode::NoRoot }
            },
            DeployState::SuPermissive => DeployState::Stop { mode: RootMode::Su },
            DeployState::Stop { mode } => if mode == RootMode::Su {
                DeployState::StopCheck { mode }
            } else {
                DeployState::StopWait { mode, first: true }
            },
            DeployState::StopCheck { mode } => if alive {
                DeployState::StopSu { mode }
            } else {
                DeployState::StopWait { mode, first: true }
            },
            DeployState::StopSu { mode } => DeployState::StopWait { mode, first: true },
            DeployState::StopWait { mode, first: _ } => if !alive || late {
                DeployState::Start { mode }
            } else {
                DeployState::StopWait { mode, first: false }
            },
            DeployState::Start { .. } => if ok {
                DeployState::StartWait { first: true }
            } else {
                DeployState::Finished(Err(DeployError::Start))
            },
            DeployState::StartWait { .. } => if alive || late {
                DeployState::Verify
            } else {
                DeployState::StartWait { first: false }
            },
            DeployState::Verify => if alive {
                DeployState::Finished(Ok(()))
            } else if crate::text::chars_of(t.local_path.as_str()).len() > 0 {
                DeployState::Finished(Err(DeployError::NotAliveAfterPush))
            } else {
                DeployState::Finished(Err(DeployError::NotAliveWithoutBinary))
            },
            DeployState::Finished(r) => DeployState::Finished(r),
        }
    }
}

// ---------------------------------------------------------------------------
// Laws
// ---------------------------------------------------------------------------

/// A deployment succeeds only where the daemon was seen: running after it was
/// started, or, where it was left alone, with a command line of the mode asked
/// for.
pub proof fn law_success_means_the_daemon_was_seen(
    state: DeployState<Seq<char>>,
    t: DeployTarget<Seq<char>>,
    output: Option<Seq<char>>,
    late: bool,
)
    requires
        !(state is Finished),
        next_state(state, t, output, late) == DeployState::<Seq<char>>::Finished(Ok(())),
    ensures
        (state is Verify && running(output)) || (state is ReadMode && mode_of(
            output,
            t.low_overhead,
        ) == Some(true)),
{
}

/// A daemon is only left alone where its effective user is root: its mode is
/// looked at only then.
pub proof fn law_only_a_root_daemon_is_kept(
    state: DeployState<Seq<char>>,
    t: DeployTarget<Seq<char>>,
    output: Option<Seq<char>>,
    late: bool,
)
    requires
        next_state(state, t, output, late) is FindPidForMode,
    ensures
        state is ReadUid,
        daemon_uid(output) == Some(0u32),
{
}

/// A binary is pushed only after the daemon was killed and either gone or
/// waited for to the end.
pub proof fn law_push_follows_a_kill(
    state: DeployState<Seq<char>>,
    t: DeployTarget<Seq<char>>,
    output: Option<Seq<char>>,
    late: bool,
)
    requires
        next_state(state, t, output, late) is PushBinary,
        !(state is PushBinary),
    ensures
        state is KillWait,
        !running(output) || late,
{
}

/// How many steps can still follow, polls counted once.
pub open spec fn steps_left(state: DeployState<Seq<char>>) -> nat {
    match state {
        DeployState::CheckRunning => 29,
        DeployState::FindPid => 28,
        DeployState::ReadUid { .. } => 27,
        DeployState::FindPidForMode => 26,
        DeployState::ReadMode { .. } => 25,
        DeployState::Kill { next } => if next == AfterKill::Deploy { 24 } else { 20 },
        DeployState::KillCheck { next } => if next == AfterKill::Deploy { 23 } else { 19 },
        DeployState::KillSu { next } => if next == AfterKill::Deploy { 22 } else { 18 },
        DeployState::KillWait { next, first: _ } => if next == AfterKill::Deploy { 21 } else { 17 },
        DeployState::PushBinary => 16,
        DeployState::PushLibrary => 15,
        DeployState::Chmod => 14,
        DeployState::Root => 13,
        DeployState::RootWait { .. } => 12,
        DeployState::RootCheck => 11,
        DeployState::RootPermissive => 8,
        DeployState::SuCheck => 10,
        DeployState::SuPermissive => 9,
        DeployState::Stop { .. } => 7,
        DeployState::StopCheck { .. } => 6,
        DeployState::StopSu { .. } => 5,
        DeployState::StopWait { .. } => 4,
        DeployState::Start { .. } => 3,
        DeployState::StartWait { .. } => 2,
        DeployState::Verify => 1,
        DeployState::Finished(_) => 0,
    }
}

/// Every deployment ends: each step brings the end nearer, but for a poll that
/// goes on, which can only do so until its time limit has passed.
pub proof fn law_deployment_ends(
    state: DeployState<Seq<char>>,
    t: DeployTarget<Seq<char>>,
    output: Option<Seq<char>>,
    late: bool,
)
    requires
        !(state is Finished),
    ensures
        ({
            let next = next_state(state, t, output, late);
            ||| steps_left(next) < steps_left(state)
            ||| steps_left(next) == steps_left(state) && !late && action_of(state, t) is Poll
        }),
{
}

} // verus!
