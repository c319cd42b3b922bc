//! The commands of `adb`: the arguments of each, and what its output means.
use vstd::prelude::*;
use crate::number::{decimal, decimal_text};
use crate::text::{
    concat2, concat3, contains_text, from_utf8_lossy, lossy_text, occurs, texts, trim, trimmed,
};

verus! {

/// A command of `adb`. `S` is the type of its texts.
#[derive(Debug, Clone)]
pub enum AdbCommand<S> {
    Devices,
    Shell { serial: S, command: S },
    Push { serial: S, local: S, remote: S },
    Pull { serial: S, remote: S, local: S },
    Root { serial: S },
    Remount { serial: S },
    Disconnect { serial: S },
    DisconnectAll,
    Tcpip { serial: S, port: u16 },
    Connect { ip: S, port: u16 },
    Forward { serial: S, local_port: u16, remote_port: u16 },
    Reverse { serial: S, device_port: u16, host_port: u16 },
    ReverseRemove { serial: S, device_port: u16 },
}

impl View for AdbCommand<String> {
    type V = AdbCommand<Seq<char>>;

    open spec fn view(&self) -> AdbCommand<Seq<char>> {
        match self {
            AdbCommand::Devices => AdbCommand::Devices,
            AdbCommand::Shell { serial, command } => AdbCommand::Shell {
                serial: serial@,
                command: command@,
            },
            AdbCommand::Push { serial, local, remote } => AdbCommand::Push {
                serial: serial@,
                local: local@,
                remote: remote@,
            },
            AdbCommand::Pull { serial, remote, local } => AdbCommand::Pull {
                serial: serial@,
                remote: remote@,
                local: local@,
            },
            AdbCommand::Root { serial } => AdbCommand::Root { serial: serial@ },
            AdbCommand::Remount { serial } => AdbCommand::Remount { serial: serial@ },
            AdbCommand::Disconnect { serial } => AdbCommand::Disconnect { serial: serial@ },
            AdbCommand::DisconnectAll => AdbCommand::DisconnectAll,
            AdbCommand::Tcpip { serial, port } => AdbCommand::Tcpip {
                serial: serial@,
                port: *port,
            },
            AdbCommand::Connect { ip, port } => AdbCommand::Connect { ip: ip@, port: *port },
            AdbCommand::Forward { serial, local_port, remote_port } => AdbCommand::Forward {
                serial: serial@,
                local_port: *local_port,
                remote_port: *remote_port,
            },
            AdbCommand::Reverse { serial, device_port, host_port } => AdbCommand::Reverse {
                serial: serial@,
                device_port: *device_port,
                host_port: *host_port,
            },
            AdbCommand::ReverseRemove { serial, device_port } => AdbCommand::ReverseRemove {
                serial: serial@,
                device_port: *device_port,
            },
        }
    }
}

/// A port as `adb` is told it.
pub open spec fn tcp_port(port: u16) -> Seq<char> {
    "tcp:"@ + decimal(port as nat)
}

/// An address with its port.
pub open spec fn endpoint(ip: Seq<char>, port: u16) -> Seq<char> {
    ip + ":"@ + decimal(port as nat)
}

impl AdbCommand<Seq<char>> {
    /// The arguments of the command.
    pub open spec fn arguments(self) -> Seq<Seq<char>> {
        match self {
            AdbCommand::Devices => seq!["devices"@, "-l"@],
            AdbCommand::Shell { serial, command } => seq!["-s"@, serial, "shell"@, command],
            AdbCommand::Push { serial, local, remote } => seq![
                "-s"@,
                serial,
                "push"@,
                "-z"@,
                "zstd"@,
                local,
                remote,
            ],
            AdbCommand::Pull { serial, remote, local } => seq![
                "-s"@,
                serial,
                "pull"@,
                "-z"@,
                "zstd"@,
                remote,
                local,
            ],
            AdbCommand::Root { serial } => seq!["-s"@, serial, "root"@],
            AdbCommand::Remount { serial } => seq!["-s"@, serial, "remount"@],
            AdbCommand::Disconnect { serial } => seq!["disconnect"@, serial],
            AdbCommand::DisconnectAll => seq!["disconnect"@],
            AdbCommand::Tcpip { serial, port } => seq![
                "-s"@,
                serial,
                "tcpip"@,
                decimal(port as nat),
            ],
            AdbCommand::Connect { ip, port } => seq!["connect"@, endpoint(ip, port)],
            AdbCommand::Forward { serial, local_port, remote_port } => seq![
                "-s"@,
                serial,
                "forward"@,
                tcp_port(local_port),
                tcp_port(remote_port),
            ],
            AdbCommand::Reverse { serial, device_port, host_port } => seq![
                "-s"@,
                serial,
                "reverse"@,
                tcp_port(device_port),
                tcp_port(host_port),
            ],
            AdbCommand::ReverseRemove { serial, device_port } => seq![
                "-s"@,
                serial,
                "reverse"@,
                "--remove"@,
                tcp_port(device_port),
            ],
        }
    }

    /// The command's name in messages.
    pub open spec fn name(self) -> Seq<char> {
        match self {
            AdbCommand::Devices => "devices"@,
            AdbCommand::Shell { .. } => "shell"@,
            AdbCommand::Push { .. } => "push"@,
            AdbCommand::Pull { .. } => "pull"@,
            AdbCommand::Root { .. } => "root"@,
            AdbCommand::Remount { .. } => "remount"@,
            AdbCommand::Disconnect { .. } => "disconnect"@,
            AdbCommand::DisconnectAll => "disconnect"@,
            AdbCommand::Tcpip { .. } => "tcpip"@,
            AdbCommand::Connect { .. } => "connect"@,
            AdbCommand::Forward { .. } => "forward"@,
            AdbCommand::Reverse { .. } => "reverse"@,
            AdbCommand::ReverseRemove { .. } => "reverse"@,
        }
    }

    /// Whether the command's exit status is passed over: its output is taken
    /// for what it is.
    pub open spec fn best_effort(self) -> bool {
        self is Root || self is Disconnect || self is DisconnectAll || self is Connect
    }

    /// Whether the command is run for its effect alone.
    pub open spec fn silent(self) -> bool {
        self is Push || self is Pull || self is Forward || self is Reverse
            || self is ReverseRemove
    }
}

/// What `adb` has printed, and whether it ended well.
#[derive(Debug, Clone)]
pub struct AdbOutput {
    pub success: bool,
    pub stdout: Vec<u8>,
    pub stderr: Vec<u8>,
}

/// What stops a command of `adb`.
#[derive(Debug, Clone)]
pub enum AdbError<S> {
    /// `adb` could not be run, for the named command.
    NotExecuted(S),
    /// The named command failed, with what was printed about it.
    Failed(S, S),
}

impl View for AdbError<String> {
    type V = AdbError<Seq<char>>;

    open spec fn view(&self) -> AdbError<Seq<char>> {
        match self {
            AdbError::NotExecuted(what) => AdbError::NotExecuted(what@),
            AdbError::Failed(what, why) => AdbError::Failed(what@, why@),
        }
    }
}

impl AdbError<Seq<char>> {
    /// The error in words.
    pub open spec fn words(self) -> Seq<char> {
        match self {
            AdbError::NotExecuted(what) => "Failed to execute adb "@ + what,
            AdbError::Failed(what, why) => "adb "@ + what + " failed: "@ + why,
        }
    }
}

impl AdbError<String> {
    /// The error in words.
    pub fn message(&self) -> (s: String)
        ensures
            s@ == self@.words(),
    {
        match self {
            AdbError::NotExecuted(what) => concat2("Failed to execute adb ", what.as_str()),
            AdbError::Failed(what, why) => crate::text::concat4(
                "adb ",
                what.as_str(),
                " failed: ",
                why.as_str(),
            ),
        }
    }
}

/// What a command's output comes to: its text, trimmed, or nothing where the
/// command is run for its effect; or that it failed. A list of devices is not
/// trimmed. A connection attempt fails by what it prints, other commands by
/// their exit status unless that is passed over.
pub open spec fn outcome_of(command: AdbCommand<Seq<char>>, output: AdbOutput) -> Result<
    Seq<char>,
    AdbError<Seq<char>>,
> {
    let stdout = lossy_text(output.stdout@);
    if !command.best_effort() && !output.success {
        Err(AdbError::Failed(command.name(), lossy_text(output.stderr@)))
    } else if command is Connect && (occurs(trimmed(stdout), "cannot connect"@) || occurs(
        trimmed(stdout),
        "failed to connect"@,
    )) {
        Err(AdbError::Failed("connect"@, trimmed(stdout)))
    } else if command.silent() {
        Ok(Seq::empty())
    } else if command is Devices {
        Ok(stdout)
    } else {
        Ok(trimmed(stdout))
    }
}

/// That `adb` could not be run: the name is that of the command, and for a
/// list of devices also says that it is the long one.
pub open spec fn not_executed(command: AdbCommand<Seq<char>>) -> AdbError<Seq<char>> {
    if command is Devices {
        AdbError::NotExecuted("devices -l"@)
    } else {
        AdbError::NotExecuted(command.name())
    }
}

fn tcp_text(port: u16) -> (s: String)
    ensures
        s@ == tcp_port(port),
{
    concat2("tcp:", decimal_text(port as u64).as_str())
}

/// The texts as a list of owned ones.
fn owned(parts: &Vec<&str>) -> (r: Vec<String>)
    ensures
        texts(r@) == parts@.map_values(|p: &str| p@),
{
    let mut r: Vec<String> = Vec::new();
    let mut i: usize = 0;
    assert(texts(r@) =~= parts@.map_values(|p: &str| p@).take(0));
    while i < parts.len()
        invariant
            i <= parts@.len(),
            texts(r@) == parts@.map_values(|p: &str| p@).take(i as int),
        decreases parts.len() - i,
    {
        let ghost before = texts(r@);
        r.push(parts[i].to_string());
        assert(texts(r@) =~= before.push(parts@[i as int]@));
        assert(texts(r@) =~= parts@.map_values(|p: &str| p@).take(i as int + 1));
        i += 1;
    }
    assert(parts@.map_values(|p: &str| p@).take(parts@.len() as int) =~= parts@.map_values(
        |p: &str| p@,
    ));
    r
}

impl AdbCommand<String> {
    /// The arguments of the command.
    pub fn args(&self) -> (r: Vec<String>)
        ensures
            texts(r@) == self@.arguments(),
    {
        let mut parts: Vec<&str> = Vec::new();
        match self {
            AdbCommand::Devices => {
                parts.push("devices");
                parts.push("-l");
                let r = owned(&parts);
                assert(texts(r@) =~= self@.arguments());
                r
            },
            AdbCommand::Shell { serial, command } => {
                parts.push("-s");
                parts.push(serial.as_str());
                parts.push("shell");
                parts.push(command.as_str());
                let r = owned(&parts);
                assert(texts(r@) =~= self@.arguments());
                r
            },
            AdbCommand::Push { serial, local, remote } => {
                parts.push("-s");
                parts.push(serial.as_str());
                parts.push("push");
                parts.push("-z");
                parts.push("zstd");
                parts.push(local.as_str());
                parts.push(remote.as_str());
                let r = owned(&parts);
                assert(texts(r@) =~= self@.arguments());
                r
            },
            AdbCommand::Pull { serial, remote, local } => {
                parts.push("-s");
                parts.push(serial.as_str());
                parts.push("pull");
                parts.push("-z");
                parts.push("zstd");
                parts.push(remote.as_str());
                parts.push(local.as_str());
                let r = owned(&parts);
                assert(texts(r@) =~= self@.arguments());
                r
            },
            AdbCommand::Root { serial } => {
                parts.push("-s");
                parts.push(serial.as_str());
                parts.push("root");
                let r = owned(&parts);
                assert(texts(r@) =~= self@.arguments());
                r
            },
            AdbCommand::Remount { serial } => {
                parts.push("-s");
                parts.push(serial.as_str());
                parts.push("remount");
                let r = owned(&parts);
                assert(texts(r@) =~= self@.arguments());
                r
            },
            AdbCommand::Disconnect { serial } => {
                parts.push("disconnect");
                parts.push(serial.as_str());
                let r = owned(&parts);
                assert(texts(r@) =~= self@.arguments());
                r
            },
            AdbCommand::DisconnectAll => {
                parts.push("disconnect");
                let r = owned(&parts);
                assert(texts(r@) =~= self@.arguments());
                r
            },
            AdbCommand::Tcpip { serial, port } => {
                let digits = decimal_text(*port as u64);
                parts.push("-s");
                parts.push(serial.as_str());
                parts.push("tcpip");
                parts.push(digits.as_str());
                let r = owned(&parts);
                assert(texts(r@) =~= self@.arguments());
                r
            },
            AdbCommand::Connect { ip, port } => {
                let target = concat3(ip.as_str(), ":", decimal_text(*port as u64).as_str());
                parts.push("connect");
                parts.push(target.as_str());
                let r = owned(&parts);
                assert(texts(r@) =~= self@.arguments());
                r
            },
            AdbCommand::Forward { serial, local_port, remote_port } => {
                let from = tcp_text(*local_port);
                let to = tcp_text(*remote_port);
                parts.push("-s");
                parts.push(serial.as_str());
                parts.push("forward");
                parts.push(from.as_str());
                parts.push(to.as_str());
                let r = owned(&parts);
                assert(texts(r@) =~= self@.arguments());
                r
            },
            AdbCommand::Reverse { serial, device_port, host_port } => {
                let from = tcp_text(*device_port);
                let to = tcp_text(*host_port);
                parts.push("-s");
                parts.push(serial.as_str());
                parts.push("reverse");
                parts.push(from.as_str());
                parts.push(to.as_str());
                let r = owned(&parts);
                assert(texts(r@) =~= self@.arguments());
                r
            },
            AdbCommand::ReverseRemove { serial, device_port } => {
                let from = tcp_text(*device_port);
                parts.push("-s");
                parts.push(serial.as_str());
                parts.push("reverse");
                parts.push("--remove");
                parts.push(from.as_str());
                let r = owned(&parts);
                assert(texts(r@) =~= self@.arguments());
                r
            },
        }
    }

    fn label(&self) -> (s: &'static str)
        ensures
            s@ == self@.name(),
    {
        match self {
            AdbCommand::Devices => "devices",
            AdbCommand::Shell { .. } => "shell",
            AdbCommand::Push { .. } => "push",
            AdbCommand::Pull { .. } => "pull",
            AdbCommand::Root { .. } => "root",
            AdbCommand::Remount { .. } => "remount",
            AdbCommand::Disconnect { .. } => "disconnect",
            AdbCommand::DisconnectAll => "disconnect",
            AdbCommand::Tcpip { .. } => "tcpip",
            AdbCommand::Connect { .. } => "connect",
            AdbCommand::Forward { .. } => "forward",
            AdbCommand::Reverse { .. } => "reverse",
            AdbCommand::ReverseRemove { .. } => "reverse",
        }
    }

    /// That `adb` could not be run.
    pub fn not_run(&self) -> (e: AdbError<String>)
        ensures
            e@ == not_executed(self@),
    {
        match self {
            AdbCommand::Devices => AdbError::NotExecuted("devices -l".to_string()),
            _ => AdbError::NotExecuted(self.label().to_string()),
        }
    }

    /// What the command's output comes to.
    pub fn outcome(&self, output: &AdbOutput) -> (r: Result<String, AdbError<String>>)
        ensures
            match outcome_of(self@, *output) {
                Ok(t) => r matches Ok(s) && s@ == t,
                Err(e) => r matches Err(f) && f@ == e,
            },
    {
        let lenient = matches!(
            self,
            AdbCommand::Root { .. } | AdbCommand::Disconnect { .. } | AdbCommand::DisconnectAll
                | AdbCommand::Connect { .. }
        );
        if !lenient && !output.success {
            let why = from_utf8_lossy(&output.stderr);
            return Err(AdbError::Failed(self.label().to_string(), why));
        }
        let stdout = from_utf8_lossy(&output.stdout);
        let text = trim(stdout.as_str());
        match self {
            AdbCommand::Connect { .. } => {
                if contains_text(text.as_str(), "cannot connect") || contains_text(
                    text.as_str(),
                    "failed to connect",
                ) {
                    Err(AdbError::Failed("connect".to_string(), text))
                } else {
                    Ok(text)
                }
            },
            AdbCommand::Push { .. } => Ok(String::new()),
            AdbCommand::Pull { .. } => Ok(String::new()),
            AdbCommand::Forward { .. } => Ok(String::new()),
            AdbCommand::Reverse { .. } => Ok(String::new()),
            AdbCommand::ReverseRemove { .. } => Ok(String::new()),
            AdbCommand::Devices => Ok(stdout),
            _ => Ok(text),
        }
    }
}

/// Runs a shell command on a device.
pub fn shell(serial: &str, command: &str) -> (c: AdbCommand<String>)
    ensures
        c@ == (AdbCommand::Shell { serial: serial@, command: command@ }),
{
    AdbCommand::Shell { serial: serial.to_string(), command: command.to_string() }
}

/// Copies a file to a device.
pub fn push(serial: &str, local: &str, remote: &str) -> (c: AdbCommand<String>)
    ensures
        c@ == (AdbCommand::Push { serial: serial@, local: local@, remote: remote@ }),
{
    AdbCommand::Push {
        serial: serial.to_string(),
        local: local.to_string(),
        remote: remote.to_string(),
    }
}

/// Copies a file from a device.
pub fn pull(serial: &str, remote: &str, local: &str) -> (c: AdbCommand<String>)
    ensures
        c@ == (AdbCommand::Pull { serial: serial@, remote: remote@, local: local@ }),
{
    AdbCommand::Pull {
        serial: serial.to_string(),
        remote: remote.to_string(),
        local: local.to_string(),
    }
}

/// Restarts the device's side of `adb` as root. Some devices report a failure
/// for it, so the exit status is passed over.
pub fn root(serial: &str) -> (c: AdbCommand<String>)
    ensures
        c@ == (AdbCommand::Root { serial: serial@ }),
{
    AdbCommand::Root { serial: serial.to_string() }
}

/// Makes the device's system partitions writable.
pub fn remount(serial: &str) -> (c: AdbCommand<String>)
    ensures
        c@ == (AdbCommand::Remount { serial: serial@ }),
{
    AdbCommand::Remount { serial: serial.to_string() }
}

/// Whether what the command `id` prints is that of a root shell.
pub fn is_root_shell(id_output: &str) -> (r: bool)
    ensures
        r == occurs(id_output@, "uid=0"@),
{
    contains_text(id_output, "uid=0")
}

/// Disconnects a device that is connected over the network.
pub fn disconnect(serial: &str) -> (c: AdbCommand<String>)
    ensures
        c@ == (AdbCommand::Disconnect { serial: serial@ }),
{
    AdbCommand::Disconnect { serial: serial.to_string() }
}

/// Disconnects every device that is connected over the network.
pub fn disconnect_all() -> (c: AdbCommand<String>)
    ensures
        c@ == AdbCommand::<Seq<char>>::DisconnectAll,
{
    AdbCommand::DisconnectAll
}

/// Makes the device listen on a network port.
pub fn tcpip(serial: &str, port: u16) -> (c: AdbCommand<String>)
    ensures
        c@ == (AdbCommand::Tcpip { serial: serial@, port }),
{
    AdbCommand::Tcpip { serial: serial.to_string(), port }
}

/// Connects to a device over the network.
pub fn connect_device(ip: &str, port: u16) -> (c: AdbCommand<String>)
    ensures
        c@ == (AdbCommand::Connect { ip: ip@, port }),
{
    AdbCommand::Connect { ip: ip.to_string(), port }
}

/// Forwards a local port to one of the device.
pub fn forward(serial: &str, local_port: u16, remote_port: u16) -> (c: AdbCommand<String>)
    ensures
        c@ == (AdbCommand::Forward { serial: serial@, local_port, remote_port }),
{
    AdbCommand::Forward { serial: serial.to_string(), local_port, remote_port }
}

/// Forwards a port of the device to a local one.
pub fn reverse(serial: &str, device_port: u16, host_port: u16) -> (c: AdbCommand<String>)
    ensures
        c@ == (AdbCommand::Reverse { serial: serial@, device_port, host_port }),
{
    AdbCommand::Reverse { serial: serial.to_string(), device_port, host_port }
}

/// Ends the forwarding of a port of the device.
pub fn reverse_remove(serial: &str, device_port: u16) -> (c: AdbCommand<String>)
    ensures
        c@ == (AdbCommand::ReverseRemove { serial: serial@, device_port }),
{
    AdbCommand::ReverseRemove { serial: serial.to_string(), device_port }
}

} // verus!
