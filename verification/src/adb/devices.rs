//! The devices that `adb` lists.
use vstd::prelude::*;
use crate::adb::commands::{AdbCommand, AdbError};
use crate::text::{
    is_blank, lemma_blank_iff_trimmed_empty, lines, lines_of, occurs_at, replace_char, replaced,
    starts_with, texts, trim, trimmed, white, words, words_of,
};

verus! {

/// A device that `adb` lists. `S` is the type of its texts.
#[derive(Debug, Clone, PartialEq)]
pub struct DeviceInfo<S> {
    pub serial: S,
    pub model: S,
    pub state: S,
    pub product: S,
    pub device_name: S,
}

impl View for DeviceInfo<String> {
    type V = DeviceInfo<Seq<char>>;

    open spec fn view(&self) -> DeviceInfo<Seq<char>> {
        DeviceInfo {
            serial: self.serial@,
            model: self.model@,
            state: self.state@,
            product: self.product@,
            device_name: self.device_name@,
        }
    }
}

/// The first position from `i` on that is white space, or the end.
pub open spec fn run_end(s: Seq<char>, i: int) -> int
    decreases s.len() - i,
{
    if 0 <= i < s.len() && !white(s[i]) {
        run_end(s, i + 1)
    } else {
        i
    }
}

/// What follows the first `key`, from position `i` on, that is followed by
/// anything but white space: all up to the next white space.
pub open spec fn capture_from(s: Seq<char>, key: Seq<char>, i: int) -> Option<Seq<char>>
    decreases s.len() - i,
{
    if i < 0 || i + key.len() >= s.len() {
        None
    } else if occurs_at(s, key, i) && !white(s[i + key.len()]) {
        Some(s.subrange(i + key.len(), run_end(s, i + key.len())))
    } else {
        capture_from(s, key, i + 1)
    }
}

/// What a pattern looks for before its group.
pub open spec fn pattern_key(pattern: Seq<char>) -> Seq<char> {
    pattern.take(pattern.len() - 5)
}

/// Whether a pattern is a short key of letters and colons, followed by a group
/// that takes a run without white space.
pub open spec fn key_pattern(pattern: Seq<char>) -> bool {
    &&& 5 < pattern.len() <= 64
    &&& pattern.skip(pattern.len() - 5) == seq!['(', '\\', 'S', '+', ')']
    &&& forall|i: int|
        0 <= i < pattern.len() - 5 ==> ('a' <= #[trigger] pattern[i] <= 'z' || pattern[i] == ':')
}

/// `Regex::new` and `Regex::captures`: the first group of the leftmost match.
/// For a pattern of the kind that `key_pattern` admits the match is the first
/// key that a character other than white space follows, and the group is the
/// run of such characters behind it, as long as it can be. A pattern that is
/// very long would not be compiled.
#[verifier::external_body]
fn first_group(pattern: &str, text: &str) -> (r: Option<String>)
    requires
        key_pattern(pattern@),
    ensures
        match capture_from(text@, pattern_key(pattern@), 0) {
            Some(t) => r is Some && r->Some_0@ == t,
            None => r is None,
        },
{
    let found = regex::Regex::new(pattern).unwrap();
    let groups = found.captures(text)?;
    groups.get(1).map(|m| m.as_str().to_string())
}

/// What follows `key` in a line; empty where nothing does.
pub open spec fn field_of(line: Seq<char>, key: Seq<char>) -> Seq<char> {
    match capture_from(line, key, 0) {
        Some(t) => t,
        None => Seq::empty(),
    }
}

/// The device that a line stands for. The header, the messages of `adb` that
/// begin with a star, and lines of fewer than two words stand for none.
pub open spec fn device_of_line(line: Seq<char>) -> Option<DeviceInfo<Seq<char>>> {
    let l = trimmed(line);
    let w = words_of(l);
    if l.len() == 0 || occurs_at(l, "List of"@, 0) || occurs_at(l, "*"@, 0) || w.len() < 2 {
        None
    } else {
        Some(
            DeviceInfo {
                serial: w[0],
                model: replaced(field_of(l, "model:"@), '_', " "@),
                state: w[1],
                product: field_of(l, "product:"@),
                device_name: field_of(l, "device:"@),
            },
        )
    }
}

/// The devices of the given lines, in order.
pub open spec fn devices_of_lines(lines: Seq<Seq<char>>) -> Seq<DeviceInfo<Seq<char>>>
    decreases lines.len(),
{
    if lines.len() == 0 {
        Seq::empty()
    } else {
        let before = devices_of_lines(lines.drop_last());
        match device_of_line(lines.last()) {
            Some(d) => before.push(d),
            None => before,
        }
    }
}

pub open spec fn device_views(v: Seq<DeviceInfo<String>>) -> Seq<DeviceInfo<Seq<char>>> {
    v.map_values(|d: DeviceInfo<String>| d@)
}

fn field(line: &str, pattern: &str) -> (r: String)
    requires
        key_pattern(pattern@),
    ensures
        r@ == field_of(line@, pattern_key(pattern@)),
{
    match first_group(pattern, line) {
        Some(s) => s,
        None => String::new(),
    }
}

proof fn lemma_patterns()
    ensures
        key_pattern("model:(\\S+)"@),
        pattern_key("model:(\\S+)"@) == "model:"@,
        key_pattern("product:(\\S+)"@),
        pattern_key("product:(\\S+)"@) == "product:"@,
        key_pattern("device:(\\S+)"@),
        pattern_key("device:(\\S+)"@) == "device:"@,
{
    reveal_strlit("model:(\\S+)");
    reveal_strlit("model:");
    reveal_strlit("product:(\\S+)");
    reveal_strlit("product:");
    reveal_strlit("device:(\\S+)");
    reveal_strlit("device:");
    assert("model:(\\S+)"@.skip(6) =~= seq!['(', '\\', 'S', '+', ')']);
    assert("product:(\\S+)"@.skip(8) =~= seq!['(', '\\', 'S', '+', ')']);
    assert("device:(\\S+)"@.skip(7) =~= seq!['(', '\\', 'S', '+', ')']);
    assert(pattern_key("model:(\\S+)"@) =~= "model:"@);
    assert(pattern_key("product:(\\S+)"@) =~= "product:"@);
    assert(pattern_key("device:(\\S+)"@) =~= "device:"@);
}

fn parse_device_line(line: &str) -> (r: Option<DeviceInfo<String>>)
    ensures
        match device_of_line(line@) {
            Some(d) => r matches Some(e) && e@ == d,
            None => r is None,
        },
{
    let l = trim(line);
    proof {
        lemma_blank_iff_trimmed_empty(line@);
        lemma_patterns();
    }
    if is_blank(line) || starts_with(l.as_str(), "List of") || starts_with(l.as_str(), "*") {
        return None;
    }
    let parts = words(l.as_str());
    assert(texts(parts@).len() == parts@.len());
    if parts.len() < 2 {
        return None;
    }
    assert(texts(parts@)[0] == parts@[0]@);
    assert(texts(parts@)[1] == parts@[1]@);
    let serial = parts[0].clone();
    let state = parts[1].clone();
    let model = replace_char(field(l.as_str(), "model:(\\S+)").as_str(), '_', " ");
    let product = field(l.as_str(), "product:(\\S+)");
    let device_name = field(l.as_str(), "device:(\\S+)");
    Some(DeviceInfo { serial, model, state, product, device_name })
}

/// Reads the list of devices that `adb devices -l` prints. Nothing that it
/// prints is an error.
pub fn parse_devices_output(output: &str) -> (r: Result<Vec<DeviceInfo<String>>, AdbError<String>>)
    ensures
        r is Ok,
        device_views(r->Ok_0@) == devices_of_lines(lines_of(output@)),
{
    let rows = lines(output);
    let ghost all = texts(rows@);
    let mut devices: Vec<DeviceInfo<String>> = Vec::new();
    let mut i: usize = 0;
    assert(device_views(devices@) =~= devices_of_lines(all.take(0)));
    while i < rows.len()
        invariant
            all == texts(rows@),
            i <= rows@.len(),
            device_views(devices@) == devices_of_lines(all.take(i as int)),
        decreases rows.len() - i,
    {
        let ghost t = all.take(i as int + 1);
        proof {
            assert(t.drop_last() =~= all.take(i as int));
            assert(t.last() == rows@[i as int]@);
        }
        let ghost before = device_views(devices@);
        match parse_device_line(rows[i].as_str()) {
            Some(d) => {
                devices.push(d);
                assert(device_views(devices@) =~= before.push(d@));
            },
            None => {},
        }
        i += 1;
    }
    assert(all.take(all.len() as int) =~= all);
    Ok(devices)
}

/// The command that lists the devices.
pub fn get_devices() -> (c: AdbCommand<String>)
    ensures
        c@ == AdbCommand::<Seq<char>>::Devices,
{
    AdbCommand::Devices
}

/// Whether a device is listed and ready.
pub open spec fn present(devices: Seq<DeviceInfo<Seq<char>>>, serial: Seq<char>) -> bool {
    exists|i: int|
        0 <= i < devices.len() && (#[trigger] devices[i]).serial == serial && devices[i].state
            == "device"@
}

/// Whether a device is listed and ready.
pub fn is_present(devices: &Vec<DeviceInfo<String>>, serial: &str) -> (r: bool)
    ensures
        r == present(device_views(devices@), serial@),
{
    let ghost all = device_views(devices@);
    let mut i: usize = 0;
    while i < devices.len()
        invariant
            all == device_views(devices@),
            i <= devices@.len(),
            forall|j: int|
                0 <= j < i ==> !((#[trigger] all[j]).serial == serial@ && all[j].state
                    == "device"@),
        decreases devices.len() - i,
    {
        assert(all[i as int] == devices@[i as int]@);
        if crate::text::same_text(devices[i].serial.as_str(), serial) && crate::text::same_text(
            devices[i].state.as_str(),
            "device",
        ) {
            return true;
        }
        i += 1;
    }
    false
}

} // verus!
