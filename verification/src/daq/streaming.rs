//! A measurement: which inputs of which devices it takes, how channels make
//! up power pairs, and what is said of it when it ends.
use vstd::prelude::*;
use crate::daq::config::{
    ChannelConfig, DaqConfig, PowerPair, Rgb, build_save_name, channel_views, pair_of, pair_views,
    power_pair_for_channel, save_name,
};
use crate::daq::constants::{DAQmx_Val_Diff, DAQmx_Val_RSE};
use crate::daq::device::DeviceInfo;
use crate::double::Double;
use crate::number::{decimal, decimal_signed, decimal_text, parse_u32, read_int, signed_text};
use crate::text::{
    chars_of, concat2, concat4, key_at, occurs_at, same_text, starts_with, string_range, texts,
};

verus! {

/// How many results wait to be polled.
pub const POLL_QUEUE: usize = 256;

/// How many error messages wait to be read.
pub const ERROR_QUEUE: usize = 64;

// ---------------------------------------------------------------------------
// The inputs of a device
// ---------------------------------------------------------------------------

/// Whether a channel is on a device: its place of connection begins with the
/// device's name, or is one of the device's inputs.
pub open spec fn on_device(ch: ChannelConfig<Seq<char>>, dev: DeviceInfo) -> bool {
    occurs_at(ch.physical_channel, dev.name@, 0) || texts(dev.ai_channels@).contains(
        ch.physical_channel,
    )
}

/// The positions of the channels on a device among the first `n`, in order.
pub open spec fn device_channels(
    channels: Seq<ChannelConfig<Seq<char>>>,
    dev: DeviceInfo,
    n: int,
) -> Seq<usize>
    decreases n,
{
    if n <= 0 {
        Seq::empty()
    } else {
        let before = device_channels(channels, dev, n - 1);
        if on_device(channels[n - 1], dev) {
            before.push((n - 1) as usize)
        } else {
            before
        }
    }
}

fn is_input_of(dev: &DeviceInfo, physical: &str) -> (r: bool)
    ensures
        r == texts(dev.ai_channels@).contains(physical@),
{
    let mut i: usize = 0;
    while i < dev.ai_channels.len()
        invariant
            i <= dev.ai_channels@.len(),
            forall|k: int| 0 <= k < i ==> #[trigger] texts(dev.ai_channels@)[k] != physical@,
        decreases dev.ai_channels.len() - i,
    {
        assert(texts(dev.ai_channels@)[i as int] == dev.ai_channels@[i as int]@);
        if same_text(dev.ai_channels[i].as_str(), physical) {
            return true;
        }
        i += 1;
    }
    false
}

/// The positions of the channels on a device, in order.
pub fn channels_for_device(config: &DaqConfig, dev: &DeviceInfo) -> (r: Vec<usize>)
    ensures
        r@ == device_channels(channel_views(config.channels@), *dev, config.channels@.len() as int),
        forall|k: int| 0 <= k < r@.len() ==> (#[trigger] r@[k]) < config.channels@.len(),
{
    let ghost all = channel_views(config.channels@);
    let mut r: Vec<usize> = Vec::new();
    let mut i: usize = 0;
    while i < config.channels.len()
        invariant
            all == channel_views(config.channels@),
            i <= config.channels@.len(),
            r@ == device_channels(all, *dev, i as int),
            forall|k: int| 0 <= k < r@.len() ==> (#[trigger] r@[k]) < i,
        decreases config.channels.len() - i,
    {
        let ch = &config.channels[i];
        assert(all[i as int] == ch@);
        if starts_with(ch.physical_channel.as_str(), dev.name.as_str()) || is_input_of(
            dev,
            ch.physical_channel.as_str(),
        ) {
            r.push(i);
        }
        i += 1;
    }
    r
}

/// The last position up to `i` at which `key` stands in `s`, or -1.
pub open spec fn last_occurrence(s: Seq<char>, key: Seq<char>, i: int) -> int
    decreases i + 1,
{
    if i < 0 {
        -1
    } else if occurs_at(s, key, i) {
        i
    } else {
        last_occurrence(s, key, i - 1)
    }
}

/// What stands behind the last `ai` in a place of connection; all of it where
/// there is none.
pub open spec fn behind_ai(s: Seq<char>) -> Seq<char> {
    let i = last_occurrence(s, "ai"@, s.len() as int);
    if i < 0 {
        s
    } else {
        s.skip(i + 2)
    }
}

/// The number of an input; zero where there is none.
pub open spec fn input_number(physical: Seq<char>) -> u32 {
    match read_int(behind_ai(physical), 0, u32::MAX as int) {
        Ok(n) => n as u32,
        Err(_) => 0,
    }
}

/// Where the part behind the last `ai` begins.
fn start_behind_ai(v: &Vec<char>) -> (start: usize)
    ensures
        start <= v@.len(),
        v@.subrange(start as int, v@.len() as int) == behind_ai(v@),
{
    let key = chars_of("ai");
    proof {
        reveal_strlit("ai");
    }
    let mut i: usize = v.len();
    assert(!occurs_at(v@, "ai"@, v@.len() as int));
    while i > 0
        invariant
            key@ == "ai"@,
            "ai"@.len() == 2,
            i <= v.len(),
            last_occurrence(v@, "ai"@, v@.len() as int) == last_occurrence(v@, "ai"@, i - 1),
        decreases i,
    {
        if key_at(v, &key, i - 1) {
            assert(i - 1 + 2 <= v.len());
            assert(v@.subrange(i + 1, v@.len() as int) =~= behind_ai(v@));
            return i + 1;
        }
        i -= 1;
    }
    assert(v@.subrange(0, v@.len() as int) =~= behind_ai(v@));
    0
}

/// The number of an input.
pub fn channel_number(physical: &str) -> (n: u32)
    ensures
        n == input_number(physical@),
{
    let v = chars_of(physical);
    let start: usize = start_behind_ai(&v);
    let rest = string_range(&v, start, v.len());
    match parse_u32(rest.as_str()) {
        Ok(n) => n,
        Err(_) => 0,
    }
}

/// Whether an input can be used: of each sixteen, the upper eight are the
/// other ends of the lower eight where inputs are taken in pairs.
pub open spec fn usable(physical: Seq<char>, terminal_diff: bool) -> bool {
    !(terminal_diff && input_number(physical) % 16 >= 8)
}

/// What a device does in a measurement: the scales that are made for its
/// channels, and the inputs that are read, each by the position of its channel
/// and the name of its scale.
#[derive(Debug)]
pub struct DevicePlan {
    pub device: usize,
    pub task_name: String,
    pub scales: Vec<(usize, String)>,
    pub inputs: Vec<(usize, String)>,
}

/// The device plan that contracts speak of.
pub struct DevicePlanModel {
    pub device: usize,
    pub task_name: Seq<char>,
    pub scales: Seq<(usize, Seq<char>)>,
    pub inputs: Seq<(usize, Seq<char>)>,
}

/// Positions with the names of their scales.
pub open spec fn named(v: Seq<(usize, String)>) -> Seq<(usize, Seq<char>)> {
    v.map_values(|p: (usize, String)| (p.0, p.1@))
}

impl View for DevicePlan {
    type V = DevicePlanModel;

    open spec fn view(&self) -> DevicePlanModel {
        DevicePlanModel {
            device: self.device,
            task_name: self.task_name@,
            scales: named(self.scales@),
            inputs: named(self.inputs@),
        }
    }
}

/// The name of the scale of a channel.
pub open spec fn scale_name(
    pairs: Seq<PowerPair<Seq<char>>>,
    ch: ChannelConfig<Seq<char>>,
) -> Seq<char> {
    save_name(ch.physical_channel, ch.name, ch.color, pair_of(pairs, ch, 0))
}

/// The scales of the given channels.
pub open spec fn scale_list(
    channels: Seq<ChannelConfig<Seq<char>>>,
    pairs: Seq<PowerPair<Seq<char>>>,
    chosen: Seq<usize>,
) -> Seq<(usize, Seq<char>)> {
    chosen.map_values(|i: usize| (i, scale_name(pairs, channels[i as int])))
}

/// The inputs among the given scales that can be used.
pub open spec fn input_list(
    channels: Seq<ChannelConfig<Seq<char>>>,
    scales: Seq<(usize, Seq<char>)>,
    terminal_diff: bool,
) -> Seq<(usize, Seq<char>)>
    decreases scales.len(),
{
    if scales.len() == 0 {
        Seq::empty()
    } else {
        let before = input_list(channels, scales.drop_last(), terminal_diff);
        let last = scales.last();
        if usable(channels[last.0 as int].physical_channel, terminal_diff) {
            before.push(last)
        } else {
            before
        }
    }
}

/// What a device does in a measurement.
pub open spec fn device_plan(
    config: DaqConfig,
    dev: DeviceInfo,
    device: usize,
    terminal_diff: bool,
) -> DevicePlanModel {
    let channels = channel_views(config.channels@);
    let scales = scale_list(
        channels,
        pair_views(config.power_pairs@),
        device_channels(channels, dev, channels.len() as int),
    );
    DevicePlanModel {
        device,
        task_name: "mprofiler_"@ + dev.name@,
        scales,
        inputs: input_list(channels, scales, terminal_diff),
    }
}

/// What the first `n` devices do; a device without channels does nothing.
pub open spec fn device_plans(
    config: DaqConfig,
    devices: Seq<DeviceInfo>,
    terminal_diff: bool,
    n: int,
) -> Seq<DevicePlanModel>
    decreases n,
{
    if n <= 0 {
        Seq::empty()
    } else {
        let before = device_plans(config, devices, terminal_diff, n - 1);
        let p = device_plan(config, devices[n - 1], (n - 1) as usize, terminal_diff);
        if p.scales.len() > 0 {
            before.push(p)
        } else {
            before
        }
    }
}

/// What is remembered of a channel during a measurement. `S` is the type of
/// its name.
#[derive(Debug, Clone)]
pub struct ChannelMeta<S> {
    pub name: S,
    pub color: Rgb,
    /// The index of the channel's power pair, and whether it is its current.
    pub power_pair: Option<(u32, bool)>,
}

impl View for ChannelMeta<String> {
    type V = ChannelMeta<Seq<char>>;

    open spec fn view(&self) -> ChannelMeta<Seq<char>> {
        ChannelMeta { name: self.name@, color: self.color, power_pair: self.power_pair }
    }
}

pub open spec fn meta_views(v: Seq<ChannelMeta<String>>) -> Seq<ChannelMeta<Seq<char>>> {
    v.map_values(|m: ChannelMeta<String>| m@)
}

/// What is remembered of a channel.
pub open spec fn meta_of(
    pairs: Seq<PowerPair<Seq<char>>>,
    ch: ChannelConfig<Seq<char>>,
) -> ChannelMeta<Seq<char>> {
    ChannelMeta { name: ch.name, color: ch.color, power_pair: pair_of(pairs, ch, 0) }
}

/// What is remembered of the given inputs.
pub open spec fn input_metas(config: DaqConfig, inputs: Seq<(usize, Seq<char>)>) -> Seq<
    ChannelMeta<Seq<char>>,
> {
    inputs.map_values(
        |p: (usize, Seq<char>)|
            meta_of(pair_views(config.power_pairs@), channel_views(config.channels@)[p.0 as int]),
    )
}

/// What is remembered of the inputs of all devices, in order.
pub open spec fn all_metas(config: DaqConfig, plans: Seq<DevicePlanModel>) -> Seq<
    ChannelMeta<Seq<char>>,
>
    decreases plans.len(),
{
    if plans.len() == 0 {
        Seq::empty()
    } else {
        all_metas(config, plans.drop_last()) + input_metas(config, plans.last().inputs)
    }
}

pub open spec fn plan_views(v: Seq<DevicePlan>) -> Seq<DevicePlanModel> {
    v.map_values(|p: DevicePlan| p@)
}

/// How the hardware samples: its rate, how many samples of each channel make
/// up a second, how many it buffers, and after how many it reports.
#[derive(Debug, Clone, Copy, PartialEq, Eq, Structural)]
pub struct Timing {
    pub rate: u32,
    pub samples_per_channel: u64,
    pub buffer: u32,
    pub interval: u32,
}

/// How the hardware samples at a rate.
pub open spec fn timed(sample_rate: u32) -> Timing {
    Timing {
        rate: sample_rate,
        samples_per_channel: sample_rate as u64,
        buffer: (2 * sample_rate) as u32,
        interval: if sample_rate >= 10 {
            sample_rate / 10
        } else {
            1
        },
    }
}

/// How the hardware samples at a rate: two seconds are buffered, and a tenth
/// of a second is reported at a time.
pub fn timing(sample_rate: u32) -> (t: Timing)
    requires
        sample_rate <= u32::MAX / 2,
    ensures
        t == timed(sample_rate),
        t.rate == sample_rate,
        t.samples_per_channel == sample_rate,
        t.buffer == 2 * sample_rate,
        t.interval == if sample_rate >= 10 {
            sample_rate / 10
        } else {
            1u32
        },
{
    let tenth: u32 = sample_rate / 10;
    Timing {
        rate: sample_rate,
        samples_per_channel: sample_rate as u64,
        buffer: sample_rate * 2,
        interval: if tenth > 1 {
            tenth
        } else {
            1
        },
    }
}

/// The number by which the driver knows how inputs are taken.
pub open spec fn terminal_number(terminal_diff: bool) -> i32 {
    if terminal_diff {
        DAQmx_Val_Diff
    } else {
        DAQmx_Val_RSE
    }
}

/// The number by which the driver knows how inputs are taken.
pub fn terminal_config(terminal_diff: bool) -> (n: i32)
    ensures
        n == terminal_number(terminal_diff),
        n == if terminal_diff {
            DAQmx_Val_Diff
        } else {
            DAQmx_Val_RSE
        },
{
    if terminal_diff {
        DAQmx_Val_Diff
    } else {
        DAQmx_Val_RSE
    }
}

/// What is done in a measurement.
#[derive(Debug)]
pub struct SessionPlan {
    pub devices: Vec<DevicePlan>,
    pub metas: Vec<ChannelMeta<String>>,
}

/// What stops a measurement before it begins, or when it ends. `S` is the type
/// of its texts.
#[derive(Debug, Clone)]
pub enum SessionError<S> {
    /// There is no device.
    NoDevices,
    /// No device has a channel that can be used.
    NoChannels,
    /// A step of the start failed.
    Step(StartStep<S>, S),
    /// The measurement's thread panicked.
    Panicked(S),
    /// The measurement was stopped already.
    AlreadyStopped,
}

/// A step of the start of a measurement, with what it is for.
#[derive(Debug, Clone)]
pub enum StartStep<S> {
    Scale(S),
    Task(S),
    Channel(S),
    Timing,
    InputBuffer,
    Callback,
    Start,
}

impl View for StartStep<String> {
    type V = StartStep<Seq<char>>;

    open spec fn view(&self) -> StartStep<Seq<char>> {
        match self {
            StartStep::Scale(n) => StartStep::Scale(n@),
            StartStep::Task(n) => StartStep::Task(n@),
            StartStep::Channel(n) => StartStep::Channel(n@),
            StartStep::Timing => StartStep::Timing,
            StartStep::InputBuffer => StartStep::InputBuffer,
            StartStep::Callback => StartStep::Callback,
            StartStep::Start => StartStep::Start,
        }
    }
}

impl View for SessionError<String> {
    type V = SessionError<Seq<char>>;

    open spec fn view(&self) -> SessionError<Seq<char>> {
        match self {
            SessionError::NoDevices => SessionError::NoDevices,
            SessionError::NoChannels => SessionError::NoChannels,
            SessionError::Step(s, m) => SessionError::Step(s@, m@),
            SessionError::Panicked(m) => SessionError::Panicked(m@),
            SessionError::AlreadyStopped => SessionError::AlreadyStopped,
        }
    }
}

impl SessionError<Seq<char>> {
    /// The error in words.
    pub open spec fn words(self) -> Seq<char> {
        match self {
            SessionError::NoDevices => "No DAQmx devices found"@,
            SessionError::NoChannels => "No valid channels found for any device"@,
            SessionError::Step(step, m) => match step {
                StartStep::Scale(n) => "Failed to create scale for "@ + n + ": "@ + m,
                StartStep::Task(n) => "Failed to create task for "@ + n + ": "@ + m,
                StartStep::Channel(n) => "Failed to add channel "@ + n + ": "@ + m,
                StartStep::Timing => "Failed to configure timing: "@ + m,
                StartStep::InputBuffer => "Failed to configure input buffer: "@ + m,
                StartStep::Callback => "Failed to register callback: "@ + m,
                StartStep::Start => "Failed to start task: "@ + m,
            },
            SessionError::Panicked(m) => "DAQ background thread panicked: "@ + m,
            SessionError::AlreadyStopped => {
                "DAQ: No thread handle available (already stopped?)"@
            },
        }
    }
}

impl SessionError<String> {
    /// The error in words.
    pub fn message(&self) -> (s: String)
        ensures
            s@ == self@.words(),
    {
        match self {
            SessionError::NoDevices => "No DAQmx devices found".to_string(),
            SessionError::NoChannels => "No valid channels found for any device".to_string(),
            SessionError::Step(step, m) => match step {
                StartStep::Scale(n) => concat4(
                    "Failed to create scale for ",
                    n.as_str(),
                    ": ",
                    m.as_str(),
                ),
                StartStep::Task(n) => concat4(
                    "Failed to create task for ",
                    n.as_str(),
                    ": ",
                    m.as_str(),
                ),
                StartStep::Channel(n) => concat4(
                    "Failed to add channel ",
                    n.as_str(),
                    ": ",
                    m.as_str(),
                ),
                StartStep::Timing => concat2("Failed to configure timing: ", m.as_str()),
                StartStep::InputBuffer => concat2("Failed to configure input buffer: ", m.as_str()),
                StartStep::Callback => concat2("Failed to register callback: ", m.as_str()),
                StartStep::Start => concat2("Failed to start task: ", m.as_str()),
            },
            SessionError::Panicked(m) => concat2("DAQ background thread panicked: ", m.as_str()),
            SessionError::AlreadyStopped => {
                "DAQ: No thread handle available (already stopped?)".to_string()
            },
        }
    }
}

fn plan_device(config: &DaqConfig, dev: &DeviceInfo, device: usize, terminal_diff: bool) -> (p:
    DevicePlan)
    ensures
        p@ == device_plan(*config, *dev, device, terminal_diff),
        forall|k: int|
            0 <= k < p.inputs@.len() ==> (#[trigger] p.inputs@[k]).0 < config.channels@.len(),
{
    let chosen = channels_for_device(config, dev);
    let ghost channels = channel_views(config.channels@);
    let ghost pairs = pair_views(config.power_pairs@);
    let ghost wanted = scale_list(channels, pairs, chosen@);
    let mut scales: Vec<(usize, String)> = Vec::new();
    let mut inputs: Vec<(usize, String)> = Vec::new();
    let mut i: usize = 0;
    assert(named(scales@) =~= wanted.take(0));
    assert(named(inputs@) =~= input_list(channels, wanted.take(0), terminal_diff));
    while i < chosen.len()
        invariant
            channels == channel_views(config.channels@),
            pairs == pair_views(config.power_pairs@),
            wanted == scale_list(channels, pairs, chosen@),
            forall|k: int| 0 <= k < chosen@.len() ==> (#[trigger] chosen@[k])
                < config.channels@.len(),
            i <= chosen@.len(),
            named(scales@) == wanted.take(i as int),
            named(inputs@) == input_list(channels, wanted.take(i as int), terminal_diff),
            forall|k: int|
                0 <= k < inputs@.len() ==> (#[trigger] inputs@[k]).0 < config.channels@.len(),
        decreases chosen.len() - i,
    {
        let at: usize = chosen[i];
        let ch = &config.channels[at];
        assert(channels[at as int] == ch@);
        let pp = power_pair_for_channel(config, ch);
        let save = build_save_name(
            ch.physical_channel.as_str(),
            ch.name.as_str(),
            &ch.color,
            pp,
        );
        proof {
            assert(wanted[i as int] == (at, save@));
            assert(wanted.take(i as int + 1).drop_last() =~= wanted.take(i as int));
            assert(wanted.take(i as int + 1).last() == wanted[i as int]);
        }
        let number: u32 = channel_number(ch.physical_channel.as_str());
        if !(terminal_diff && number % 16 >= 8) {
            let ghost before = named(inputs@);
            inputs.push((at, save.clone()));
            assert(named(inputs@) =~= before.push((at, save@)));
        }
        let ghost before = named(scales@);
        scales.push((at, save));
        assert(named(scales@) =~= before.push((at, save@)));
        assert(named(scales@) =~= wanted.take(i as int + 1));
        i += 1;
    }
    assert(wanted.take(wanted.len() as int) =~= wanted);
    DevicePlan { device, task_name: concat2("mprofiler_", dev.name.as_str()), scales, inputs }
}

/// Plans a measurement: what each device does, and what is remembered of each
/// input.
pub fn plan_session(config: &DaqConfig, devices: &Vec<DeviceInfo>, terminal_diff: bool) -> (r:
    Result<SessionPlan, SessionError<String>>)
    ensures
        ({
            let plans = device_plans(*config, devices@, terminal_diff, devices@.len() as int);
            let metas = all_metas(*config, plans);
            if devices@.len() == 0 {
                r matches Err(e) && e@ == SessionError::<Seq<char>>::NoDevices
            } else {
                r matches Ok(p) && plan_views(p.devices@) == plans && meta_views(p.metas@) == metas
            }
        }),
{
    if devices.len() == 0 {
        return Err(SessionError::NoDevices);
    }
    let mut plans: Vec<DevicePlan> = Vec::new();
    let mut metas: Vec<ChannelMeta<String>> = Vec::new();
    let mut i: usize = 0;
    assert(plan_views(plans@) =~= Seq::<DevicePlanModel>::empty());
    assert(meta_views(metas@) =~= Seq::<ChannelMeta<Seq<char>>>::empty());
    while i < devices.len()
        invariant
            i <= devices@.len(),
            plan_views(plans@) == device_plans(*config, devices@, terminal_diff, i as int),
            meta_views(metas@) == all_metas(*config, plan_views(plans@)),
        decreases devices.len() - i,
    {
        let plan = plan_device(config, &devices[i], i, terminal_diff);
        if plan.scales.len() > 0 {
            let ghost before_plans = plan_views(plans@);
            let ghost before = meta_views(metas@);
            let ghost wanted = input_metas(*config, named(plan.inputs@));
            let mut k: usize = 0;
            assert(before + wanted.take(0) =~= before);
            while k < plan.inputs.len()
                invariant
                    wanted == input_metas(*config, named(plan.inputs@)),
                    forall|j: int|
                        0 <= j < plan.inputs@.len() ==> (#[trigger] plan.inputs@[j]).0
                            < config.channels@.len(),
                    k <= plan.inputs@.len(),
                    meta_views(metas@) == before + wanted.take(k as int),
                decreases plan.inputs.len() - k,
            {
                let at: usize = plan.inputs[k].0;
                let ch = &config.channels[at];
                let ghost prior = meta_views(metas@);
                let meta = ChannelMeta {
                    name: ch.name.clone(),
                    color: ch.color,
                    power_pair: power_pair_for_channel(config, ch),
                };
                proof {
                    assert(named(plan.inputs@)[k as int].0 == at);
                    assert(channel_views(config.channels@)[at as int] == ch@);
                    assert(wanted[k as int] == meta@);
                }
                metas.push(meta);
                assert(meta_views(metas@) =~= prior.push(meta@));
                assert(wanted.take(k as int + 1) =~= wanted.take(k as int).push(wanted[k as int]));
                assert(meta_views(metas@) =~= before + wanted.take(k as int + 1));
                k += 1;
            }
            assert(wanted.take(wanted.len() as int) =~= wanted);
            plans.push(plan);
            assert(plan_views(plans@) =~= before_plans.push(plan@));
            assert(plan_views(plans@).drop_last() =~= before_plans);
            assert(named(plan.scales@).len() == plan.scales@.len());
        }
        assert(named(plan.scales@).len() == plan.scales@.len());
        i += 1;
    }
    Ok(SessionPlan { devices: plans, metas })
}

impl SessionPlan {
    /// What is wrong with a measurement whose steps have all been taken: that
    /// it has no input.
    pub fn check_inputs(&self) -> (r: Result<(), SessionError<String>>)
        ensures
            if self.metas@.len() == 0 {
                r matches Err(e) && e@ == SessionError::<Seq<char>>::NoChannels
            } else {
                r is Ok
            },
    {
        if self.metas.len() == 0 {
            Err(SessionError::NoChannels)
        } else {
            Ok(())
        }
    }
}

/// A step that sets a device up: a scale or an input by its position in the
/// device's plan, or what concerns the device's task as a whole.
#[derive(Debug, Clone, Copy, PartialEq, Eq, Structural)]
pub enum SessionStep {
    Scale(usize),
    Task,
    Channel(usize),
    Timing,
    InputBuffer,
    Callback,
    Start,
}

/// The steps that set a device up, in order: its scales, its task, its inputs,
/// and, where it has any input, the sampling itself.
pub open spec fn setup_steps(scales: nat, inputs: nat) -> Seq<SessionStep> {
    Seq::new(scales, |i: int| SessionStep::Scale(i as usize)) + seq![SessionStep::Task] + Seq::new(
        inputs,
        |i: int| SessionStep::Channel(i as usize),
    ) + (if inputs == 0 {
        Seq::empty()
    } else {
        seq![
            SessionStep::Timing,
            SessionStep::InputBuffer,
            SessionStep::Callback,
            SessionStep::Start,
        ]
    })
}

impl DevicePlan {
    /// The steps that set the device up, in order.
    pub fn steps(&self) -> (r: Vec<SessionStep>)
        ensures
            r@ == setup_steps(self.scales@.len(), self.inputs@.len()),
    {
        let ghost scales = Seq::new(
            self.scales@.len(),
            |i: int| SessionStep::Scale(i as usize),
        );
        let ghost inputs = Seq::new(
            self.inputs@.len(),
            |i: int| SessionStep::Channel(i as usize),
        );
        let mut r: Vec<SessionStep> = Vec::new();
        let mut i: usize = 0;
        while i < self.scales.len()
            invariant
                scales == Seq::new(self.scales@.len(), |i: int| SessionStep::Scale(i as usize)),
                i <= self.scales@.len(),
                r@ == scales.take(i as int),
            decreases self.scales.len() - i,
        {
            r.push(SessionStep::Scale(i));
            assert(scales.take(i as int + 1) =~= scales.take(i as int).push(scales[i as int]));
            i += 1;
        }
        assert(scales.take(i as int) =~= scales);
        r.push(SessionStep::Task);
        let ghost head = r@;
        let mut k: usize = 0;
        assert(head + inputs.take(0) =~= head);
        while k < self.inputs.len()
            invariant
                inputs == Seq::new(self.inputs@.len(), |i: int| SessionStep::Channel(i as usize)),
                k <= self.inputs@.len(),
                r@ == head + inputs.take(k as int),
            decreases self.inputs.len() - k,
        {
            r.push(SessionStep::Channel(k));
            assert(head + inputs.take(k as int + 1) =~= (head + inputs.take(k as int)).push(
                inputs[k as int],
            ));
            k += 1;
        }
        assert(inputs.take(k as int) =~= inputs);
        if self.inputs.len() > 0 {
            r.push(SessionStep::Timing);
            r.push(SessionStep::InputBuffer);
            r.push(SessionStep::Callback);
            r.push(SessionStep::Start);
        }
        assert(r@ =~= setup_steps(self.scales@.len(), self.inputs@.len()));
        r
    }

    /// What a step that failed is called in an error.
    pub fn step_label(
        &self,
        step: SessionStep,
        config: &DaqConfig,
        dev: &DeviceInfo,
    ) -> (s: StartStep<String>)
        requires
            step matches SessionStep::Scale(i) ==> i < self.scales@.len()
                && self.scales@[i as int].0 < config.channels@.len(),
            step matches SessionStep::Channel(i) ==> i < self.inputs@.len()
                && self.inputs@[i as int].0 < config.channels@.len(),
        ensures
            s@ == match step {
                SessionStep::Scale(i) => StartStep::Scale(
                    config.channels@[self.scales@[i as int].0 as int].name@,
                ),
                SessionStep::Task => StartStep::Task(dev.name@),
                SessionStep::Channel(i) => StartStep::Channel(
                    config.channels@[self.inputs@[i as int].0 as int].physical_channel@,
                ),
                SessionStep::Timing => StartStep::Timing,
                SessionStep::InputBuffer => StartStep::InputBuffer,
                SessionStep::Callback => StartStep::Callback,
                SessionStep::Start => StartStep::Start,
            },
    {
        match step {
            SessionStep::Scale(i) => StartStep::Scale(
                config.channels[self.scales[i].0].name.clone(),
            ),
            SessionStep::Task => StartStep::Task(dev.name.clone()),
            SessionStep::Channel(i) => StartStep::Channel(
                config.channels[self.inputs[i].0].physical_channel.clone(),
            ),
            SessionStep::Timing => StartStep::Timing,
            SessionStep::InputBuffer => StartStep::InputBuffer,
            SessionStep::Callback => StartStep::Callback,
            SessionStep::Start => StartStep::Start,
        }
    }
}

/// The voltages between which a channel is read.
pub open spec fn range_read(
    ch: ChannelConfig<Seq<char>>,
    min_voltage: Double,
    max_voltage: Double,
) -> (Double, Double) {
    (
        match ch.range_min {
            Some(v) => v,
            None => min_voltage,
        },
        match ch.range_max {
            Some(v) => v,
            None => max_voltage,
        },
    )
}

/// The voltages between which a channel is read: its own, and else those of
/// the measurement.
pub fn input_range(ch: &ChannelConfig<String>, min_voltage: Double, max_voltage: Double) -> (r: (
    Double,
    Double,
))
    ensures
        r == range_read(ch@, min_voltage, max_voltage),
        r.0 == match ch.range_min {
            Some(v) => v,
            None => min_voltage,
        },
        r.1 == match ch.range_max {
            Some(v) => v,
            None => max_voltage,
        },
{
    let low = match ch.range_min {
        Some(v) => v,
        None => min_voltage,
    };
    let high = match ch.range_max {
        Some(v) => v,
        None => max_voltage,
    };
    (low, high)
}

proof fn lemma_inputs_are_usable(
    channels: Seq<ChannelConfig<Seq<char>>>,
    scales: Seq<(usize, Seq<char>)>,
    terminal_diff: bool,
)
    ensures
        forall|i: int|
            0 <= i < input_list(channels, scales, terminal_diff).len() ==> usable(
                channels[(#[trigger] input_list(
                    channels,
                    scales,
                    terminal_diff,
                )[i]).0 as int].physical_channel,
                terminal_diff,
            ),
    decreases scales.len(),
{
    if scales.len() > 0 {
        lemma_inputs_are_usable(channels, scales.drop_last(), terminal_diff);
        let before = input_list(channels, scales.drop_last(), terminal_diff);
        let now = input_list(channels, scales, terminal_diff);
        assert forall|i: int| 0 <= i < now.len() implies usable(
            channels[(#[trigger] now[i]).0 as int].physical_channel,
            terminal_diff,
        ) by {
            if i < before.len() {
                assert(now[i] == before[i]);
            }
        }
    }
}

/// Every input that a device reads can be used.
pub proof fn law_inputs_are_usable(
    config: DaqConfig,
    dev: DeviceInfo,
    device: usize,
    terminal_diff: bool,
    i: int,
)
    requires
        0 <= i < device_plan(config, dev, device, terminal_diff).inputs.len(),
    ensures
        usable(
            channel_views(config.channels@)[device_plan(
                config,
                dev,
                device,
                terminal_diff,
            ).inputs[i].0 as int].physical_channel,
            terminal_diff,
        ),
{
    let p = device_plan(config, dev, device, terminal_diff);
    lemma_inputs_are_usable(channel_views(config.channels@), p.scales, terminal_diff);
}

// ---------------------------------------------------------------------------
// Power pairs
// ---------------------------------------------------------------------------

/// The channels that make up a power pair, and the pair's name.
#[derive(Debug)]
pub struct PairPlan {
    pub index: u32,
    pub voltage: usize,
    pub current: usize,
    pub name: String,
}

/// The last of the first `n` channels that is the voltage, or the current, of
/// a pair, or -1.
pub open spec fn last_in_pair(
    metas: Seq<ChannelMeta<Seq<char>>>,
    index: u32,
    is_current: bool,
    n: int,
) -> int
    decreases n,
{
    if n <= 0 {
        -1
    } else if metas[n - 1].power_pair == Some((index, is_current)) {
        n - 1
    } else {
        last_in_pair(metas, index, is_current, n - 1)
    }
}

/// Whether a pair has both its voltage and its current.
pub open spec fn complete(metas: Seq<ChannelMeta<Seq<char>>>, index: u32) -> bool {
    last_in_pair(metas, index, false, metas.len() as int) >= 0 && last_in_pair(
        metas,
        index,
        true,
        metas.len() as int,
    ) >= 0
}

/// The name of a pair: that of its voltage, or of its current where the
/// voltage has none.
pub open spec fn pair_name(metas: Seq<ChannelMeta<Seq<char>>>, voltage: int, current: int) -> Seq<
    char,
> {
    if metas[voltage].name.len() > 0 {
        metas[voltage].name
    } else {
        metas[current].name
    }
}

/// Whether a plan is that of a pair.
pub open spec fn plans_pair(metas: Seq<ChannelMeta<Seq<char>>>, p: PairPlan) -> bool {
    &&& complete(metas, p.index)
    &&& p.voltage == last_in_pair(metas, p.index, false, metas.len() as int)
    &&& p.current == last_in_pair(metas, p.index, true, metas.len() as int)
    &&& p.name@ == pair_name(metas, p.voltage as int, p.current as int)
}

/// Whether plans are those of all complete pairs, in ascending order.
pub open spec fn plans_all_pairs(metas: Seq<ChannelMeta<Seq<char>>>, v: Seq<PairPlan>) -> bool {
    &&& forall|i: int| 0 <= i < v.len() ==> plans_pair(metas, #[trigger] v[i])
    &&& forall|i: int, j: int|
        0 <= i < j < v.len() ==> (#[trigger] v[i]).index < (#[trigger] v[j]).index
    &&& forall|index: u32| #[trigger]
        complete(metas, index) ==> exists|i: int| 0 <= i < v.len() && (#[trigger] v[i]).index
            == index
}

proof fn lemma_last_in_pair(
    metas: Seq<ChannelMeta<Seq<char>>>,
    index: u32,
    is_current: bool,
    n: int,
)
    requires
        0 <= n <= metas.len(),
    ensures
        -1 <= last_in_pair(metas, index, is_current, n) < n,
        last_in_pair(metas, index, is_current, n) >= 0 ==> metas[last_in_pair(
            metas,
            index,
            is_current,
            n,
        )].power_pair == Some((index, is_current)),
    decreases n,
{
    if n > 0 {
        lemma_last_in_pair(metas, index, is_current, n - 1);
    }
}

fn find_last(metas: &Vec<ChannelMeta<String>>, index: u32, is_current: bool) -> (r: Option<usize>)
    ensures
        ({
            let k = last_in_pair(meta_views(metas@), index, is_current, metas@.len() as int);
            match r {
                Some(i) => i == k && k >= 0 && i < metas@.len(),
                None => k == -1,
            }
        }),
{
    let ghost all = meta_views(metas@);
    let mut i: usize = metas.len();
    while i > 0
        invariant
            all == meta_views(metas@),
            i <= metas@.len(),
            last_in_pair(all, index, is_current, metas@.len() as int) == last_in_pair(
                all,
                index,
                is_current,
                i as int,
            ),
        decreases i,
    {
        assert(all[i - 1] == metas@[i - 1]@);
        match metas[i - 1].power_pair {
            Some((idx, cur)) => {
                if idx == index && cur == is_current {
                    return Some(i - 1);
                }
            },
            None => {},
        }
        i -= 1;
    }
    None
}

/// The smallest index of a pair that is at least `from`.
fn next_index(metas: &Vec<ChannelMeta<String>>, from: u64) -> (r: Option<u32>)
    ensures
        match r {
            Some(x) => from <= x && forall|i: int|
                #![trigger metas@[i]]
                0 <= i < metas@.len() ==> (metas@[i].power_pair matches Some(p) ==> p.0 < from
                    || x <= p.0),
            None => forall|i: int|
                #![trigger metas@[i]]
                0 <= i < metas@.len() ==> (metas@[i].power_pair matches Some(p) ==> p.0 < from),
        },
{
    let mut best: Option<u32> = None;
    let mut i: usize = 0;
    while i < metas.len()
        invariant
            i <= metas@.len(),
            match best {
                Some(x) => from <= x && forall|k: int|
                    #![trigger metas@[k]]
                    0 <= k < i ==> (metas@[k].power_pair matches Some(p) ==> p.0 < from || x
                        <= p.0),
                None => forall|k: int|
                    #![trigger metas@[k]]
                    0 <= k < i ==> (metas@[k].power_pair matches Some(p) ==> p.0 < from),
            },
        decreases metas.len() - i,
    {
        match metas[i].power_pair {
            Some((idx, _)) => {
                if idx as u64 >= from {
                    best = match best {
                        Some(x) => if idx < x {
                            Some(idx)
                        } else {
                            Some(x)
                        },
                        None => Some(idx),
                    };
                }
            },
            None => {},
        }
        i += 1;
    }
    best
}

/// Whether some channel is in a pair.
proof fn lemma_complete_is_present(metas: Seq<ChannelMeta<String>>, index: u32)
    requires
        complete(meta_views(metas), index),
    ensures
        exists|i: int|
            0 <= i < metas.len() && (#[trigger] metas[i]).power_pair == Some((index, true)),
{
    let all = meta_views(metas);
    lemma_last_in_pair(all, index, true, all.len() as int);
    let k = last_in_pair(all, index, true, all.len() as int);
    assert(all[k] == metas[k]@);
    assert(metas[k].power_pair == Some((index, true)));
}

/// The channels that make up each power pair, in the order of the pairs'
/// indices. Where several channels share a place, the last one has it; a pair
/// without a voltage or a current is left out.
pub fn pair_plans(metas: &Vec<ChannelMeta<String>>) -> (r: Vec<PairPlan>)
    ensures
        plans_all_pairs(meta_views(metas@), r@),
{
    let ghost all = meta_views(metas@);
    let mut r: Vec<PairPlan> = Vec::new();
    let mut from: u64 = 0;
    let mut done = false;
    while !done
        invariant
            all == meta_views(metas@),
            from <= 0x1_0000_0000,
            forall|i: int| 0 <= i < r@.len() ==> plans_pair(all, #[trigger] r@[i]),
            forall|i: int| 0 <= i < r@.len() ==> (#[trigger] r@[i]).index < from,
            forall|i: int, j: int|
                0 <= i < j < r@.len() ==> (#[trigger] r@[i]).index < (#[trigger] r@[j]).index,
            forall|index: u32| #[trigger]
                complete(all, index) && index < from ==> exists|i: int|
                    0 <= i < r@.len() && (#[trigger] r@[i]).index == index,
            done ==> forall|index: u32| #[trigger] complete(all, index) ==> index < from,
        decreases 0x1_0000_0000 - from, (if done { 0int } else { 1int }),
    {
        match next_index(metas, from) {
            None => {
                done = true;
                assert forall|index: u32| #[trigger] complete(all, index) implies index < from by {
                    lemma_complete_is_present(metas@, index);
                    let i = choose|i: int|
                        0 <= i < metas@.len() && (#[trigger] metas@[i]).power_pair == Some(
                            (index, true),
                        );
                    assert(metas@[i].power_pair == Some((index, true)));
                }
            },
            Some(index) => {
                let ghost before = r@;
                let ghost low = from;
                let voltage = find_last(metas, index, false);
                let current = find_last(metas, index, true);
                if let (Some(v), Some(c)) = (voltage, current) {
                    assert(all[v as int] == metas@[v as int]@);
                    assert(all[c as int] == metas@[c as int]@);
                    let name = if chars_of(metas[v].name.as_str()).len() > 0 {
                        metas[v].name.clone()
                    } else {
                        metas[c].name.clone()
                    };
                    r.push(PairPlan { index, voltage: v, current: c, name });
                }
                from = index as u64 + 1;
                proof {
                    assert forall|x: u32| #[trigger] complete(all, x) && x < from implies exists|i: int|
                        0 <= i < r@.len() && (#[trigger] r@[i]).index == x by {
                        if x < low {
                            let i = choose|i: int|
                                0 <= i < before.len() && (#[trigger] before[i]).index == x;
                            assert(r@[i].index == x);
                        } else {
                            lemma_complete_is_present(metas@, x);
                            let i = choose|i: int|
                                0 <= i < metas@.len() && (#[trigger] metas@[i]).power_pair == Some(
                                    (x, true),
                                );
                            assert(metas@[i].power_pair == Some((x, true)));
                            assert(x == index);
                            assert(r@[r@.len() - 1].index == x);
                        }
                    }
                }
            },
        }
    }
    r
}

/// There is one way to plan the power pairs of given channels.
pub proof fn law_pairing_is_unique(
    metas: Seq<ChannelMeta<Seq<char>>>,
    a: Seq<PairPlan>,
    b: Seq<PairPlan>,
)
    requires
        plans_all_pairs(metas, a),
        plans_all_pairs(metas, b),
    ensures
        a.len() == b.len(),
        forall|i: int|
            0 <= i < a.len() ==> (#[trigger] a[i]).index == b[i].index && a[i].voltage
                == b[i].voltage && a[i].current == b[i].current && a[i].name@ == b[i].name@,
{
    lemma_pairs_agree(metas, a, b, if a.len() < b.len() { a.len() as int } else { b.len() as int });
    if a.len() < b.len() {
        assert(plans_pair(metas, b[a.len() as int]));
        let x = b[a.len() as int].index;
        assert(complete(metas, x));
        let i = choose|i: int| 0 <= i < a.len() && (#[trigger] a[i]).index == x;
        assert(a[i].index == b[i].index);
        assert(b[i].index < b[a.len() as int].index);
    }
    if b.len() < a.len() {
        assert(plans_pair(metas, a[b.len() as int]));
        let x = a[b.len() as int].index;
        assert(complete(metas, x));
        let i = choose|i: int| 0 <= i < b.len() && (#[trigger] b[i]).index == x;
        assert(a[i].index == b[i].index);
        assert(a[i].index < a[b.len() as int].index);
    }
    assert forall|i: int| 0 <= i < a.len() implies (#[trigger] a[i]).index == b[i].index
        && a[i].voltage == b[i].voltage && a[i].current == b[i].current && a[i].name@
        == b[i].name@ by {
        assert(plans_pair(metas, a[i]));
        assert(plans_pair(metas, b[i]));
    }
}

proof fn lemma_pairs_agree(
    metas: Seq<ChannelMeta<Seq<char>>>,
    a: Seq<PairPlan>,
    b: Seq<PairPlan>,
    n: int,
)
    requires
        plans_all_pairs(metas, a),
        plans_all_pairs(metas, b),
        0 <= n <= a.len(),
        n <= b.len(),
    ensures
        forall|i: int| 0 <= i < n ==> (#[trigger] a[i]).index == b[i].index,
    decreases n,
{
    if n > 0 {
        lemma_pairs_agree(metas, a, b, n - 1);
        let k = n - 1;
        assert(plans_pair(metas, a[k]));
        assert(plans_pair(metas, b[k]));
        assert(complete(metas, a[k].index));
        assert(complete(metas, b[k].index));
        let i = choose|i: int| 0 <= i < b.len() && (#[trigger] b[i]).index == a[k].index;
        let j = choose|j: int| 0 <= j < a.len() && (#[trigger] a[j]).index == b[k].index;
        if i < k {
            assert(a[i].index == b[i].index);
            assert(a[i].index < a[k].index);
        }
        if j < k {
            assert(a[j].index == b[j].index);
            assert(b[j].index < b[k].index);
        }
        if a[k].index < b[k].index {
            if i > k {
                assert(b[k].index < b[i].index);
            }
        }
        if b[k].index < a[k].index {
            if j > k {
                assert(a[k].index < a[j].index);
            }
        }
    }
}

// ---------------------------------------------------------------------------
// The end of a measurement
// ---------------------------------------------------------------------------

/// A pair's index as a signed number; indices above the largest signed number
/// come out negative.
pub open spec fn signed_index(index: u32) -> int {
    if index <= i32::MAX {
        index as int
    } else {
        index - 0x1_0000_0000
    }
}

/// Whether a channel is the current of a pair, and the pair's index; -1 for a
/// channel without a pair.
pub fn pair_place(meta: &ChannelMeta<String>) -> (r: (bool, i32))
    ensures
        match meta.power_pair {
            Some(p) => r.0 == p.1 && r.1 == signed_index(p.0),
            None => !r.0 && r.1 == -1,
        },
{
    match meta.power_pair {
        Some((idx, is_current)) => {
            let signed: i64 = if idx <= 0x7FFF_FFFF {
                idx as i64
            } else {
                idx as i64 - 0x1_0000_0000
            };
            (is_current, signed as i32)
        },
        None => (false, -1),
    }
}

/// The message about a buffer that could not be locked.
pub fn poisoned_buffer_message(buffer: usize, reason: &str) -> (s: String)
    ensures
        s@ == "Buffer mutex poisoned for buffer "@ + decimal(buffer as nat) + ": "@ + reason@,
{
    concat4(
        "Buffer mutex poisoned for buffer ",
        decimal_text(buffer as u64).as_str(),
        ": ",
        reason,
    )
}

/// The messages about a task that could not be stopped or cleared; a code of
/// zero gives none.
pub fn cleanup_messages(task: usize, stop_code: i32, clear_code: i32) -> (r: Vec<String>)
    ensures
        texts(r@) == (if stop_code != 0 {
            seq![
                "stop_task["@ + decimal(task as nat) + "] returned error code "@ + decimal_signed(
                    stop_code as int,
                ),
            ]
        } else {
            Seq::<Seq<char>>::empty()
        }) + (if clear_code != 0 {
            seq![
                "clear_task["@ + decimal(task as nat) + "] returned error code "@ + decimal_signed(
                    clear_code as int,
                ),
            ]
        } else {
            Seq::<Seq<char>>::empty()
        }),
{
    let mut r: Vec<String> = Vec::new();
    let number = decimal_text(task as u64);
    if stop_code != 0 {
        let m = concat4(
            "stop_task[",
            number.as_str(),
            "] returned error code ",
            signed_text(stop_code as i64).as_str(),
        );
        r.push(m);
    }
    if clear_code != 0 {
        let m = concat4(
            "clear_task[",
            number.as_str(),
            "] returned error code ",
            signed_text(clear_code as i64).as_str(),
        );
        r.push(m);
    }
    assert(texts(r@) =~= (if stop_code != 0 {
        seq![
            "stop_task["@ + decimal(task as nat) + "] returned error code "@ + decimal_signed(
                stop_code as int,
            ),
        ]
    } else {
        Seq::<Seq<char>>::empty()
    }) + (if clear_code != 0 {
        seq![
            "clear_task["@ + decimal(task as nat) + "] returned error code "@ + decimal_signed(
                clear_code as int,
            ),
        ]
    } else {
        Seq::<Seq<char>>::empty()
    }));
    r
}

} // verus!
