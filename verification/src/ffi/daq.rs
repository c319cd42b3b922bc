//! Measurements, for callers in other languages.
use vstd::prelude::*;
use crate::daq::config::{DaqConfig, channel_views, pair_views, ChannelConfig, PowerPair};
use crate::daq::device::DeviceInfo;
use crate::daq::error::{DaqmxError, DaqmxResult};
use crate::daq::summary::{DaqChannelSummary, DaqPollData, DaqPowerPairSummary, DaqSummary};
use crate::double::Double;
use crate::ffi::calls::text_given;
use crate::ffi::outcome::{Verdict, went_well, went_wrong};
use crate::ffi::records::{
    HandOver, all_handed, flag_value, hand_over_all, hand_over_polled, poll_handed,
};
use crate::ffi::streams::{poll_gives, refused};
use crate::ffi::types::{
    ProfilerDaqChannelStats, ProfilerDaqConfigInfo, ProfilerDaqDevice, ProfilerDaqDeviceList,
    ProfilerDaqErrors, ProfilerDaqPollData, ProfilerDaqPowerBreakdown, ProfilerDaqSummary,
    ProfilerResult,
};
use crate::runtime::HandleTable;
use crate::text::{concat2, same_text, texts};
use crate::wide::{all_units, all_wide, from_wide, to_wide, to_wide_all, wide};

verus! {

/// The configurations that were read and the measurements that run, by the
/// number that was handed out for each. `H` is the type of measurements.
pub struct DaqState<H> {
    pub configs: HandleTable<DaqConfig>,
    pub streams: HandleTable<H>,
}

impl<H> DaqState<H> {
    pub open spec fn wf(&self) -> bool {
        self.configs.wf() && self.streams.wf()
    }

    /// No configurations and no measurements.
    pub fn new() -> (s: DaqState<H>)
        ensures
            s.wf(),
            s.configs@ == Map::<u64, DaqConfig>::empty(),
            s.streams@ == Map::<u64, H>::empty(),
            s.configs.next_id() == 1,
            s.streams.next_id() == 1,
    {
        DaqState { configs: HandleTable::new(), streams: HandleTable::new() }
    }
}

fn well() -> (v: Verdict<String>)
    ensures
        v@ == went_well(),
{
    Verdict { result: ProfilerResult::Success, last_error: None, drop_connection: false }
}

fn wrong(last_error: String) -> (v: Verdict<String>)
    ensures
        v@ == went_wrong(Some(last_error@)),
{
    Verdict {
        result: ProfilerResult::OperationFailed,
        last_error: Some(last_error),
        drop_connection: false,
    }
}

fn refuse(last_error: Option<&str>) -> (v: Verdict<String>)
    ensures
        v@ == refused(
            ProfilerResult::InvalidParameter,
            match last_error {
                Some(m) => Some(m@),
                None => None,
            },
        ),
{
    let last_error = match last_error {
        Some(m) => Some(m.to_string()),
        None => None,
    };
    Verdict { result: ProfilerResult::InvalidParameter, last_error, drop_connection: false }
}

// ---------------------------------------------------------------------------
// Devices
// ---------------------------------------------------------------------------

impl HandOver for DeviceInfo {
    type Wide = ProfilerDaqDevice;

    open spec fn handed(&self, w: &ProfilerDaqDevice) -> bool {
        &&& w.name@ == wide(self.name@)
        &&& w.product_type@ == wide(self.product_type@)
        &&& w.serial_number == self.serial_number
        &&& w.ai_channel_count == self.ai_channels@.len() as u32
    }

    fn hand_over(&self) -> (w: ProfilerDaqDevice) {
        ProfilerDaqDevice {
            name: to_wide(self.name.as_str()),
            product_type: to_wide(self.product_type.as_str()),
            serial_number: self.serial_number,
            ai_channel_count: self.ai_channels.len() as u32,
        }
    }
}

/// What came of listing the devices.
#[derive(Debug)]
pub enum DaqListing {
    /// The driver could not be loaded.
    NoDriver(DaqmxError<String>),
    /// What the driver said.
    Listed(DaqmxResult<Vec<DeviceInfo>>),
}

/// Whether `r` is what a listing comes to. That there are no devices is no
/// failure. Where the driver could not be loaded, no list is handed over.
pub open spec fn listing_handed(
    listing: DaqListing,
    r: (Verdict<String>, Option<ProfilerDaqDeviceList>),
) -> bool {
    match listing {
        DaqListing::NoDriver(e) => r.0@ == went_wrong(Some(e@.words())) && r.1 is None,
        DaqListing::Listed(Ok(d)) => r.0@ == went_well() && r.1 is Some && all_handed(
            d@,
            r.1->Some_0.devices@,
        ),
        DaqListing::Listed(Err(e)) => {
            &&& r.0@ == if e is NoDevices {
                went_well()
            } else {
                went_wrong(Some("Device enumeration failed: "@ + e@.words()))
            }
            &&& r.1 is Some
            &&& r.1->Some_0.devices@.len() == 0
        },
    }
}

/// Whether `list` can find `listing`.
pub open spec fn list_gives<F: Fn() -> DaqListing>(list: F, listing: DaqListing) -> bool {
    call_ensures(list, (), listing)
}

/// Lists the devices, which `list` finds, where there is room for the list;
/// else the call is refused before the driver is asked.
pub fn profiler_daq_list_devices<F: Fn() -> DaqListing>(list_given: bool, list: F) -> (r: (
    Verdict<String>,
    Option<ProfilerDaqDeviceList>,
))
    requires
        call_requires(list, ()),
    ensures
        if list_given {
            exists|listing: DaqListing| #[trigger]
                list_gives(list, listing) && listing_handed(listing, r)
        } else {
            r.0@ == refused(ProfilerResult::InvalidParameter, None) && r.1 is None
        },
{
    if !list_given {
        return (refuse(None), None);
    }
    let listing = list();
    let r = listing_outcome(&listing);
    assert(list_gives(list, listing));
    r
}

/// What listing the devices comes to.
pub fn listing_outcome(listing: &DaqListing) -> (r: (
    Verdict<String>,
    Option<ProfilerDaqDeviceList>,
))
    ensures
        listing_handed(*listing, r),
{
    match listing {
        DaqListing::NoDriver(e) => (wrong(e.to_string()), None),
        DaqListing::Listed(listed) => match listed {
            Ok(d) => (well(), Some(ProfilerDaqDeviceList { devices: hand_over_all(d) })),
            Err(e) => {
                let none = ProfilerDaqDeviceList { devices: Vec::new() };
                match e {
                    DaqmxError::NoDevices => (well(), Some(none)),
                    _ => {
                        let m = concat2("Device enumeration failed: ", e.to_string().as_str());
                        (wrong(m), Some(none))
                    },
                }
            },
        },
    }
}

// ---------------------------------------------------------------------------
// Configurations
// ---------------------------------------------------------------------------

/// The file that a caller wants a configuration read from.
pub fn profiler_daq_load_config(excel_path: Option<&Vec<u16>>, out_given: bool) -> (r: Result<
    String,
    ProfilerResult,
>)
    ensures
        if excel_path is None || !out_given {
            r is Err && r->Err_0 == ProfilerResult::InvalidParameter
        } else {
            r is Ok && r->Ok_0@ == text_given(excel_path)
        },
{
    if excel_path.is_none() || !out_given {
        Err(ProfilerResult::InvalidParameter)
    } else {
        Ok(from_wide(excel_path))
    }
}

fn keep<H>(table: &mut HandleTable<H>, handle: H) -> (id: u64)
    requires
        old(table).wf(),
        old(table).next_id() < u64::MAX,
    ensures
        final(table).wf(),
        id == old(table).next_id(),
        final(table).next_id() == id + 1,
        final(table)@ == old(table)@.insert(id, handle),
{
    let id: u64 = table.next_handle_id();
    table.insert(id, handle);
    id
}

/// Whether what was made is kept under the next number, or what stopped it is
/// remembered behind `prefix`.
pub open spec fn kept<T>(
    before: HandleTable<T>,
    after: HandleTable<T>,
    made: Result<T, String>,
    prefix: Seq<char>,
    r: (Verdict<String>, Option<u64>),
) -> bool {
    match made {
        Ok(x) => {
            &&& r.0@ == went_well()
            &&& r.1 == Some(before.next_id())
            &&& after@ == before@.insert(before.next_id(), x)
            &&& after.next_id() == before.next_id() + 1
        },
        Err(e) => {
            &&& r.0@ == went_wrong(Some(prefix + e@))
            &&& r.1 is None
            &&& after == before
        },
    }
}

/// Keeps a configuration that was read, and hands out its number.
pub fn keep_config<H>(state: &mut DaqState<H>, read: Result<DaqConfig, String>) -> (r: (
    Verdict<String>,
    Option<u64>,
))
    requires
        old(state).wf(),
        old(state).configs.next_id() < u64::MAX,
    ensures
        final(state).wf(),
        final(state).streams == old(state).streams,
        kept(old(state).configs, final(state).configs, read, "Failed to load DAQ config: "@, r),
{
    match read {
        Ok(config) => {
            let id: u64 = keep(&mut state.configs, config);
            (well(), Some(id))
        },
        Err(e) => (wrong(concat2("Failed to load DAQ config: ", e.as_str())), None),
    }
}

/// Forgets a configuration.
pub fn profiler_daq_free_config<H>(state: &mut DaqState<H>, config_handle: u64)
    requires
        old(state).wf(),
    ensures
        final(state).wf(),
        final(state).streams == old(state).streams,
        final(state).configs@ == old(state).configs@.remove(config_handle),
        final(state).configs.next_id() == old(state).configs.next_id(),
{
    let _ = state.configs.remove(config_handle);
}

/// The position of the first channel, from `i` on, that is connected where
/// `channel` says or has that name.
pub open spec fn channel_of(
    channels: Seq<ChannelConfig<Seq<char>>>,
    channel: Seq<char>,
    i: int,
) -> Option<int>
    decreases channels.len() - i,
{
    if i < 0 || i >= channels.len() {
        None
    } else if channels[i].physical_channel == channel || channels[i].name == channel {
        Some(i)
    } else {
        channel_of(channels, channel, i + 1)
    }
}

/// The name of a power pair: that of its voltage channel.
pub open spec fn pair_title(
    channels: Seq<ChannelConfig<Seq<char>>>,
    pair: PowerPair<Seq<char>>,
) -> Seq<char> {
    match channel_of(channels, pair.voltage_channel, 0) {
        Some(i) => channels[i].name,
        None => pair.voltage_channel,
    }
}
fn title_of_pair(config: &DaqConfig, pair: &PowerPair<String>) -> (s: String)
    ensures
        s@ == pair_title(channel_views(config.channels@), pair@),
{
    let ghost all = channel_views(config.channels@);
    let mut i: usize = 0;
    while i < config.channels.len()
        invariant
            all == channel_views(config.channels@),
            i <= config.channels@.len(),
            channel_of(all, pair.voltage_channel@, 0) == channel_of(
                all,
                pair.voltage_channel@,
                i as int,
            ),
        decreases config.channels.len() - i,
    {
        let ch = &config.channels[i];
        assert(all[i as int] == ch@);
        if same_text(ch.physical_channel.as_str(), pair.voltage_channel.as_str()) || same_text(
            ch.name.as_str(),
            pair.voltage_channel.as_str(),
        ) {
            return ch.name.clone();
        }
        i += 1;
    }
    pair.voltage_channel.clone()
}

/// The names of the channels of a configuration.
pub open spec fn channel_names(config: DaqConfig) -> Seq<Seq<char>> {
    channel_views(config.channels@).map_values(|c: ChannelConfig<Seq<char>>| c.name)
}

/// The names of the power pairs of a configuration.
pub open spec fn pair_titles(config: DaqConfig) -> Seq<Seq<char>> {
    pair_views(config.power_pairs@).map_values(
        |p: PowerPair<Seq<char>>| pair_title(channel_views(config.channels@), p),
    )
}

/// Hands over the names of the channels and power pairs of a configuration.
pub fn profiler_daq_get_config_info<H>(
    state: &DaqState<H>,
    config_handle: u64,
    info_given: bool,
) -> (r: Result<ProfilerDaqConfigInfo, Verdict<String>>)
    ensures
        if !info_given {
            r is Err && r->Err_0@ == refused(ProfilerResult::InvalidParameter, None)
        } else if !state.configs@.contains_key(config_handle) {
            r is Err && r->Err_0@ == refused(
                ProfilerResult::InvalidParameter,
                Some("Invalid config handle"@),
            )
        } else {
            &&& r is Ok
            &&& all_units(r->Ok_0.channel_names@) == all_wide(
                channel_names(state.configs@[config_handle]),
            )
            &&& all_units(r->Ok_0.power_pair_names@) == all_wide(
                pair_titles(state.configs@[config_handle]),
            )
        },
{
    if !info_given {
        return Err(refuse(None));
    }
    let config = match state.configs.get(config_handle) {
        Some(c) => c,
        None => return Err(refuse(Some("Invalid config handle"))),
    };
    let mut names: Vec<String> = Vec::new();
    let mut i: usize = 0;
    while i < config.channels.len()
        invariant
            i <= config.channels@.len(),
            texts(names@) == channel_names(*config).take(i as int),
        decreases config.channels.len() - i,
    {
        let ghost before = texts(names@);
        let name = config.channels[i].name.clone();
        names.push(name);
        assert(texts(names@) =~= before.push(name@));
        assert(channel_names(*config).take(i as int + 1) =~= before.push(
            channel_names(*config)[i as int],
        ));
        i += 1;
    }
    assert(channel_names(*config).take(i as int) =~= channel_names(*config));
    let mut titles: Vec<String> = Vec::new();
    let mut k: usize = 0;
    while k < config.power_pairs.len()
        invariant
            k <= config.power_pairs@.len(),
            texts(titles@) == pair_titles(*config).take(k as int),
        decreases config.power_pairs.len() - k,
    {
        let ghost before = texts(titles@);
        let title = title_of_pair(config, &config.power_pairs[k]);
        titles.push(title);
        assert(texts(titles@) =~= before.push(title@));
        assert(pair_titles(*config).take(k as int + 1) =~= before.push(
            pair_titles(*config)[k as int],
        ));
        k += 1;
    }
    assert(pair_titles(*config).take(k as int) =~= pair_titles(*config));
    Ok(
        ProfilerDaqConfigInfo {
            channel_names: to_wide_all(&names),
            power_pair_names: to_wide_all(&titles),
        },
    )
}

// ---------------------------------------------------------------------------
// Measurements
// ---------------------------------------------------------------------------

/// A measurement that is to be started: its configuration, and the file that
/// its samples go to.
pub struct DaqStart<'a> {
    pub config: &'a DaqConfig,
    pub output_path: Option<String>,
}

/// The measurement that a caller wants.
pub fn profiler_daq_start<'a, H>(
    state: &'a DaqState<H>,
    config_handle: u64,
    output_path: Option<&Vec<u16>>,
    out_given: bool,
) -> (r: Result<DaqStart<'a>, Verdict<String>>)
    ensures
        if !out_given {
            r is Err && r->Err_0@ == refused(ProfilerResult::InvalidParameter, None)
        } else if !state.configs@.contains_key(config_handle) {
            r is Err && r->Err_0@ == refused(
                ProfilerResult::InvalidParameter,
                Some("Invalid config handle"@),
            )
        } else {
            &&& r is Ok
            &&& *r->Ok_0.config == state.configs@[config_handle]
            &&& match output_path {
                Some(_) => r->Ok_0.output_path is Some && r->Ok_0.output_path->Some_0@
                    == text_given(output_path),
                None => r->Ok_0.output_path is None,
            }
        },
{
    if !out_given {
        return Err(refuse(None));
    }
    match state.configs.get(config_handle) {
        Some(config) => {
            let output_path = if output_path.is_some() {
                Some(from_wide(output_path))
            } else {
                None
            };
            Ok(DaqStart { config, output_path })
        },
        None => Err(refuse(Some("Invalid config handle"))),
    }
}

/// Keeps a measurement that was started, and hands out its number.
pub fn keep_measurement<H>(state: &mut DaqState<H>, started: Result<H, String>) -> (r: (
    Verdict<String>,
    Option<u64>,
))
    requires
        old(state).wf(),
        old(state).streams.next_id() < u64::MAX,
    ensures
        final(state).wf(),
        final(state).configs == old(state).configs,
        kept(old(state).streams, final(state).streams, started, "Failed to start DAQ: "@, r),
{
    match started {
        Ok(h) => {
            let id: u64 = keep(&mut state.streams, h);
            (well(), Some(id))
        },
        Err(e) => (wrong(concat2("Failed to start DAQ: ", e.as_str())), None),
    }
}

/// The measurement whose errors a caller wants.
pub fn profiler_daq_get_errors<H>(state: &DaqState<H>, handle: u64, errors_given: bool) -> (r:
    Result<&H, Verdict<String>>)
    ensures
        if !errors_given {
            r is Err && r->Err_0@ == refused(ProfilerResult::InvalidParameter, None)
        } else if !state.streams@.contains_key(handle) {
            r is Err && r->Err_0@ == refused(
                ProfilerResult::InvalidParameter,
                Some("Invalid DAQ handle"@),
            )
        } else {
            r is Ok && *r->Ok_0 == state.streams@[handle]
        },
{
    if !errors_given {
        return Err(refuse(None));
    }
    match state.streams.get(handle) {
        Some(h) => Ok(h),
        None => Err(refuse(Some("Invalid DAQ handle"))),
    }
}

/// Hands over the next values of a measurement, where there are any: nothing
/// where the measurement is not there, or nowhere to put them. `poll` is called
/// no more than once.
pub fn profiler_daq_poll<H, F: FnOnce(&H) -> Option<DaqPollData>>(
    state: &DaqState<H>,
    handle: u64,
    data_given: bool,
    poll: F,
) -> (w: Option<ProfilerDaqPollData>)
    requires
        forall|h: &H| call_requires(poll, (h,)),
    ensures
        if data_given && state.streams@.contains_key(handle) {
            exists|found: Option<DaqPollData>| #[trigger]
                poll_gives(poll, state.streams@[handle], found) && poll_handed(found, w)
        } else {
            w is None
        },
{
    if !data_given {
        return None;
    }
    match state.streams.get(handle) {
        Some(h) => {
            let found = poll(h);
            let w = hand_over_polled(&found);
            proof {
                assert(poll_gives(poll, *h, found));
            }
            w
        },
        None => None,
    }
}

/// What is handed over for the errors of a measurement.
pub fn daq_errors_to_ffi(messages: &Vec<String>) -> (w: ProfilerDaqErrors)
    ensures
        all_units(w.messages@) == all_wide(texts(messages@)),
{
    ProfilerDaqErrors { messages: to_wide_all(messages) }
}

/// The names of named values.
pub open spec fn value_names(v: Seq<(String, Double)>) -> Seq<Seq<char>> {
    Seq::new(v.len(), |i: int| v[i].0@)
}

/// The values of named values.
pub open spec fn bare_values(v: Seq<(String, Double)>) -> Seq<Double> {
    Seq::new(v.len(), |i: int| v[i].1)
}

fn split_values(v: &Vec<(String, Double)>) -> (r: (Vec<Vec<u16>>, Vec<Double>))
    ensures
        all_units(r.0@) == all_wide(value_names(v@)),
        r.1@ == bare_values(v@),
{
    let mut names: Vec<Vec<u16>> = Vec::new();
    let mut values: Vec<Double> = Vec::new();
    let mut i: usize = 0;
    while i < v.len()
        invariant
            i <= v@.len(),
            names@.len() == i,
            values@.len() == i,
            forall|j: int| 0 <= j < i ==> (#[trigger] names@[j])@ == wide(v@[j].0@),
            forall|j: int| 0 <= j < i ==> #[trigger] values@[j] == v@[j].1,
        decreases v.len() - i,
    {
        names.push(to_wide(v[i].0.as_str()));
        values.push(v[i].1);
        i += 1;
    }
    assert(all_units(names@) =~= all_wide(value_names(v@)));
    assert(values@ =~= bare_values(v@));
    (names, values)
}

impl HandOver for DaqPollData {
    type Wide = ProfilerDaqPollData;

    open spec fn handed(&self, w: &ProfilerDaqPollData) -> bool {
        &&& w.timestamp_ms == self.timestamp_ms
        &&& w.power_values@ == bare_values(self.power_pairs@)
        &&& all_units(w.power_names@) == all_wide(value_names(self.power_pairs@))
        &&& w.channel_values@ == bare_values(self.channel_values@)
        &&& all_units(w.channel_names@) == all_wide(value_names(self.channel_values@))
    }

    fn hand_over(&self) -> (w: ProfilerDaqPollData) {
        let (power_names, power_values) = split_values(&self.power_pairs);
        let (channel_names, channel_values) = split_values(&self.channel_values);
        ProfilerDaqPollData {
            timestamp_ms: self.timestamp_ms,
            power_values,
            power_names,
            channel_values,
            channel_names,
        }
    }
}

/// A color as one number: red, green and blue from the highest byte down.
pub open spec fn color_number(r: u8, g: u8, b: u8) -> u32 {
    (r * 0x1_0000 + g * 0x100 + b) as u32
}

fn packed_color(r: u8, g: u8, b: u8) -> (n: u32)
    ensures
        n == color_number(r, g, b),
{
    assert(((r as u32) << 16) | ((g as u32) << 8) | (b as u32) == (r as u32) * 0x1_0000 + (
    g as u32) * 0x100 + (b as u32)) by (bit_vector);
    ((r as u32) << 16) | ((g as u32) << 8) | (b as u32)
}

/// No two colors have the same number.
pub proof fn law_colors_are_told_apart(r1: u8, g1: u8, b1: u8, r2: u8, g2: u8, b2: u8)
    ensures
        color_number(r1, g1, b1) == color_number(r2, g2, b2) ==> r1 == r2 && g1 == g2 && b1 == b2,
{
}

impl HandOver for DaqChannelSummary {
    type Wide = ProfilerDaqChannelStats;

    open spec fn handed(&self, w: &ProfilerDaqChannelStats) -> bool {
        &&& w.name@ == wide(self.name@)
        &&& w.mean == self.mean
        &&& w.min == self.min
        &&& w.max == self.max
        &&& w.rms == self.rms
        &&& w.color_rgb == color_number(self.color_r, self.color_g, self.color_b)
        &&& w.is_current == flag_value(self.is_current)
        &&& w.pair_index == self.pair_index
    }

    fn hand_over(&self) -> (w: ProfilerDaqChannelStats) {
        ProfilerDaqChannelStats {
            name: to_wide(self.name.as_str()),
            mean: self.mean,
            min: self.min,
            max: self.max,
            rms: self.rms,
            color_rgb: packed_color(self.color_r, self.color_g, self.color_b),
            is_current: if self.is_current {
                1
            } else {
                0
            },
            pair_index: self.pair_index,
        }
    }
}

impl HandOver for DaqPowerPairSummary {
    type Wide = ProfilerDaqPowerBreakdown;

    open spec fn handed(&self, w: &ProfilerDaqPowerBreakdown) -> bool {
        &&& w.name@ == wide(self.name@)
        &&& w.avg_power_mw == self.avg_power_mw
    }

    fn hand_over(&self) -> (w: ProfilerDaqPowerBreakdown) {
        ProfilerDaqPowerBreakdown {
            name: to_wide(self.name.as_str()),
            avg_power_mw: self.avg_power_mw,
        }
    }
}

impl HandOver for DaqSummary {
    type Wide = ProfilerDaqSummary;

    open spec fn handed(&self, w: &ProfilerDaqSummary) -> bool {
        &&& all_handed(self.channels@, w.channels@)
        &&& all_handed(self.power_breakdown@, w.power_breakdown@)
        &&& w.total_power_mw == self.total_power_mw
        &&& w.measurement_time_s == self.measurement_time_s
    }

    fn hand_over(&self) -> (w: ProfilerDaqSummary) {
        ProfilerDaqSummary {
            channels: hand_over_all(&self.channels),
            power_breakdown: hand_over_all(&self.power_breakdown),
            total_power_mw: self.total_power_mw,
            measurement_time_s: self.measurement_time_s,
        }
    }
}

/// Forgets a measurement, and hands it back to be stopped.
pub fn profiler_daq_stop<H>(state: &mut DaqState<H>, handle: u64, summary_given: bool) -> (r:
    Result<H, Verdict<String>>)
    requires
        old(state).wf(),
    ensures
        final(state).wf(),
        final(state).configs == old(state).configs,
        if !summary_given {
            &&& r is Err
            &&& r->Err_0@ == refused(ProfilerResult::InvalidParameter, None)
            &&& *final(state) == *old(state)
        } else {
            &&& final(state).streams@ == old(state).streams@.remove(handle)
            &&& final(state).streams.next_id() == old(state).streams.next_id()
            &&& if old(state).streams@.contains_key(handle) {
                r is Ok && r->Ok_0 == old(state).streams@[handle]
            } else {
                r is Err && r->Err_0@ == refused(
                    ProfilerResult::InvalidParameter,
                    Some("Invalid DAQ handle"@),
                )
            }
        },
{
    if !summary_given {
        return Err(refuse(None));
    }
    match state.streams.remove(handle) {
        Some(h) => Ok(h),
        None => Err(refuse(Some("Invalid DAQ handle"))),
    }
}

/// What a measurement that was stopped comes to, and what is handed over for
/// it.
pub fn daq_stop_outcome(stopped: Result<DaqSummary, String>) -> (r: (
    Verdict<String>,
    Option<ProfilerDaqSummary>,
))
    ensures
        match stopped {
            Ok(s) => r.0@ == went_well() && r.1 is Some && s.handed(&r.1->Some_0),
            Err(e) => r.0@ == went_wrong(Some("DAQ stop failed: "@ + e@)) && r.1 is None,
        },
{
    match stopped {
        Ok(s) => (well(), Some(s.hand_over())),
        Err(e) => (wrong(concat2("DAQ stop failed: ", e.as_str())), None),
    }
}

} // verus!
