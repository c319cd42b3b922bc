//! What callers in other languages are told of measurements.
use vstd::prelude::*;
use crate::daq::config::{ChannelConfig, DaqConfig, PowerPair};
use crate::daq::device::DeviceInfo;
use crate::daq::summary::{DaqChannelSummary, DaqPollData, DaqPowerPairSummary, DaqSummary};
use crate::ffi::daq::{
    DaqListing, channel_names, channel_of, color_number, kept, listing_handed, pair_title,
    pair_titles,
};
use crate::ffi::outcome::Verdict;
use crate::ffi::record_laws::{lemma_reads, reads};
use crate::ffi::records::HandOver;
use crate::ffi::types::{
    ProfilerDaqChannelStats, ProfilerDaqDevice, ProfilerDaqDeviceList, ProfilerDaqPollData,
    ProfilerDaqPowerBreakdown, ProfilerDaqSummary, ProfilerResult,
};
use crate::runtime::HandleTable;
use crate::wide::all_units;

verus! {

/// What a caller reads of a device for measurements.
pub proof fn law_measuring_device_is_handed_over(m: DeviceInfo, w: ProfilerDaqDevice)
    requires
        m.handed(&w),
    ensures
        reads(w.name@, m.name@),
        reads(w.product_type@, m.product_type@),
        w.serial_number == m.serial_number,
        m.ai_channels@.len() <= u32::MAX ==> w.ai_channel_count == m.ai_channels@.len(),
{
    lemma_reads(m.name@);
    lemma_reads(m.product_type@);
}

/// Devices that were found are handed over in their order. That there are none
/// is a success with an empty list. Where the driver is not there, its error is
/// remembered and no list is handed over; where it failed, that is remembered,
/// and the list is empty.
pub proof fn law_listings_come_to_their_results(
    listing: DaqListing,
    r: (Verdict<String>, Option<ProfilerDaqDeviceList>),
    i: int,
)
    requires
        listing_handed(listing, r),
    ensures
        !r.0.drop_connection,
        listing is NoDriver ==> r.0.result == ProfilerResult::OperationFailed && r.1 is None,
        listing matches DaqListing::NoDriver(e) ==> r.0.last_error is Some
            && r.0.last_error->Some_0@ == e@.words(),
        listing matches DaqListing::Listed(Ok(d)) ==> {
            &&& r.0.result == ProfilerResult::Success
            &&& r.0.last_error is None
            &&& r.1 is Some
            &&& r.1->Some_0.devices@.len() == d@.len()
            &&& 0 <= i < d@.len() ==> d@[i].handed(&r.1->Some_0.devices@[i])
        },
        listing matches DaqListing::Listed(Err(e)) ==> {
            &&& r.1 is Some
            &&& r.1->Some_0.devices@.len() == 0
            &&& e is NoDevices ==> r.0.result == ProfilerResult::Success && r.0.last_error is None
            &&& !(e is NoDevices) ==> r.0.result == ProfilerResult::OperationFailed
                && r.0.last_error is Some && r.0.last_error->Some_0@
                == "Device enumeration failed: "@ + e@.words()
        },
{
    assert(r.0@.result == r.0.result);
    assert(r.0@.drop_connection == r.0.drop_connection);
    assert(r.0@.last_error is Some <==> r.0.last_error is Some);
}

/// What was made is kept under a number that was not handed out before, which
/// the caller is told; what could not be made is not kept, and the reason is
/// remembered.
pub proof fn law_what_was_made_is_kept_under_a_new_number<T>(
    before: HandleTable<T>,
    after: HandleTable<T>,
    made: Result<T, String>,
    prefix: Seq<char>,
    r: (Verdict<String>, Option<u64>),
    other: u64,
)
    requires
        before.wf(),
        kept(before, after, made, prefix, r),
    ensures
        made is Ok ==> {
            &&& r.0.result == ProfilerResult::Success
            &&& r.1 is Some
            &&& !before@.contains_key(r.1->Some_0)
            &&& after@.contains_key(r.1->Some_0)
            &&& after@[r.1->Some_0] == made->Ok_0
            &&& after.next_id() > r.1->Some_0
            &&& after.wf()
            &&& before.next_id() == r.1->Some_0
            &&& after.next_id() == before.next_id() + 1
            &&& other != r.1->Some_0 ==> after@.contains_key(other) == before@.contains_key(other)
        },
        made is Err ==> {
            &&& r.0.result == ProfilerResult::OperationFailed
            &&& r.0.last_error is Some
            &&& r.0.last_error->Some_0@ == prefix + made->Err_0@
            &&& r.1 is None
            &&& after == before
        },
{
    assert(r.0@.result == r.0.result);
    assert(r.0@.last_error is Some <==> r.0.last_error is Some);
}

proof fn lemma_channel_of(channels: Seq<ChannelConfig<Seq<char>>>, channel: Seq<char>, i: int)
    requires
        0 <= i,
    ensures
        match channel_of(channels, channel, i) {
            Some(k) => {
                &&& i <= k < channels.len()
                &&& channels[k].physical_channel == channel || channels[k].name == channel
                &&& forall|j: int|
                    i <= j < k ==> (#[trigger] channels[j]).physical_channel != channel
                        && channels[j].name != channel
            },
            None => forall|j: int|
                i <= j < channels.len() ==> (#[trigger] channels[j]).physical_channel != channel
                    && channels[j].name != channel,
        },
    decreases channels.len() - i,
{
    if i < channels.len() && channels[i].physical_channel != channel && channels[i].name
        != channel {
        lemma_channel_of(channels, channel, i + 1);
    }
}

/// A pair is called by the name of the first channel that is connected where
/// its voltage is measured, or that has that name; where there is none, by
/// what it says itself.
pub proof fn law_pairs_are_called_by_their_voltage_channel(
    channels: Seq<ChannelConfig<Seq<char>>>,
    pair: PowerPair<Seq<char>>,
    k: int,
)
    ensures
        0 <= k < channels.len() && (channels[k].physical_channel == pair.voltage_channel
            || channels[k].name == pair.voltage_channel) && (forall|j: int|
            0 <= j < k ==> (#[trigger] channels[j]).physical_channel != pair.voltage_channel
                && channels[j].name != pair.voltage_channel) ==> pair_title(channels, pair)
            == channels[k].name,
        (forall|j: int|
            0 <= j < channels.len() ==> (#[trigger] channels[j]).physical_channel
                != pair.voltage_channel && channels[j].name != pair.voltage_channel) ==> pair_title(
            channels,
            pair,
        ) == pair.voltage_channel,
{
    lemma_channel_of(channels, pair.voltage_channel, 0);
    if let Some(i) = channel_of(channels, pair.voltage_channel, 0) {
        let one = channels[i];
        if 0 <= k < channels.len() && i != k {
            let two = channels[k];
        }
    }
}

/// A configuration's names are those of its channels and pairs, in order.
pub proof fn law_configurations_name_their_channels(config: DaqConfig, i: int)
    ensures
        channel_names(config).len() == config.channels@.len(),
        0 <= i < config.channels@.len() ==> channel_names(config)[i] == config.channels@[i].name@,
        pair_titles(config).len() == config.power_pairs@.len(),
{
}

/// What a caller reads of one moment of a measurement: the names and the
/// values of the pairs, and those of the channels, each in their order.
pub proof fn law_moment_is_handed_over(m: DaqPollData, w: ProfilerDaqPollData, i: int)
    requires
        m.handed(&w),
    ensures
        w.timestamp_ms == m.timestamp_ms,
        w.power_names@.len() == m.power_pairs@.len(),
        w.power_values@.len() == m.power_pairs@.len(),
        0 <= i < m.power_pairs@.len() ==> reads(w.power_names@[i]@, m.power_pairs@[i].0@),
        0 <= i < m.power_pairs@.len() ==> w.power_values@[i] == m.power_pairs@[i].1,
        w.channel_names@.len() == m.channel_values@.len(),
        w.channel_values@.len() == m.channel_values@.len(),
        0 <= i < m.channel_values@.len() ==> reads(w.channel_names@[i]@, m.channel_values@[i].0@),
        0 <= i < m.channel_values@.len() ==> w.channel_values@[i] == m.channel_values@[i].1,
{
    assert(all_units(w.power_names@).len() == w.power_names@.len());
    assert(all_units(w.channel_names@).len() == w.channel_names@.len());
    if 0 <= i < m.power_pairs@.len() {
        assert(all_units(w.power_names@)[i] == w.power_names@[i]@);
        lemma_reads(m.power_pairs@[i].0@);
    }
    if 0 <= i < m.channel_values@.len() {
        assert(all_units(w.channel_names@)[i] == w.channel_names@[i]@);
        lemma_reads(m.channel_values@[i].0@);
    }
}

/// What a caller reads of what a channel measured. Its color has red in the
/// highest of its three bytes and blue in the lowest.
pub proof fn law_channel_is_handed_over(m: DaqChannelSummary, w: ProfilerDaqChannelStats)
    requires
        m.handed(&w),
    ensures
        reads(w.name@, m.name@),
        w.mean == m.mean,
        w.min == m.min,
        w.max == m.max,
        w.rms == m.rms,
        w.color_rgb / 0x1_0000 == m.color_r,
        w.color_rgb / 0x100 % 0x100 == m.color_g,
        w.color_rgb % 0x100 == m.color_b,
        m.is_current ==> w.is_current == 1,
        !m.is_current ==> w.is_current == 0,
        w.pair_index == m.pair_index,
{
    lemma_reads(m.name@);
    assert(color_number(m.color_r, m.color_g, m.color_b) == m.color_r * 0x1_0000 + m.color_g * 0x100
        + m.color_b);
}

/// What a caller reads of what a measurement gave as a whole.
pub proof fn law_measurement_is_handed_over(m: DaqSummary, w: ProfilerDaqSummary, i: int)
    requires
        m.handed(&w),
    ensures
        w.channels@.len() == m.channels@.len(),
        0 <= i < m.channels@.len() ==> m.channels@[i].handed(&w.channels@[i]),
        w.power_breakdown@.len() == m.power_breakdown@.len(),
        0 <= i < m.power_breakdown@.len() ==> m.power_breakdown@[i].handed(
            &w.power_breakdown@[i],
        ),
        w.total_power_mw == m.total_power_mw,
        w.measurement_time_s == m.measurement_time_s,
{
}

/// What a caller reads of the power of a pair.
pub proof fn law_power_is_handed_over(m: DaqPowerPairSummary, w: ProfilerDaqPowerBreakdown)
    requires
        m.handed(&w),
    ensures
        reads(w.name@, m.name@),
        w.avg_power_mw == m.avg_power_mw,
{
    lemma_reads(m.name@);
}

} // verus!
