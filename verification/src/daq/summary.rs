//! What a measurement gives: values while it runs, and a summary at its end.
use vstd::prelude::*;
use crate::daq::streaming::{ChannelMeta, PairPlan, pair_place, signed_index};
use crate::double::Double;

verus! {

/// The values of one moment of a measurement.
#[derive(Debug, Clone)]
pub struct DaqPollData {
    pub timestamp_ms: u64,
    /// The power of each pair in milliwatts, under the pair's name.
    pub power_pairs: Vec<(String, Double)>,
    /// The mean value of each channel, under the channel's name.
    pub channel_values: Vec<(String, Double)>,
}

/// What a channel measured.
#[derive(Debug, Clone)]
pub struct DaqChannelSummary {
    pub name: String,
    pub mean: Double,
    pub min: Double,
    pub max: Double,
    pub rms: Double,
    pub color_r: u8,
    pub color_g: u8,
    pub color_b: u8,
    pub is_current: bool,
    pub pair_index: i32,
}

/// The power of a pair.
#[derive(Debug, Clone)]
pub struct DaqPowerPairSummary {
    pub name: String,
    pub avg_power_mw: Double,
}

/// What a measurement gave.
#[derive(Debug, Clone)]
pub struct DaqSummary {
    pub channels: Vec<DaqChannelSummary>,
    pub power_breakdown: Vec<DaqPowerPairSummary>,
    pub total_power_mw: Double,
    pub measurement_time_s: Double,
}

/// Whether values stand under the names of channels.
pub open spec fn under_channels(
    metas: Seq<ChannelMeta<String>>,
    values: Seq<Double>,
    r: Seq<(String, Double)>,
) -> bool {
    &&& r.len() == metas.len()
    &&& forall|i: int|
        0 <= i < r.len() ==> (#[trigger] r[i]).0@ == metas[i].name@ && r[i].1 == values[i]
}

/// Whether values stand under the names of pairs.
pub open spec fn under_pairs(
    pairs: Seq<PairPlan>,
    values: Seq<Double>,
    r: Seq<(String, Double)>,
) -> bool {
    &&& r.len() == pairs.len()
    &&& forall|i: int|
        0 <= i < r.len() ==> (#[trigger] r[i]).0@ == pairs[i].name@ && r[i].1 == values[i]
}

/// The values of one moment: the mean of each channel, and the power of each
/// pair.
pub fn poll_data(
    timestamp_ms: u64,
    metas: &Vec<ChannelMeta<String>>,
    means: &Vec<Double>,
    pairs: &Vec<PairPlan>,
    powers: &Vec<Double>,
) -> (d: DaqPollData)
    requires
        means@.len() == metas@.len(),
        powers@.len() == pairs@.len(),
    ensures
        d.timestamp_ms == timestamp_ms,
        under_channels(metas@, means@, d.channel_values@),
        under_pairs(pairs@, powers@, d.power_pairs@),
{
    let mut channel_values: Vec<(String, Double)> = Vec::new();
    let mut i: usize = 0;
    while i < metas.len()
        invariant
            means@.len() == metas@.len(),
            i <= metas@.len(),
            channel_values@.len() == i,
            forall|j: int|
                0 <= j < i ==> (#[trigger] channel_values@[j]).0@ == metas@[j].name@
                    && channel_values@[j].1 == means@[j],
        decreases metas.len() - i,
    {
        channel_values.push((metas[i].name.clone(), means[i]));
        i += 1;
    }
    let mut power_pairs: Vec<(String, Double)> = Vec::new();
    let mut k: usize = 0;
    while k < pairs.len()
        invariant
            powers@.len() == pairs@.len(),
            k <= pairs@.len(),
            power_pairs@.len() == k,
            forall|j: int|
                0 <= j < k ==> (#[trigger] power_pairs@[j]).0@ == pairs@[j].name@
                    && power_pairs@[j].1 == powers@[j],
        decreases pairs.len() - k,
    {
        power_pairs.push((pairs[k].name.clone(), powers[k]));
        k += 1;
    }
    DaqPollData { timestamp_ms, power_pairs, channel_values }
}

/// What the samples of a channel come to.
#[derive(Debug, Clone, Copy)]
pub struct ChannelStats {
    pub mean: Double,
    pub min: Double,
    pub max: Double,
    pub rms: Double,
}

/// Whether `r` says what a channel measured.
pub open spec fn summarizes(
    meta: ChannelMeta<String>,
    stats: ChannelStats,
    r: DaqChannelSummary,
) -> bool {
    &&& r.name@ == meta.name@
    &&& r.mean == stats.mean
    &&& r.min == stats.min
    &&& r.max == stats.max
    &&& r.rms == stats.rms
    &&& r.color_r == meta.color.r
    &&& r.color_g == meta.color.g
    &&& r.color_b == meta.color.b
    &&& match meta.power_pair {
        Some(p) => r.is_current == p.1 && r.pair_index == signed_index(p.0),
        None => !r.is_current && r.pair_index == -1,
    }
}

fn summarize_channel(meta: &ChannelMeta<String>, stats: ChannelStats) -> (r: DaqChannelSummary)
    ensures
        summarizes(*meta, stats, r),
{
    let (is_current, pair_index) = pair_place(meta);
    DaqChannelSummary {
        name: meta.name.clone(),
        mean: stats.mean,
        min: stats.min,
        max: stats.max,
        rms: stats.rms,
        color_r: meta.color.r,
        color_g: meta.color.g,
        color_b: meta.color.b,
        is_current,
        pair_index,
    }
}

/// What a measurement gave: each channel in order, and each complete pair.
pub fn summarize(
    metas: &Vec<ChannelMeta<String>>,
    stats: &Vec<ChannelStats>,
    pairs: &Vec<PairPlan>,
    powers: &Vec<Double>,
    total_power_mw: Double,
    measurement_time_s: Double,
) -> (s: DaqSummary)
    requires
        stats@.len() == metas@.len(),
        powers@.len() == pairs@.len(),
    ensures
        s.channels@.len() == metas@.len(),
        forall|i: int|
            0 <= i < metas@.len() ==> summarizes(metas@[i], stats@[i], #[trigger] s.channels@[i]),
        s.power_breakdown@.len() == pairs@.len(),
        forall|i: int|
            0 <= i < pairs@.len() ==> (#[trigger] s.power_breakdown@[i]).name@ == pairs@[i].name@
                && s.power_breakdown@[i].avg_power_mw == powers@[i],
        s.total_power_mw == total_power_mw,
        s.measurement_time_s == measurement_time_s,
{
    let mut channels: Vec<DaqChannelSummary> = Vec::new();
    let mut i: usize = 0;
    while i < metas.len()
        invariant
            stats@.len() == metas@.len(),
            i <= metas@.len(),
            channels@.len() == i,
            forall|j: int|
                0 <= j < i ==> summarizes(metas@[j], stats@[j], #[trigger] channels@[j]),
        decreases metas.len() - i,
    {
        channels.push(summarize_channel(&metas[i], stats[i]));
        i += 1;
    }
    let mut power_breakdown: Vec<DaqPowerPairSummary> = Vec::new();
    let mut k: usize = 0;
    while k < pairs.len()
        invariant
            powers@.len() == pairs@.len(),
            k <= pairs@.len(),
            power_breakdown@.len() == k,
            forall|j: int|
                0 <= j < k ==> (#[trigger] power_breakdown@[j]).name@ == pairs@[j].name@
                    && power_breakdown@[j].avg_power_mw == powers@[j],
        decreases pairs.len() - k,
    {
        power_breakdown.push(
            DaqPowerPairSummary { name: pairs[k].name.clone(), avg_power_mw: powers[k] },
        );
        k += 1;
    }
    DaqSummary { channels, power_breakdown, total_power_mw, measurement_time_s }
}

} // verus!
