//! What a measurement takes: which inputs it reads, what it remembers of
//! them, and how its samples are put together.
use vstd::prelude::*;
use crate::daq::avro_writer::records_of;
use crate::daq::config::{
    ChannelConfig, DaqConfig, PowerPair, Rgb, channel_views, hex2, pair_of, pair_views, save_name,
};
use crate::daq::device::{DeviceInfo, buffer_text, text_end};
use crate::daq::reader::{all_columns, channel_part, chunk_of, columns, holds_data, longest};
use crate::daq::streaming::{
    ChannelMeta, PairPlan, SessionStep, all_metas, behind_ai, complete, device_channels,
    device_plan, device_plans, input_list, input_metas, input_number, last_in_pair, last_occurrence,
    named, on_device, plans_all_pairs, plans_pair, range_read, setup_steps, signed_index,
    terminal_number, timed, usable,
};
use crate::daq::summary::{ChannelStats, DaqChannelSummary, summarizes, under_channels, under_pairs};
use crate::double::Double;
use crate::number::{
    decimal, decimal_signed, digit, law_decimal_reads_back, lemma_decimal_signed_chars,
};
use crate::text::{lossy_text, occurs_at, replaced, texts};

verus! {

// ---------------------------------------------------------------------------
// Inputs
// ---------------------------------------------------------------------------

/// Where a channel is connected, by the text of the place before the `ai` and
/// the number behind it.
pub open spec fn place(prefix: Seq<char>, number: u32) -> Seq<char> {
    prefix + seq!['a', 'i'] + decimal(number as nat)
}

proof fn lemma_number_behind_ai(prefix: Seq<char>, number: u32)
    ensures
        input_number(place(prefix, number)) == number,
{
    let s = place(prefix, number);
    let d = decimal(number as nat);
    reveal_strlit("ai");
    assert("ai"@ =~= seq!['a', 'i']);
    lemma_decimal_signed_chars(number as int);
    assert(d == decimal_signed(number as int));
    assert(occurs_at(s, "ai"@, prefix.len() as int)) by {
        assert(s.subrange(prefix.len() as int, prefix.len() as int + 2) =~= seq!['a', 'i']);
    }
    assert forall|k: int| prefix.len() < k <= s.len() implies !occurs_at(s, "ai"@, k) by {
        if occurs_at(s, "ai"@, k) {
            assert(s.subrange(k, k + 2)[0] == s[k]);
            if k == prefix.len() + 1 {
                assert(s[k] == 'i');
            } else {
                assert(s[k] == d[k - prefix.len() - 2]);
                assert(digit(d[k - prefix.len() - 2]) || d[k - prefix.len() - 2] == '-');
            }
        }
    }
    lemma_last_occurrence(s, "ai"@, prefix.len() as int, s.len() as int);
    assert(behind_ai(s) =~= d);
    law_decimal_reads_back(number as int, 0, u32::MAX as int);
}

proof fn lemma_last_occurrence(s: Seq<char>, key: Seq<char>, at: int, i: int)
    requires
        0 <= at <= i,
        occurs_at(s, key, at),
        forall|k: int| at < k <= i ==> !occurs_at(s, key, k),
    ensures
        last_occurrence(s, key, i) == at,
    decreases i,
{
    if i > at {
        lemma_last_occurrence(s, key, at, i - 1);
    }
}

/// Whether a text begins with another, or is one of a list of texts.
pub open spec fn belongs(physical: Seq<char>, dev: DeviceInfo) -> bool {
    ||| dev.name@.len() <= physical.len() && physical.take(dev.name@.len() as int) == dev.name@
    ||| exists|k: int| 0 <= k < dev.ai_channels@.len() && (#[trigger] dev.ai_channels@[k])@
        == physical
}

proof fn lemma_on_device(ch: ChannelConfig<Seq<char>>, dev: DeviceInfo)
    ensures
        on_device(ch, dev) == belongs(ch.physical_channel, dev),
{
    let p = ch.physical_channel;
    if dev.name@.len() <= p.len() {
        assert(p.subrange(0, dev.name@.len() as int) =~= p.take(dev.name@.len() as int));
    }
    let t = texts(dev.ai_channels@);
    if t.contains(p) {
        let k = choose|k: int| 0 <= k < t.len() && t[k] == p;
        assert(dev.ai_channels@[k]@ == p);
    }
    if exists|k: int| 0 <= k < dev.ai_channels@.len() && (#[trigger] dev.ai_channels@[k])@ == p {
        let k = choose|k: int|
            0 <= k < dev.ai_channels@.len() && (#[trigger] dev.ai_channels@[k])@ == p;
        assert(t[k] == p);
    }
}

/// Whether a list holds an entry for position `i`.
pub open spec fn lists(v: Seq<(usize, Seq<char>)>, i: int) -> bool {
    exists|k: int| 0 <= k < v.len() && (#[trigger] v[k]).0 == i
}

proof fn lemma_device_channels(
    channels: Seq<ChannelConfig<Seq<char>>>,
    dev: DeviceInfo,
    n: int,
)
    requires
        0 <= n <= channels.len(),
        channels.len() <= usize::MAX,
    ensures
        forall|k: int|
            0 <= k < device_channels(channels, dev, n).len() ==> (#[trigger] device_channels(
                channels,
                dev,
                n,
            )[k]) < n && on_device(channels[device_channels(channels, dev, n)[k] as int], dev),
        forall|j: int, k: int|
            0 <= j < k < device_channels(channels, dev, n).len() ==> #[trigger] device_channels(
                channels,
                dev,
                n,
            )[j] < #[trigger] device_channels(channels, dev, n)[k],
        forall|i: int|
            0 <= i < n && on_device(#[trigger] channels[i], dev) ==> device_channels(
                channels,
                dev,
                n,
            ).contains(i as usize),
    decreases n,
{
    if n > 0 {
        lemma_device_channels(channels, dev, n - 1);
        let before = device_channels(channels, dev, n - 1);
        let now = device_channels(channels, dev, n);
        assert forall|k: int| 0 <= k < now.len() implies (#[trigger] now[k]) < n && on_device(
            channels[now[k] as int],
            dev,
        ) by {
            if k < before.len() {
                assert(now[k] == before[k]);
            }
        }
        assert forall|j: int, k: int| 0 <= j < k < now.len() implies #[trigger] now[j]
            < #[trigger] now[k] by {
            assert(now[j] == before[j]);
            if k < before.len() {
                assert(now[k] == before[k]);
            }
        }
        assert forall|i: int|
            0 <= i < n && on_device(#[trigger] channels[i], dev) implies now.contains(
            i as usize,
        ) by {
            if i < n - 1 {
                let k = choose|k: int| 0 <= k < before.len() && before[k] == i as usize;
                assert(now[k] == i as usize);
            } else {
                assert(now.last() == i as usize);
            }
        }
    }
}

proof fn lemma_input_list(
    channels: Seq<ChannelConfig<Seq<char>>>,
    scales: Seq<(usize, Seq<char>)>,
    diff: bool,
)
    ensures
        forall|k: int|
            0 <= k < input_list(channels, scales, diff).len() ==> scales.contains(
                #[trigger] input_list(channels, scales, diff)[k],
            ) && usable(
                channels[input_list(channels, scales, diff)[k].0 as int].physical_channel,
                diff,
            ),
        forall|j: int|
            0 <= j < scales.len() && usable(
                channels[(#[trigger] scales[j]).0 as int].physical_channel,
                diff,
            ) ==> input_list(channels, scales, diff).contains(scales[j]),
        (forall|j: int, k: int|
            0 <= j < k < scales.len() ==> (#[trigger] scales[j]).0 < (#[trigger] scales[k]).0) ==> (
        forall|j: int, k: int|
            0 <= j < k < input_list(channels, scales, diff).len() ==> (#[trigger] input_list(
                channels,
                scales,
                diff,
            )[j]).0 < (#[trigger] input_list(channels, scales, diff)[k]).0),
    decreases scales.len(),
{
    if scales.len() > 0 {
        let init = scales.drop_last();
        lemma_input_list(channels, init, diff);
        let before = input_list(channels, init, diff);
        let now = input_list(channels, scales, diff);
        assert forall|k: int| 0 <= k < now.len() implies scales.contains(#[trigger] now[k])
            && usable(channels[now[k].0 as int].physical_channel, diff) by {
            if k < before.len() {
                assert(now[k] == before[k]);
                let j = choose|j: int| 0 <= j < init.len() && init[j] == before[k];
                assert(scales[j] == now[k]);
            } else {
                assert(scales[scales.len() - 1] == now[k]);
            }
        }
        assert forall|j: int|
            0 <= j < scales.len() && usable(
                channels[(#[trigger] scales[j]).0 as int].physical_channel,
                diff,
            ) implies now.contains(scales[j]) by {
            if j < init.len() {
                assert(init[j] == scales[j]);
                let k = choose|k: int| 0 <= k < before.len() && before[k] == scales[j];
                assert(now[k] == scales[j]);
            } else {
                assert(now.last() == scales[j]);
            }
        }
        if forall|j: int, k: int|
            0 <= j < k < scales.len() ==> (#[trigger] scales[j]).0 < (#[trigger] scales[k]).0 {
            assert forall|j: int, k: int| 0 <= j < k < init.len() implies (#[trigger] init[j]).0
                < (#[trigger] init[k]).0 by {
                assert(init[j] == scales[j] && init[k] == scales[k]);
            }
            assert forall|j: int, k: int| 0 <= j < k < now.len() implies (#[trigger] now[j]).0
                < (#[trigger] now[k]).0 by {
                assert(now[j] == before[j]);
                if k < before.len() {
                    assert(now[k] == before[k]);
                } else {
                    let i = choose|i: int| 0 <= i < init.len() && init[i] == before[j];
                    assert(scales[i] == now[j]);
                    assert(scales[scales.len() - 1] == now[k]);
                }
            }
        }
    }
}

/// What a device measures, by the number in the text of each place: in
/// differential mode, of each sixteen inputs the lower eight are read and the
/// upper eight are not; in single-ended mode every channel on the device is
/// read. A channel that is not on the device is not. Every channel on the
/// device has a scale, and both lists keep the order of the channels.
pub proof fn law_inputs_go_by_their_numbers(
    config: DaqConfig,
    dev: DeviceInfo,
    device: usize,
    terminal_diff: bool,
    i: int,
    prefix: Seq<char>,
    number: u32,
)
    requires
        0 <= i < config.channels@.len(),
        config.channels@.len() <= usize::MAX,
        config.channels@[i].physical_channel@ == place(prefix, number),
    ensures
        ({
            let p = device_plan(config, dev, device, terminal_diff);
            let here = belongs(place(prefix, number), dev);
            &&& lists(p.scales, i) <==> here
            &&& lists(p.inputs, i) <==> here && (!terminal_diff || number % 16 < 8)
            &&& forall|j: int, k: int|
                0 <= j < k < p.scales.len() ==> (#[trigger] p.scales[j]).0
                    < (#[trigger] p.scales[k]).0
            &&& forall|j: int, k: int|
                0 <= j < k < p.inputs.len() ==> (#[trigger] p.inputs[j]).0
                    < (#[trigger] p.inputs[k]).0
            &&& p.device == device
            &&& p.task_name == "mprofiler_"@ + dev.name@
        }),
{
    let channels = channel_views(config.channels@);
    let p = device_plan(config, dev, device, terminal_diff);
    let chosen = device_channels(channels, dev, channels.len() as int);
    assert(channels[i] == config.channels@[i]@);
    lemma_number_behind_ai(prefix, number);
    lemma_on_device(channels[i], dev);
    lemma_device_channels(channels, dev, channels.len() as int);
    lemma_input_list(channels, p.scales, terminal_diff);
    assert(p.scales.len() == chosen.len());
    assert forall|k: int| 0 <= k < chosen.len() implies (#[trigger] p.scales[k]).0
        == chosen[k] by {}
    if on_device(channels[i], dev) {
        let k = choose|k: int| 0 <= k < chosen.len() && chosen[k] == i as usize;
        assert(p.scales[k].0 == i);
        if usable(channels[i].physical_channel, terminal_diff) {
            let j = choose|j: int| 0 <= j < p.inputs.len() && p.inputs[j] == p.scales[k];
            assert(p.inputs[j].0 == i);
        }
    }
    if lists(p.scales, i) {
        let k = choose|k: int| 0 <= k < p.scales.len() && (#[trigger] p.scales[k]).0 == i;
        assert(chosen[k] == i);
    }
    if lists(p.inputs, i) {
        let j = choose|j: int| 0 <= j < p.inputs.len() && (#[trigger] p.inputs[j]).0 == i;
        assert(p.scales.contains(p.inputs[j]));
        let k = choose|k: int| 0 <= k < p.scales.len() && p.scales[k] == p.inputs[j];
        assert(p.scales[k].0 == i);
    }
}

/// What is remembered of an input is its channel's name and color, and the
/// place that the power pairs give the channel; a scale bears the name under
/// which its channel is saved.
pub proof fn law_inputs_are_remembered_in_order(
    config: DaqConfig,
    dev: DeviceInfo,
    device: usize,
    terminal_diff: bool,
    k: int,
)
    requires
        config.channels@.len() <= usize::MAX,
        0 <= k < device_plan(config, dev, device, terminal_diff).inputs.len(),
    ensures
        ({
            let p = device_plan(config, dev, device, terminal_diff);
            let metas = input_metas(config, p.inputs);
            let at = p.inputs[k].0 as int;
            let pair = pair_of(pair_views(config.power_pairs@), config.channels@[at]@, 0);
            &&& metas.len() == p.inputs.len()
            &&& 0 <= at < config.channels@.len()
            &&& metas[k].name == config.channels@[at].name@
            &&& metas[k].color == config.channels@[at].color
            &&& metas[k].power_pair == pair
            &&& p.inputs[k].1 == save_name(
                config.channels@[at].physical_channel@,
                config.channels@[at].name@,
                config.channels@[at].color,
                pair,
            )
        }),
{
    let channels = channel_views(config.channels@);
    let p = device_plan(config, dev, device, terminal_diff);
    lemma_device_channels(channels, dev, channels.len() as int);
    lemma_input_list(channels, p.scales, terminal_diff);
    let chosen = device_channels(channels, dev, channels.len() as int);
    assert(p.scales.contains(p.inputs[k]));
    let j = choose|j: int| 0 <= j < p.scales.len() && p.scales[j] == p.inputs[k];
    assert(p.scales[j].0 == chosen[j]);
    let at = p.inputs[k].0 as int;
    assert(channels[at] == config.channels@[at]@);
}

/// The inputs of all devices are remembered device by device, in order: what
/// the devices up to one give comes before what that one gives, and a device
/// without channels does nothing.
pub proof fn law_devices_are_planned_in_order(
    config: DaqConfig,
    devices: Seq<DeviceInfo>,
    terminal_diff: bool,
    n: int,
)
    requires
        0 < n <= devices.len(),
    ensures
        ({
            let before = device_plans(config, devices, terminal_diff, n - 1);
            let p = device_plan(config, devices[n - 1], (n - 1) as usize, terminal_diff);
            let now = device_plans(config, devices, terminal_diff, n);
            if p.scales.len() == 0 {
                now == before
            } else {
                &&& now == before.push(p)
                &&& all_metas(config, now) == all_metas(config, before) + input_metas(
                    config,
                    p.inputs,
                )
            }
        }),
{
    let before = device_plans(config, devices, terminal_diff, n - 1);
    let p = device_plan(config, devices[n - 1], (n - 1) as usize, terminal_diff);
    assert(before.push(p).drop_last() =~= before);
}

// ---------------------------------------------------------------------------
// Setting up
// ---------------------------------------------------------------------------

/// A device is set up in a fixed order: all scales, then the task, then all
/// inputs, and then, only where there is an input, the timing, the buffer, the
/// callback and the start.
pub proof fn law_setup_has_a_fixed_order(scales: nat, inputs: nat, i: int)
    requires
        scales <= usize::MAX,
        inputs <= usize::MAX,
    ensures
        ({
            let steps = setup_steps(scales, inputs);
            let ready = scales + 1 + inputs as int;
            &&& steps.len() == if inputs == 0 { scales + 1 } else { scales + inputs + 5 }
            &&& 0 <= i < scales ==> steps[i] == SessionStep::Scale(i as usize)
            &&& steps[scales as int] == SessionStep::Task
            &&& 0 <= i < inputs ==> steps[scales + 1 + i] == SessionStep::Channel(i as usize)
            &&& inputs > 0 ==> steps[ready] == SessionStep::Timing
            &&& inputs > 0 ==> steps[ready + 1] == SessionStep::InputBuffer
            &&& inputs > 0 ==> steps[ready + 2] == SessionStep::Callback
            &&& inputs > 0 ==> steps[ready + 3] == SessionStep::Start
        }),
{
}

// ---------------------------------------------------------------------------
// Power pairs
// ---------------------------------------------------------------------------

/// Whether a pair names a channel as its current, by place or by name.
pub open spec fn is_current_of(
    pair: PowerPair<Seq<char>>,
    ch: ChannelConfig<Seq<char>>,
) -> bool {
    pair.current_channel == ch.physical_channel || pair.current_channel == ch.name
}

/// Whether a pair names a channel as its voltage, by place or by name.
pub open spec fn is_voltage_of(
    pair: PowerPair<Seq<char>>,
    ch: ChannelConfig<Seq<char>>,
) -> bool {
    pair.voltage_channel == ch.physical_channel || pair.voltage_channel == ch.name
}

proof fn lemma_pair_of(
    pairs: Seq<PowerPair<Seq<char>>>,
    ch: ChannelConfig<Seq<char>>,
    i: int,
    k: int,
)
    requires
        0 <= i <= k <= pairs.len(),
        forall|j: int|
            i <= j < k ==> !is_current_of(#[trigger] pairs[j], ch) && !is_voltage_of(pairs[j], ch),
    ensures
        pair_of(pairs, ch, i) == pair_of(pairs, ch, k),
    decreases k - i,
{
    if i < k {
        assert(!is_current_of(pairs[i], ch) && !is_voltage_of(pairs[i], ch));
        lemma_pair_of(pairs, ch, i + 1, k);
    }
}

/// A channel belongs to the first power pair that names it: as its current
/// where it is named so, and else as its voltage. A channel that no pair names
/// belongs to none.
pub proof fn law_a_channel_belongs_to_the_first_pair_that_names_it(
    pairs: Seq<PowerPair<Seq<char>>>,
    ch: ChannelConfig<Seq<char>>,
    k: int,
)
    requires
        0 <= k <= pairs.len(),
        forall|j: int|
            0 <= j < k ==> !is_current_of(#[trigger] pairs[j], ch) && !is_voltage_of(pairs[j], ch),
    ensures
        k == pairs.len() ==> pair_of(pairs, ch, 0) is None,
        k < pairs.len() && is_current_of(pairs[k], ch) ==> pair_of(pairs, ch, 0) == Some(
            (pairs[k].index, true),
        ),
        k < pairs.len() && !is_current_of(pairs[k], ch) && is_voltage_of(pairs[k], ch)
            ==> pair_of(pairs, ch, 0) == Some((pairs[k].index, false)),
{
    lemma_pair_of(pairs, ch, 0, k);
}

proof fn lemma_last_in_pair_is_last(
    metas: Seq<ChannelMeta<Seq<char>>>,
    index: u32,
    is_current: bool,
    n: int,
)
    requires
        0 <= n <= metas.len(),
    ensures
        ({
            let k = last_in_pair(metas, index, is_current, n);
            &&& -1 <= k < n
            &&& k >= 0 ==> metas[k].power_pair == Some((index, is_current))
            &&& forall|j: int|
                k < j < n ==> (#[trigger] metas[j]).power_pair != Some((index, is_current))
        }),
    decreases n,
{
    if n > 0 {
        lemma_last_in_pair_is_last(metas, index, is_current, n - 1);
    }
}

/// The power pairs of a measurement, said of the channels themselves: each
/// plan joins the last channel that is the pair's voltage with the last that
/// is its current, and bears the voltage's name, or the current's where that
/// is empty; and there is a plan for every pair that has both.
pub proof fn law_pairs_join_voltage_and_current(
    metas: Seq<ChannelMeta<Seq<char>>>,
    plans: Seq<PairPlan>,
    i: int,
    v: int,
    c: int,
)
    requires
        plans_all_pairs(metas, plans),
    ensures
        0 <= i < plans.len() ==> ({
            let p = plans[i];
            &&& 0 <= p.voltage < metas.len()
            &&& 0 <= p.current < metas.len()
            &&& metas[p.voltage as int].power_pair == Some((p.index, false))
            &&& metas[p.current as int].power_pair == Some((p.index, true))
            &&& forall|j: int|
                p.voltage < j < metas.len() ==> (#[trigger] metas[j]).power_pair != Some(
                    (p.index, false),
                )
            &&& forall|j: int|
                p.current < j < metas.len() ==> (#[trigger] metas[j]).power_pair != Some(
                    (p.index, true),
                )
            &&& p.name@ == if metas[p.voltage as int].name.len() > 0 {
                metas[p.voltage as int].name
            } else {
                metas[p.current as int].name
            }
        }),
        0 <= v < metas.len() && 0 <= c < metas.len() && metas[v].power_pair is Some
            && metas[v].power_pair->Some_0.1 == false && metas[c].power_pair == Some(
            (metas[v].power_pair->Some_0.0, true),
        ) ==> exists|k: int|
            0 <= k < plans.len() && (#[trigger] plans[k]).index == metas[v].power_pair->Some_0.0,
{
    if 0 <= i < plans.len() {
        let p = plans[i];
        assert(plans_pair(metas, p));
        lemma_last_in_pair_is_last(metas, p.index, false, metas.len() as int);
        lemma_last_in_pair_is_last(metas, p.index, true, metas.len() as int);
    }
    if 0 <= v < metas.len() && 0 <= c < metas.len() && metas[v].power_pair is Some
        && metas[v].power_pair->Some_0.1 == false && metas[c].power_pair == Some(
        (metas[v].power_pair->Some_0.0, true),
    ) {
        let index = metas[v].power_pair->Some_0.0;
        lemma_last_in_pair_is_last(metas, index, false, metas.len() as int);
        lemma_last_in_pair_is_last(metas, index, true, metas.len() as int);
        assert(metas[v].power_pair == Some((index, false)));
        assert(complete(metas, index));
    }
}

/// The index of a pair as a signed number is the one with the same low
/// thirty-two bits.
pub proof fn law_signed_indices_keep_their_bits(index: u32)
    ensures
        i32::MIN <= signed_index(index) <= i32::MAX,
        (signed_index(index) - index) % 0x1_0000_0000 == 0,
{
}

/// What a summary says of a channel is the channel's own: its name, its
/// statistics each under its name, its color, and its place in a pair.
pub proof fn law_a_summary_is_the_channels_own(
    meta: ChannelMeta<String>,
    stats: ChannelStats,
    r: DaqChannelSummary,
)
    requires
        summarizes(meta, stats, r),
    ensures
        r.name@ == meta.name@,
        (r.mean, r.min, r.max, r.rms) == (stats.mean, stats.min, stats.max, stats.rms),
        (Rgb { r: r.color_r, g: r.color_g, b: r.color_b }) == meta.color,
        meta.power_pair is None ==> !r.is_current && r.pair_index == -1,
        meta.power_pair matches Some(p) ==> r.is_current == p.1 && (r.pair_index - p.0)
            % 0x1_0000_0000 == 0,
{
    if meta.power_pair is Some {
        law_signed_indices_keep_their_bits(meta.power_pair->Some_0.0);
    }
}

/// While a measurement runs, each channel's value stands under the channel's
/// name and each pair's power under the pair's, none missing and in order.
pub proof fn law_polled_values_stand_under_their_names(
    metas: Seq<ChannelMeta<String>>,
    means: Seq<Double>,
    channels: Seq<(String, Double)>,
    pairs: Seq<PairPlan>,
    powers: Seq<Double>,
    named_powers: Seq<(String, Double)>,
    i: int,
)
    requires
        under_channels(metas, means, channels),
        under_pairs(pairs, powers, named_powers),
    ensures
        channels.len() == metas.len(),
        named_powers.len() == pairs.len(),
        0 <= i < metas.len() ==> channels[i].0@ == metas[i].name@ && channels[i].1 == means[i],
        0 <= i < pairs.len() ==> named_powers[i].0@ == pairs[i].name@ && named_powers[i].1
            == powers[i],
{
}

// ---------------------------------------------------------------------------
// Samples
// ---------------------------------------------------------------------------

/// A reading is grouped by channel: sample `s` of channel `c` stands `s`
/// places behind the beginning of the channel's room.
pub proof fn law_readings_are_grouped_by_channel<T>(
    read: Seq<T>,
    room: int,
    filled: int,
    c: int,
    s: int,
)
    requires
        0 <= s < filled <= room,
        0 <= c,
        c * room + room <= read.len(),
        0 <= c * room,
    ensures
        channel_part(read, room, filled, c).len() == filled,
        channel_part(read, room, filled, c)[s] == read[c * room + s],
{
}

/// The columns of buffers follow each other: those of the buffers up to one
/// come first, then its own; a buffer that could not be locked has none.
pub proof fn law_buffers_follow_each_other<T>(
    taken: Seq<Option<Vec<Vec<T>>>>,
    next: Option<Vec<Vec<T>>>,
)
    ensures
        all_columns(taken.push(next)) == all_columns(taken) + match next {
            Some(v) => columns(v@),
            None => Seq::<Seq<T>>::empty(),
        },
        all_columns(Seq::<Option<Vec<Vec<T>>>>::empty()) == Seq::<Seq<T>>::empty(),
{
    assert(taken.push(next).drop_last() =~= taken);
}

/// A chunk has one column for each channel: the columns that came, in order,
/// and empty ones for the rest. Something came exactly where a column has a
/// sample.
pub proof fn law_a_chunk_has_a_column_for_each_channel<T>(all: Seq<Seq<T>>, total: nat, i: int)
    requires
        0 <= i < total,
    ensures
        chunk_of(all, total).len() == total,
        i < all.len() ==> chunk_of(all, total)[i] == all[i],
        i >= all.len() ==> chunk_of(all, total)[i].len() == 0,
        chunk_of(all, total)[i].len() > 0 ==> holds_data(chunk_of(all, total)),
{
}

/// The longest column is one of the columns, and none is longer.
pub proof fn law_longest_is_the_maximum<T>(c: Seq<Seq<T>>, i: int)
    ensures
        0 <= i < c.len() ==> c[i].len() <= longest(c),
        c.len() == 0 ==> longest(c) == 0,
        c.len() > 0 ==> exists|k: int| 0 <= k < c.len() && (#[trigger] c[k]).len() == longest(c),
    decreases c.len(),
{
    if c.len() > 0 {
        let init = c.drop_last();
        law_longest_is_the_maximum(init, i);
        if longest(init) >= c.last().len() && init.len() > 0 {
            let k = choose|k: int|
                0 <= k < init.len() && (#[trigger] init[k]).len() == longest(init);
            assert(c[k].len() == longest(c));
        } else {
            assert(c[c.len() - 1].len() == longest(c));
        }
        if 0 <= i < init.len() {
            assert(init[i] == c[i]);
        }
    }
}

/// Record `s` of a chunk holds sample `s` of every channel, each at the
/// channel's place, and the stand-in where the channel has no such sample;
/// no sample is left out.
pub proof fn law_records_hold_every_sample<T>(
    chunk: Seq<Seq<T>>,
    channels: nat,
    missing: T,
    c: int,
    s: int,
)
    requires
        0 <= c < channels,
        0 <= s,
    ensures
        c < chunk.len() && s < chunk[c].len() ==> s < records_of(chunk, channels, missing).len()
            && records_of(chunk, channels, missing)[s][c] == chunk[c][s],
        s < records_of(chunk, channels, missing).len() ==> records_of(
            chunk,
            channels,
            missing,
        )[s].len() == channels,
        s < records_of(chunk, channels, missing).len() && (c >= chunk.len() || s
            >= chunk[c].len()) ==> records_of(chunk, channels, missing)[s][c] == missing,
{
    law_longest_is_the_maximum(chunk, c);
}

// ---------------------------------------------------------------------------
// Names
// ---------------------------------------------------------------------------

/// The sixteen hexadecimal digits, in order.
pub open spec fn hex_digits() -> Seq<char> {
    seq!['0', '1', '2', '3', '4', '5', '6', '7', '8', '9', 'A', 'B', 'C', 'D', 'E', 'F']
}

/// A byte is written with its high digit first.
pub proof fn law_bytes_are_written_in_hexadecimal(b: u8)
    ensures
        hex2(b) == seq![hex_digits()[b as int / 16], hex_digits()[b as int % 16]],
{
    assert(hex2(b) =~= seq![hex_digits()[b as int / 16], hex_digits()[b as int % 16]]);
}

proof fn lemma_no_slash(s: Seq<char>, to: Seq<char>)
    requires
        !s.contains('/'),
    ensures
        replaced(s, '/', to) == s,
    decreases s.len(),
{
    if s.len() > 0 {
        let init = s.drop_last();
        assert forall|i: int| 0 <= i < init.len() implies init[i] != '/' by {
            assert(s.contains(s[i]));
        }
        assert(s.contains(s.last()));
        lemma_no_slash(init, to);
        assert(init + seq![s.last()] =~= s);
    }
}

/// The name under which a channel is saved tells its place, its name, each
/// part of its color and its place in a pair: a current and a voltage of one
/// pair are told apart by the letter before the index.
pub proof fn law_saved_names_tell_the_channel(
    device: Seq<char>,
    input: Seq<char>,
    name: Seq<char>,
    color: Rgb,
    index: u32,
)
    requires
        !device.contains('/'),
        !input.contains('/'),
    ensures
        ({
            let plain = save_name(device + seq!['/'] + input, name, color, None);
            &&& plain == device + "_"@ + input + "_"@ + name + "-CR"@ + hex2(color.r) + "-CG"@
                + hex2(color.g) + "-CB"@ + hex2(color.b)
            &&& save_name(device + seq!['/'] + input, name, color, Some((index, true))) == plain
                + "-PI"@ + decimal(index as nat)
            &&& save_name(device + seq!['/'] + input, name, color, Some((index, false))) == plain
                + "-PV"@ + decimal(index as nat)
        }),
{
    let place = device + seq!['/'] + input;
    lemma_replaced_split(device, input);
    reveal_strlit("_");
    assert("_"@ =~= seq!['_']);
}

proof fn lemma_replaced_split(a: Seq<char>, b: Seq<char>)
    requires
        !a.contains('/'),
        !b.contains('/'),
    ensures
        replaced(a + seq!['/'] + b, '/', "_"@) == a + "_"@ + b,
    decreases b.len(),
{
    let s = a + seq!['/'] + b;
    if b.len() == 0 {
        assert(s.drop_last() =~= a);
        lemma_no_slash(a, "_"@);
        assert(a + "_"@ + b =~= a + "_"@);
    } else {
        let init = b.drop_last();
        assert forall|i: int| 0 <= i < init.len() implies init[i] != '/' by {
            assert(b.contains(b[i]));
        }
        assert(b.contains(b.last()));
        assert(s.drop_last() =~= a + seq!['/'] + init);
        assert(s.last() == b.last());
        lemma_replaced_split(a, init);
        assert(a + "_"@ + init + seq![b.last()] =~= a + "_"@ + b);
    }
}

// ---------------------------------------------------------------------------
// Devices
// ---------------------------------------------------------------------------

/// What the driver wrote ends at the first zero byte, whatever stands behind
/// it.
pub proof fn law_driver_texts_end_at_zero(text: Seq<u8>, rest: Seq<u8>)
    requires
        !text.contains(0),
    ensures
        buffer_text(text + seq![0u8] + rest) == lossy_text(text),
        buffer_text(text) == lossy_text(text),
{
    let b = text + seq![0u8] + rest;
    assert(b.take(text.len() as int) =~= text);
    assert(text.take(text.len() as int) =~= text);
    lemma_end(text, b, 0);
    lemma_end(text, text, 0);
}

proof fn lemma_end(text: Seq<u8>, b: Seq<u8>, i: int)
    requires
        !text.contains(0),
        0 <= i <= text.len() <= b.len(),
        b.take(text.len() as int) == text,
        text.len() < b.len() ==> b[text.len() as int] == 0,
    ensures
        text_end(b, i) == text.len(),
    decreases text.len() - i,
{
    if i < text.len() {
        assert(b.take(text.len() as int)[i] == b[i]);
        assert(text.contains(text[i]));
        lemma_end(text, b, i + 1);
    }
}

/// A measurement samples at the rate that was asked for, buffers two seconds
/// and is told of a tenth of a second at a time, of one sample at least.
pub proof fn law_two_seconds_are_buffered(sample_rate: u32)
    requires
        sample_rate <= u32::MAX / 2,
    ensures
        timed(sample_rate).rate == sample_rate,
        timed(sample_rate).samples_per_channel == sample_rate,
        timed(sample_rate).buffer == sample_rate + sample_rate,
        timed(sample_rate).interval >= 1,
        sample_rate >= 10 ==> 10 * timed(sample_rate).interval <= sample_rate < 10 * (timed(
            sample_rate,
        ).interval + 1),
        sample_rate < 10 ==> timed(sample_rate).interval == 1,
{
}

/// The driver is told to take inputs in pairs or against the ground by its own
/// numbers for that.
pub proof fn law_inputs_are_taken_as_asked()
    ensures
        terminal_number(true) == 10106,
        terminal_number(false) == 10083,
{
}

/// A channel is read between its own voltages where its row gives them, and
/// between those of the measurement where it does not.
pub proof fn law_channels_are_read_within_their_range(
    ch: ChannelConfig<Seq<char>>,
    low: Double,
    high: Double,
)
    ensures
        ch.range_min matches Some(v) ==> range_read(ch, low, high).0 == v,
        ch.range_min is None ==> range_read(ch, low, high).0 == low,
        ch.range_max matches Some(v) ==> range_read(ch, low, high).1 == v,
        ch.range_max is None ==> range_read(ch, low, high).1 == high,
{
}

} // verus!
