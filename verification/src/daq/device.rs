//! The devices that the NI-DAQmx driver knows.
use vstd::prelude::*;
use crate::daq::error::{DaqmxError, DaqmxResult};
use crate::grpc::frame::bytes_range;
use crate::text::{from_utf8_lossy, lossy_text, pieces, split, texts, trim, trimmed};

verus! {

/// A device, with its analog inputs.
#[derive(Debug, Clone)]
pub struct DeviceInfo {
    pub name: String,
    pub product_type: String,
    pub serial_number: u32,
    pub ai_channels: Vec<String>,
}

/// The entries of a list, trimmed, without those that are empty then.
pub open spec fn entries_of(list: Seq<Seq<char>>) -> Seq<Seq<char>>
    decreases list.len(),
{
    if list.len() == 0 {
        Seq::empty()
    } else {
        let before = entries_of(list.drop_last());
        if trimmed(list.last()).len() == 0 {
            before
        } else {
            before.push(trimmed(list.last()))
        }
    }
}

/// The entries of a text, between commas.
pub open spec fn daqmx_list(s: Seq<char>) -> Seq<Seq<char>> {
    entries_of(pieces(s, ','))
}

/// Reads a list of the driver: entries between commas.
pub fn parse_daqmx_list(s: &str) -> (r: Vec<String>)
    ensures
        texts(r@) == daqmx_list(s@),
{
    let parts = split(s, ',');
    let ghost all = texts(parts@);
    let mut r: Vec<String> = Vec::new();
    let mut i: usize = 0;
    assert(texts(r@) =~= entries_of(all.take(0)));
    while i < parts.len()
        invariant
            all == texts(parts@),
            i <= parts@.len(),
            texts(r@) == entries_of(all.take(i as int)),
        decreases parts.len() - i,
    {
        let ghost t = all.take(i as int + 1);
        proof {
            assert(t.drop_last() =~= all.take(i as int));
            assert(t.last() == parts@[i as int]@);
        }
        let entry = trim(parts[i].as_str());
        if crate::text::chars_of(entry.as_str()).len() > 0 {
            let ghost before = texts(r@);
            r.push(entry);
            assert(texts(r@) =~= before.push(entry@));
        }
        i += 1;
    }
    assert(all.take(all.len() as int) =~= all);
    r
}

/// Where a text that the driver wrote ends: at the first zero byte.
pub open spec fn text_end(bytes: Seq<u8>, i: int) -> int
    decreases bytes.len() - i,
{
    if 0 <= i < bytes.len() && bytes[i] != 0 {
        text_end(bytes, i + 1)
    } else {
        i
    }
}

/// The text that the driver wrote into a buffer.
pub open spec fn buffer_text(bytes: Seq<u8>) -> Seq<char> {
    lossy_text(bytes.take(text_end(bytes, 0)))
}

proof fn lemma_text_end(bytes: Seq<u8>, i: int, j: int)
    requires
        0 <= i <= j <= bytes.len(),
        forall|k: int| i <= k < j ==> bytes[k] != 0,
        j < bytes.len() ==> bytes[j] == 0,
    ensures
        text_end(bytes, i) == j,
    decreases j - i,
{
    if i < j {
        lemma_text_end(bytes, i + 1, j);
    }
}

/// The text that the driver wrote into a buffer.
pub fn read_buffer(bytes: &Vec<u8>) -> (s: String)
    ensures
        s@ == buffer_text(bytes@),
{
    let mut end: usize = 0;
    while end < bytes.len() && bytes[end] != 0
        invariant
            end <= bytes@.len(),
            forall|k: int| 0 <= k < end ==> bytes@[k] != 0,
        decreases bytes.len() - end,
    {
        end += 1;
    }
    proof {
        lemma_text_end(bytes@, 0, end as int);
        assert(bytes@.take(end as int) =~= bytes@.subrange(0, end as int));
    }
    from_utf8_lossy(&bytes_range(bytes, 0, end))
}

/// The names of the devices, by what the driver wrote. That there are none is
/// an error.
pub fn device_names(bytes: &Vec<u8>) -> (r: DaqmxResult<Vec<String>>)
    ensures
        daqmx_list(buffer_text(bytes@)).len() == 0 ==> r == Err::<Vec<String>, DaqmxError<String>>(
            DaqmxError::NoDevices,
        ),
        daqmx_list(buffer_text(bytes@)).len() > 0 ==> r is Ok && texts(r->Ok_0@) == daqmx_list(
            buffer_text(bytes@),
        ),
{
    let names = parse_daqmx_list(read_buffer(bytes).as_str());
    assert(texts(names@).len() == names@.len());
    if names.len() == 0 {
        Err(DaqmxError::NoDevices)
    } else {
        Ok(names)
    }
}

/// A device, by what the driver wrote about it.
pub fn device_info(name: &str, product: &Vec<u8>, serial_number: u32, channels: &Vec<u8>) -> (d:
    DeviceInfo)
    ensures
        d.name@ == name@,
        d.product_type@ == buffer_text(product@),
        d.serial_number == serial_number,
        texts(d.ai_channels@) == daqmx_list(buffer_text(channels@)),
{
    DeviceInfo {
        name: name.to_string(),
        product_type: read_buffer(product),
        serial_number,
        ai_channels: parse_daqmx_list(read_buffer(channels).as_str()),
    }
}

} // verus!
