//! Streams, archives and source profiles, for callers in other languages.
use vstd::prelude::*;
use crate::bounded_queue::BoundedQueue;
use crate::connect::{control_addr_of, sync_control_addr};
use crate::core_api::is_linked;
use crate::ffi::calls::{callable, text_given};
use crate::ffi::options::{
    capability_asked, source_capability_options_from_ffi, source_start_options_from_ffi,
    start_asked,
};
use crate::ffi::outcome::{Verdict, went_well, went_wrong};
use crate::ffi::records::{
    HandOver, all_handed, cml_data_to_ffi, hand_over_polled, poll_handed,
};
use crate::ffi::types::{
    ProfilerCmlData, ProfilerCrData, ProfilerGcData, ProfilerResult, ProfilerRtbData,
    ProfilerSourceCapabilityOptions, ProfilerSourceStartOptions, ProfilerTcData,
};
use crate::grpc::client::{SourceProfileCapabilityOptions, SourceProfileStartOptions};
use crate::grpc::streaming::StreamKind;
use crate::proto::{CmlDataPoint, CrDataPoint, GcDataPoint, RtbDataPoint, TcDataPoint};
use crate::runtime::{HandleTable, Runtime, RuntimeState};
use crate::text::concat2;
use crate::wide::from_wide;

verus! {

// ---------------------------------------------------------------------------
// Streams
// ---------------------------------------------------------------------------

/// How many samples of a stream wait to be polled.
pub open spec fn waiting_room(kind: StreamKind) -> usize {
    match kind {
        StreamKind::Cml => 64,
        _ => 512,
    }
}

/// How many samples of a stream wait to be polled.
pub fn queue_capacity(kind: StreamKind) -> (n: usize)
    ensures
        n == waiting_room(kind),
        n == if kind == StreamKind::Cml {
            64usize
        } else {
            512usize
        },
{
    match kind {
        StreamKind::Cml => 64,
        _ => 512,
    }
}

/// The streams of a kind.
pub open spec fn streams_of<C, H>(s: RuntimeState<C, H>, kind: StreamKind) -> HandleTable<H> {
    match kind {
        StreamKind::Rtb => s.rtb,
        StreamKind::Cr => s.cr,
        StreamKind::Tc => s.tc,
        StreamKind::Cml => s.cml,
        StreamKind::Gc => s.gc,
    }
}

/// Whether two states differ in the streams of a kind at most.
pub open spec fn same_but_streams<C, H>(
    a: RuntimeState<C, H>,
    b: RuntimeState<C, H>,
    kind: StreamKind,
) -> bool {
    &&& a.connections == b.connections
    &&& a.last_error == b.last_error
    &&& forall|k: StreamKind| k != kind ==> #[trigger] streams_of(a, k) == streams_of(b, k)
}

fn keep<H>(table: &mut HandleTable<H>, handle: H) -> (id: u64)
    requires
        old(table).wf(),
        old(table).next_id() < u64::MAX,
    ensures
        final(table).wf(),
        id == old(table).next_id(),
        final(table).next_id() == old(table).next_id() + 1,
        final(table)@ == old(table)@.insert(id, handle),
{
    let id: u64 = table.next_handle_id();
    table.insert(id, handle);
    id
}

/// Keeps a stream that was started, and hands out its number.
pub fn keep_stream<C, H>(state: &mut RuntimeState<C, H>, kind: StreamKind, handle: H) -> (id: u64)
    requires
        old(state).wf(),
        streams_of(*old(state), kind).next_id() < u64::MAX,
    ensures
        final(state).wf(),
        same_but_streams(*old(state), *final(state), kind),
        id == streams_of(*old(state), kind).next_id(),
        !streams_of(*old(state), kind)@.contains_key(id),
        streams_of(*final(state), kind)@ == streams_of(*old(state), kind)@.insert(id, handle),
        streams_of(*final(state), kind).next_id() == id + 1,
{
    match kind {
        StreamKind::Rtb => keep(&mut state.rtb, handle),
        StreamKind::Cr => keep(&mut state.cr, handle),
        StreamKind::Tc => keep(&mut state.tc, handle),
        StreamKind::Cml => keep(&mut state.cml, handle),
        StreamKind::Gc => keep(&mut state.gc, handle),
    }
}

/// What forgetting a stream comes to: the stream, or that there is none with
/// the number.
pub open spec fn stopped<C, H>(
    before: RuntimeState<C, H>,
    after: RuntimeState<C, H>,
    kind: StreamKind,
    id: u64,
    r: (ProfilerResult, Option<H>),
) -> bool {
    &&& same_but_streams(before, after, kind)
    &&& streams_of(after, kind)@ == streams_of(before, kind)@.remove(id)
    &&& streams_of(after, kind).next_id() == streams_of(before, kind).next_id()
    &&& if streams_of(before, kind)@.contains_key(id) {
        r.0 == ProfilerResult::Success && r.1 == Some(streams_of(before, kind)@[id])
    } else {
        r.0 == ProfilerResult::InvalidParameter && r.1 is None
    }
}

fn stop_stream<C, H>(state: &mut RuntimeState<C, H>, kind: StreamKind, id: u64) -> (r: (
    ProfilerResult,
    Option<H>,
))
    requires
        old(state).wf(),
    ensures
        final(state).wf(),
        stopped(*old(state), *final(state), kind, id, r),
{
    let removed = match kind {
        StreamKind::Rtb => state.rtb.remove(id),
        StreamKind::Cr => state.cr.remove(id),
        StreamKind::Tc => state.tc.remove(id),
        StreamKind::Cml => state.cml.remove(id),
        StreamKind::Gc => state.gc.remove(id),
    };
    match removed {
        Some(h) => (ProfilerResult::Success, Some(h)),
        None => (ProfilerResult::InvalidParameter, None),
    }
}

/// Forgets a real-time benchmark stream, and hands it back to be cancelled.
pub fn profiler_stop_rtb<C, H>(state: &mut RuntimeState<C, H>, handle: u64) -> (r: (
    ProfilerResult,
    Option<H>,
))
    requires
        old(state).wf(),
    ensures
        final(state).wf(),
        stopped(*old(state), *final(state), StreamKind::Rtb, handle, r),
{
    stop_stream(state, StreamKind::Rtb, handle)
}

/// Forgets a stream of cache reports, and hands it back to be cancelled.
pub fn profiler_stop_cr<C, H>(state: &mut RuntimeState<C, H>, handle: u64) -> (r: (
    ProfilerResult,
    Option<H>,
))
    requires
        old(state).wf(),
    ensures
        final(state).wf(),
        stopped(*old(state), *final(state), StreamKind::Cr, handle, r),
{
    stop_stream(state, StreamKind::Cr, handle)
}

/// Forgets a stream of cache reports of threads, and hands it back to be cancelled.
pub fn profiler_stop_tc<C, H>(state: &mut RuntimeState<C, H>, handle: u64) -> (r: (
    ProfilerResult,
    Option<H>,
))
    requires
        old(state).wf(),
    ensures
        final(state).wf(),
        stopped(*old(state), *final(state), StreamKind::Tc, handle, r),
{
    stop_stream(state, StreamKind::Tc, handle)
}

/// Forgets a latency benchmark, and hands it back to be cancelled.
pub fn profiler_stop_cml<C, H>(state: &mut RuntimeState<C, H>, handle: u64) -> (r: (
    ProfilerResult,
    Option<H>,
))
    requires
        old(state).wf(),
    ensures
        final(state).wf(),
        stopped(*old(state), *final(state), StreamKind::Cml, handle, r),
{
    stop_stream(state, StreamKind::Cml, handle)
}

/// Forgets a stream of the GPU's counters, and hands it back to be cancelled.
pub fn profiler_stop_gc<C, H>(state: &mut RuntimeState<C, H>, handle: u64) -> (r: (
    ProfilerResult,
    Option<H>,
))
    requires
        old(state).wf(),
    ensures
        final(state).wf(),
        stopped(*old(state), *final(state), StreamKind::Gc, handle, r),
{
    stop_stream(state, StreamKind::Gc, handle)
}

/// The stream with a number, where a caller gave somewhere to put what a poll
/// of it finds.
fn stream_to_poll<C, H>(
    state: &RuntimeState<C, H>,
    kind: StreamKind,
    id: u64,
    out_given: bool,
) -> (r: Option<&H>)
    ensures
        if out_given && streams_of(*state, kind)@.contains_key(id) {
            r == Some(&streams_of(*state, kind)@[id])
        } else {
            r is None
        },
{
    if !out_given {
        return None;
    }
    match kind {
        StreamKind::Rtb => state.rtb.get(id),
        StreamKind::Cr => state.cr.get(id),
        StreamKind::Tc => state.tc.get(id),
        StreamKind::Cml => state.cml.get(id),
        StreamKind::Gc => state.gc.get(id),
    }
}

/// What a poll comes to: what is handed over for what `poll` finds on the
/// stream; nothing where the stream is not there, or nowhere to put it. As a
/// `FnOnce`, `poll` is called no more than once, so no sample is passed over.
pub open spec fn polled<C, H, T: HandOver, F: FnOnce(&H) -> Option<T>>(
    state: RuntimeState<C, H>,
    kind: StreamKind,
    handle: u64,
    out_given: bool,
    poll: F,
    w: Option<T::Wide>,
) -> bool {
    if out_given && streams_of(state, kind)@.contains_key(handle) {
        exists|found: Option<T>| #[trigger]
            poll_gives(poll, streams_of(state, kind)@[handle], found) && poll_handed(found, w)
    } else {
        w is None
    }
}

/// Whether `poll` can find `found` on a stream.
pub open spec fn poll_gives<H, T, F: FnOnce(&H) -> Option<T>>(
    poll: F,
    h: H,
    found: Option<T>,
) -> bool {
    call_ensures(poll, (&h,), found)
}

fn poll_stream<C, H, T: HandOver, F: FnOnce(&H) -> Option<T>>(
    state: &RuntimeState<C, H>,
    kind: StreamKind,
    handle: u64,
    out_given: bool,
    poll: F,
) -> (w: Option<T::Wide>)
    requires
        forall|h: &H| call_requires(poll, (h,)),
    ensures
        polled(*state, kind, handle, out_given, poll, w),
{
    match stream_to_poll(state, kind, handle, out_given) {
        Some(h) => {
            let found = poll(h);
            let w = hand_over_polled(&found);
            proof {
                assert(poll_gives(poll, *h, found));
            }
            w
        },
        None => None,
    }
}

/// Hands over the oldest sample that waits in a queue, and takes it out; the
/// others stay as they are.
pub fn poll_queue<T: HandOver>(q: &mut BoundedQueue<T>) -> (w: Option<T::Wide>)
    requires
        old(q).wf(),
    ensures
        final(q).wf(),
        final(q).capacity() == old(q).capacity(),
        old(q)@.len() == 0 ==> w is None && final(q)@ == old(q)@,
        old(q)@.len() > 0 ==> {
            &&& w is Some
            &&& old(q)@[0].handed(&w->Some_0)
            &&& final(q)@ == old(q)@.drop_first()
        },
{
    let found = q.poll();
    hand_over_polled(&found)
}

/// Hands over the oldest latencies that wait in a queue, and takes them out,
/// with whether the benchmark is done.
pub fn poll_cml_queue(q: &mut BoundedQueue<CmlDataPoint>, finished: bool) -> (w: CmlHandedOver)
    requires
        old(q).wf(),
    ensures
        final(q).wf(),
        final(q).capacity() == old(q).capacity(),
        w.data.is_finished == finished,
        w.available == (old(q)@.len() > 0),
        if old(q)@.len() > 0 {
            &&& w.data.footprint_kb == old(q)@[0].footprint_kb
            &&& all_handed(old(q)@[0].cpus@, w.data.cpus@)
            &&& final(q)@ == old(q)@.drop_first()
        } else {
            w.data.footprint_kb == 0 && w.data.cpus@.len() == 0 && final(q)@ == old(q)@
        },
{
    let point = q.poll();
    let data = cml_data_to_ffi(&point, finished);
    CmlHandedOver { available: point.is_some(), data }
}

/// Hands over the next sample of a real-time benchmark stream, where there is one.
pub fn profiler_poll_rtb<C, H, F: FnOnce(&H) -> Option<RtbDataPoint>>(
    state: &RuntimeState<C, H>,
    handle: u64,
    out_given: bool,
    poll: F,
) -> (w: Option<ProfilerRtbData>)
    requires
        forall|h: &H| call_requires(poll, (h,)),
    ensures
        polled(*state, StreamKind::Rtb, handle, out_given, poll, w),
{
    poll_stream(state, StreamKind::Rtb, handle, out_given, poll)
}

/// Hands over the next sample of a stream of cache reports, where there is one.
pub fn profiler_poll_cr<C, H, F: FnOnce(&H) -> Option<CrDataPoint>>(
    state: &RuntimeState<C, H>,
    handle: u64,
    out_given: bool,
    poll: F,
) -> (w: Option<ProfilerCrData>)
    requires
        forall|h: &H| call_requires(poll, (h,)),
    ensures
        polled(*state, StreamKind::Cr, handle, out_given, poll, w),
{
    poll_stream(state, StreamKind::Cr, handle, out_given, poll)
}

/// Hands over the next sample of a stream of cache reports of threads, where there is one.
pub fn profiler_poll_tc<C, H, F: FnOnce(&H) -> Option<TcDataPoint>>(
    state: &RuntimeState<C, H>,
    handle: u64,
    out_given: bool,
    poll: F,
) -> (w: Option<ProfilerTcData>)
    requires
        forall|h: &H| call_requires(poll, (h,)),
    ensures
        polled(*state, StreamKind::Tc, handle, out_given, poll, w),
{
    poll_stream(state, StreamKind::Tc, handle, out_given, poll)
}

/// Hands over the next sample of a stream of the GPU's counters, where there is one.
pub fn profiler_poll_gc<C, H, F: FnOnce(&H) -> Option<GcDataPoint>>(
    state: &RuntimeState<C, H>,
    handle: u64,
    out_given: bool,
    poll: F,
) -> (w: Option<ProfilerGcData>)
    requires
        forall|h: &H| call_requires(poll, (h,)),
    ensures
        polled(*state, StreamKind::Gc, handle, out_given, poll, w),
{
    poll_stream(state, StreamKind::Gc, handle, out_given, poll)
}

/// What a poll of a latency benchmark finds: whether it is done, and a point
/// where there is one.
pub struct CmlPoll {
    pub finished: bool,
    pub point: Option<CmlDataPoint>,
}

/// What is handed over for a poll of a latency benchmark, and whether a point
/// was there for it.
pub struct CmlHandedOver {
    pub available: bool,
    pub data: ProfilerCmlData,
}

/// What a poll of a latency benchmark comes to: what is handed over for the
/// point that was found, with whether the benchmark is done.
pub open spec fn cml_polled<H, F: FnOnce(&H) -> CmlPoll>(
    poll: F,
    h: H,
    found: CmlPoll,
    w: CmlHandedOver,
) -> bool {
    &&& call_ensures(poll, (&h,), found)
    &&& w.available == found.point is Some
    &&& w.data.is_finished == found.finished
    &&& match found.point {
        Some(p) => w.data.footprint_kb == p.footprint_kb && all_handed(p.cpus@, w.data.cpus@),
        None => w.data.footprint_kb == 0 && w.data.cpus@.len() == 0,
    }
}

/// Whether `w` is what is handed over for a poll of a latency benchmark;
/// nothing where it is not there, or nowhere to put it.
pub open spec fn cml_poll_handed<C, H, F: FnOnce(&H) -> CmlPoll>(
    state: RuntimeState<C, H>,
    handle: u64,
    out_given: bool,
    poll: F,
    w: Option<CmlHandedOver>,
) -> bool {
    if out_given && streams_of(state, StreamKind::Cml)@.contains_key(handle) {
        w is Some && exists|found: CmlPoll| #[trigger]
            cml_polled(poll, streams_of(state, StreamKind::Cml)@[handle], found, w->Some_0)
    } else {
        w is None
    }
}

/// Hands over the next latencies of a benchmark, and whether it is done: that
/// is handed over even where there are no latencies.
pub fn profiler_poll_cml<C, H, F: FnOnce(&H) -> CmlPoll>(
    state: &RuntimeState<C, H>,
    handle: u64,
    out_given: bool,
    poll: F,
) -> (w: Option<CmlHandedOver>)
    requires
        forall|h: &H| call_requires(poll, (h,)),
    ensures
        cml_poll_handed(*state, handle, out_given, poll, w),
{
    match stream_to_poll(state, StreamKind::Cml, handle, out_given) {
        Some(h) => {
            let found: CmlPoll = poll(h);
            let data = cml_data_to_ffi(&found.point, found.finished);
            let w = CmlHandedOver { available: found.point.is_some(), data };
            proof {
                assert(cml_polled(poll, *h, found, Some(w)->Some_0));
            }
            Some(w)
        },
        None => None,
    }
}

/// Whether a latency benchmark counts as done: one that is not there does.
pub fn profiler_cml_is_finished(finished: Option<bool>) -> (r: bool)
    ensures
        r == (finished != Some(false)),
{
    match finished {
        Some(f) => f,
        None => true,
    }
}

/// A stream that was kept can be stopped once: the first request hands it
/// back, and the next finds none.
pub proof fn law_stream_is_stopped_once<C, H>(
    s0: RuntimeState<C, H>,
    s1: RuntimeState<C, H>,
    s2: RuntimeState<C, H>,
    s3: RuntimeState<C, H>,
    kind: StreamKind,
    id: u64,
    handle: H,
    first: (ProfilerResult, Option<H>),
    second: (ProfilerResult, Option<H>),
)
    requires
        streams_of(s1, kind)@ == streams_of(s0, kind)@.insert(id, handle),
        stopped(s1, s2, kind, id, first),
        stopped(s2, s3, kind, id, second),
    ensures
        first == (ProfilerResult::Success, Some(handle)),
        second == (ProfilerResult::InvalidParameter, None::<H>),
{
}

// ---------------------------------------------------------------------------
// Archives
// ---------------------------------------------------------------------------

/// A compressed archive that goes over the control protocol, which is the only
/// way for it. An archive that comes from the device has a target there.
#[derive(Debug)]
pub struct ArchiveStream {
    pub serial: String,
    pub sync_addr: String,
    pub working_directory: String,
    pub target: Option<String>,
    pub local_path: String,
}

/// A call that ends before anything is sent.
pub open spec fn refused(result: ProfilerResult, last_error: Option<Seq<char>>) -> Verdict<
    Seq<char>,
> {
    Verdict { result, last_error, drop_connection: false }
}

/// What an archive comes to before it is sent.
pub open spec fn archive_begun<C, H>(
    rt: Runtime<C, H>,
    serial: Option<&Vec<u16>>,
    complete: bool,
    working_directory: Seq<char>,
    target: Option<Seq<char>>,
    local_path: Seq<char>,
    r: Result<ArchiveStream, Verdict<String>>,
) -> bool {
    let name = text_given(serial);
    if serial is None || !complete {
        r is Err && r->Err_0@ == refused(ProfilerResult::InvalidParameter, None)
    } else if !is_linked(rt, name) {
        r is Err && r->Err_0@ == refused(ProfilerResult::DeviceNotFound, None)
    } else {
        let entry = rt.state->Some_0.connections@[name];
        match control_addr_of(entry.daemon_low_overhead, entry.port) {
            None => r is Err && r->Err_0@ == went_wrong(
                Some("sync control is required for lz4 archive stream"@),
            ),
            Some(addr) => {
                &&& r is Ok
                &&& r->Ok_0.serial@ == name
                &&& r->Ok_0.sync_addr@ == addr
                &&& r->Ok_0.working_directory@ == working_directory
                &&& r->Ok_0.local_path@ == local_path
                &&& match target {
                    Some(t) => r->Ok_0.target is Some && r->Ok_0.target->Some_0@ == t,
                    None => r->Ok_0.target is None,
                }
            },
        }
    }
}

fn refuse(result: ProfilerResult) -> (v: Verdict<String>)
    ensures
        v@ == refused(result, None),
{
    Verdict { result, last_error: None, drop_connection: false }
}

fn begin_archive<C, H>(
    rt: &Runtime<C, H>,
    serial: Option<&Vec<u16>>,
    working_directory: String,
    target: Option<String>,
    local_path: String,
) -> (r: Result<ArchiveStream, Verdict<String>>)
    requires
        rt.wf(),
        callable(*rt, serial, true),
    ensures
        archive_begun(
            *rt,
            serial,
            true,
            working_directory@,
            match target {
                Some(t) => Some(t@),
                None => None,
            },
            local_path@,
            r,
        ),
{
    if serial.is_none() {
        return Err(refuse(ProfilerResult::InvalidParameter));
    }
    let name = from_wide(serial);
    let found = match &rt.state {
        Some(state) => state.connections.get(name.as_str()),
        None => None,
    };
    match found {
        None => Err(refuse(ProfilerResult::DeviceNotFound)),
        Some(entry) => match sync_control_addr(entry) {
            None => Err(
                Verdict {
                    result: ProfilerResult::OperationFailed,
                    last_error: Some("sync control is required for lz4 archive stream".to_string()),
                    drop_connection: false,
                },
            ),
            Some(sync_addr) => Ok(
                ArchiveStream { serial: name, sync_addr, working_directory, target, local_path },
            ),
        },
    }
}

/// Fetches files of the device as a compressed archive.
pub fn profiler_stream_tar_lz4<C, H>(
    rt: &Runtime<C, H>,
    serial: Option<&Vec<u16>>,
    working_directory: Option<&Vec<u16>>,
    target: Option<&Vec<u16>>,
    local_path: Option<&Vec<u16>>,
) -> (r: Result<ArchiveStream, Verdict<String>>)
    requires
        rt.wf(),
        callable(
            *rt,
            serial,
            working_directory is Some && target is Some && local_path is Some,
        ),
    ensures
        archive_begun(
            *rt,
            serial,
            working_directory is Some && target is Some && local_path is Some,
            text_given(working_directory),
            Some(text_given(target)),
            text_given(local_path),
            r,
        ),
{
    if working_directory.is_none() || target.is_none() || local_path.is_none() {
        return Err(refuse(ProfilerResult::InvalidParameter));
    }
    begin_archive(
        rt,
        serial,
        from_wide(working_directory),
        Some(from_wide(target)),
        from_wide(local_path),
    )
}

/// Unpacks a compressed archive of this side on the device.
pub fn profiler_untar_lz4<C, H>(
    rt: &Runtime<C, H>,
    serial: Option<&Vec<u16>>,
    working_directory: Option<&Vec<u16>>,
    local_path: Option<&Vec<u16>>,
) -> (r: Result<ArchiveStream, Verdict<String>>)
    requires
        rt.wf(),
        callable(*rt, serial, working_directory is Some && local_path is Some),
    ensures
        archive_begun(
            *rt,
            serial,
            working_directory is Some && local_path is Some,
            text_given(working_directory),
            None,
            text_given(local_path),
            r,
        ),
{
    if working_directory.is_none() || local_path.is_none() {
        return Err(refuse(ProfilerResult::InvalidParameter));
    }
    begin_archive(rt, serial, from_wide(working_directory), None, from_wide(local_path))
}

/// What an archive comes to once it was sent: a failure is remembered as it
/// is.
pub fn archive_verdict(failure: Option<String>) -> (v: Verdict<String>)
    ensures
        v@ == match failure {
            Some(e) => went_wrong(Some(e@)),
            None => went_well(),
        },
{
    match failure {
        Some(e) => Verdict {
            result: ProfilerResult::OperationFailed,
            last_error: Some(e),
            drop_connection: false,
        },
        None => Verdict {
            result: ProfilerResult::Success,
            last_error: None,
            drop_connection: false,
        },
    }
}

// ---------------------------------------------------------------------------
// Source profiles
// ---------------------------------------------------------------------------

/// A request about a source profile, to be sent over the service of a device.
#[derive(Debug)]
pub struct SourceExchange<R> {
    pub serial: String,
    pub request: R,
}

/// A look at a source profile.
#[derive(Debug)]
pub struct SourceStatusRequest {
    pub session_id: String,
}

/// The end of a source profile.
#[derive(Debug)]
pub struct SourceStopRequest {
    pub session_id: String,
    pub reason: String,
}

/// The fetching of a source profile's bundle.
#[derive(Debug)]
pub struct SourceBundleRequest {
    pub remote_bundle_path: String,
    pub local_archive_path: String,
}

/// What a request about a source profile comes to before it is sent, where
/// `asked` says what it is.
pub open spec fn source_begun<C, H, R>(
    rt: Runtime<C, H>,
    serial: Option<&Vec<u16>>,
    complete: bool,
    asked: spec_fn(R) -> bool,
    r: Result<SourceExchange<R>, ProfilerResult>,
) -> bool {
    let name = text_given(serial);
    if serial is None || !complete {
        r is Err && r->Err_0 == ProfilerResult::InvalidParameter
    } else if !is_linked(rt, name) {
        r is Err && r->Err_0 == ProfilerResult::DeviceNotFound
    } else {
        r is Ok && r->Ok_0.serial@ == name && asked(r->Ok_0.request)
    }
}

fn begin_source<C, H, R>(rt: &Runtime<C, H>, serial: Option<&Vec<u16>>, request: R) -> (r: Result<
    SourceExchange<R>,
    ProfilerResult,
>)
    requires
        rt.wf(),
        callable(*rt, serial, true),
    ensures
        source_begun(*rt, serial, true, |q: R| q == request, r),
{
    if serial.is_none() {
        return Err(ProfilerResult::InvalidParameter);
    }
    let name = from_wide(serial);
    let found = match &rt.state {
        Some(state) => state.connections.contains_key(name.as_str()),
        None => false,
    };
    if found {
        Ok(SourceExchange { serial: name, request })
    } else {
        Err(ProfilerResult::DeviceNotFound)
    }
}

/// Asks what can be sampled on a device.
pub fn profiler_source_profile_capability<C, H>(
    rt: &Runtime<C, H>,
    serial: Option<&Vec<u16>>,
    options: Option<&ProfilerSourceCapabilityOptions>,
    out_given: bool,
) -> (r: Result<SourceExchange<SourceProfileCapabilityOptions>, ProfilerResult>)
    requires
        rt.wf(),
        callable(*rt, serial, options is Some && out_given),
    ensures
        source_begun(
            *rt,
            serial,
            options is Some && out_given,
            |q: SourceProfileCapabilityOptions| capability_asked(*options->Some_0, q),
            r,
        ),
{
    match options {
        Some(o) if out_given => begin_source(rt, serial, source_capability_options_from_ffi(o)),
        _ => Err(ProfilerResult::InvalidParameter),
    }
}

/// Starts a source profile.
pub fn profiler_source_profile_start<C, H>(
    rt: &Runtime<C, H>,
    serial: Option<&Vec<u16>>,
    options: Option<&ProfilerSourceStartOptions>,
    out_given: bool,
) -> (r: Result<SourceExchange<SourceProfileStartOptions>, ProfilerResult>)
    requires
        rt.wf(),
        callable(*rt, serial, options is Some && out_given),
    ensures
        source_begun(
            *rt,
            serial,
            options is Some && out_given,
            |q: SourceProfileStartOptions| start_asked(*options->Some_0, q),
            r,
        ),
{
    match options {
        Some(o) if out_given => begin_source(rt, serial, source_start_options_from_ffi(o)),
        _ => Err(ProfilerResult::InvalidParameter),
    }
}

/// Looks at a source profile.
pub fn profiler_source_profile_status<C, H>(
    rt: &Runtime<C, H>,
    serial: Option<&Vec<u16>>,
    session_id: Option<&Vec<u16>>,
    out_given: bool,
) -> (r: Result<SourceExchange<SourceStatusRequest>, ProfilerResult>)
    requires
        rt.wf(),
        callable(*rt, serial, out_given),
    ensures
        source_begun(
            *rt,
            serial,
            out_given,
            |q: SourceStatusRequest| q.session_id@ == text_given(session_id),
            r,
        ),
{
    if !out_given {
        return Err(ProfilerResult::InvalidParameter);
    }
    begin_source(rt, serial, SourceStatusRequest { session_id: from_wide(session_id) })
}

/// Ends a source profile.
pub fn profiler_source_profile_stop<C, H>(
    rt: &Runtime<C, H>,
    serial: Option<&Vec<u16>>,
    session_id: Option<&Vec<u16>>,
    reason: Option<&Vec<u16>>,
    out_given: bool,
) -> (r: Result<SourceExchange<SourceStopRequest>, ProfilerResult>)
    requires
        rt.wf(),
        callable(*rt, serial, out_given),
    ensures
        source_begun(
            *rt,
            serial,
            out_given,
            |q: SourceStopRequest|
                q.session_id@ == text_given(session_id) && q.reason@ == text_given(reason),
            r,
        ),
{
    if !out_given {
        return Err(ProfilerResult::InvalidParameter);
    }
    begin_source(
        rt,
        serial,
        SourceStopRequest { session_id: from_wide(session_id), reason: from_wide(reason) },
    )
}

/// Fetches the bundle of a source profile.
pub fn profiler_pull_source_bundle<C, H>(
    rt: &Runtime<C, H>,
    serial: Option<&Vec<u16>>,
    remote_bundle_path: Option<&Vec<u16>>,
    local_archive_path: Option<&Vec<u16>>,
    out_given: bool,
) -> (r: Result<SourceExchange<SourceBundleRequest>, ProfilerResult>)
    requires
        rt.wf(),
        callable(
            *rt,
            serial,
            remote_bundle_path is Some && local_archive_path is Some && out_given,
        ),
    ensures
        source_begun(
            *rt,
            serial,
            remote_bundle_path is Some && local_archive_path is Some && out_given,
            |q: SourceBundleRequest|
                q.remote_bundle_path@ == text_given(remote_bundle_path) && q.local_archive_path@
                    == text_given(local_archive_path),
            r,
        ),
{
    if remote_bundle_path.is_none() || local_archive_path.is_none() || !out_given {
        return Err(ProfilerResult::InvalidParameter);
    }
    begin_source(
        rt,
        serial,
        SourceBundleRequest {
            remote_bundle_path: from_wide(remote_bundle_path),
            local_archive_path: from_wide(local_archive_path),
        },
    )
}

/// The requests about source profiles.
#[derive(Debug, Clone, Copy, PartialEq, Eq, Structural)]
pub enum SourceCall {
    Capability,
    Start,
    Status,
    Stop,
    PullBundle,
}

/// What is remembered where a request about a source profile failed.
pub open spec fn source_failure(call: SourceCall, e: Seq<char>) -> Seq<char> {
    match call {
        SourceCall::Capability => "source profile capability failed: "@ + e,
        SourceCall::Start => "source profile start failed: "@ + e,
        SourceCall::Status => "source profile status failed: "@ + e,
        SourceCall::Stop => "source profile stop failed: "@ + e,
        SourceCall::PullBundle => "pull source bundle failed: "@ + e,
    }
}

/// What a request about a source profile comes to once it was sent.
pub fn source_verdict(call: SourceCall, failure: Option<String>) -> (v: Verdict<String>)
    ensures
        v@ == match failure {
            Some(e) => went_wrong(Some(source_failure(call, e@))),
            None => went_well(),
        },
{
    match failure {
        Some(e) => {
            let prefix = match call {
                SourceCall::Capability => "source profile capability failed: ",
                SourceCall::Start => "source profile start failed: ",
                SourceCall::Status => "source profile status failed: ",
                SourceCall::Stop => "source profile stop failed: ",
                SourceCall::PullBundle => "pull source bundle failed: ",
            };
            Verdict {
                result: ProfilerResult::OperationFailed,
                last_error: Some(concat2(prefix, e.as_str())),
                drop_connection: false,
            }
        },
        None => Verdict {
            result: ProfilerResult::Success,
            last_error: None,
            drop_connection: false,
        },
    }
}

} // verus!
