//! What the interface for applications refuses and what it asks for, and what
//! the library remembers from call to call.
use vstd::prelude::*;
use crate::adb::commands::AdbCommand;
use crate::connect::ConnectError;
use crate::core_api::{
    ClientCall, CoreError, CoreResult, adb_call, client_call, connect_error, count_fault, first,
    found, interval_fault, port_fault, required,
};
use crate::double::Double;
use crate::proto::CallModel;
use crate::runtime::{
    HandleTable, Runtime, RuntimeState, Shutdown, error_set, error_taken, id_handed_out,
    initialized, shut_down,
};
use crate::text::blank;

verus! {

/// An error, as contracts speak of it.
pub type Fault = CoreError<Seq<char>>;

/// What is said of an error names its kind.
pub proof fn law_errors_in_words(m: Seq<char>)
    ensures
        Fault::InvalidInput(m).words() == "invalid input: "@ + m,
        Fault::DeviceNotFound(m).words() == "device not found: "@ + m,
        Fault::DaemonNotRunning(m).words() == "daemon not running: "@ + m,
        Fault::Operation(m).words() == "operation failed: "@ + m,
        Fault::Runtime(m).words() == "runtime error: "@ + m,
{
}

/// What a connection that failed is to an application.
pub proof fn law_connection_errors_are_told(m: Seq<char>, serial: Seq<char>)
    ensures
        connect_error(ConnectError::DeviceNotFound, serial) == Fault::DeviceNotFound(serial),
        connect_error(ConnectError::NotAlive, serial) == Fault::DaemonNotRunning(
            "realtime_profile did not stay alive"@,
        ),
        connect_error(ConnectError::DaemonUnreachable(m), serial) == Fault::DaemonNotRunning(m),
        connect_error(ConnectError::PortOverflow, serial) == Fault::InvalidInput(
            "sync control port overflow"@,
        ),
        connect_error(ConnectError::DevicesUnlisted(m), serial) == Fault::Operation(m),
        connect_error(ConnectError::DeployFailed(m), serial) == Fault::Operation(m),
        connect_error(ConnectError::ForwardFailed(m), serial) == Fault::Operation(m),
        connect_error(ConnectError::SyncForwardFailed(m), serial) == Fault::Operation(m),
        connect_error(ConnectError::LazyFailed(m), serial) == Fault::Operation(m),
{
}

/// A text that is blank, a port that is zero, an interval that is not a finite
/// number above zero and a count that is not above zero are refused, and
/// nothing else is. What is refused is named.
pub proof fn law_arguments_are_refused_by_their_values(
    field: Seq<char>,
    value: Seq<char>,
    port: u16,
    interval: Double,
    count: i32,
)
    ensures
        blank(value) ==> required(field, value) == Some(
            Fault::InvalidInput(field + " is required"@),
        ),
        !blank(value) ==> required(field, value) is None,
        port_fault(0) == Some(Fault::InvalidInput("port must be greater than zero"@)),
        port > 0 ==> port_fault(port) is None,
        interval_fault(field, interval) is None <==> 0 < interval.bits < 0x7FF0_0000_0000_0000,
        interval_fault(field, interval) is Some ==> interval_fault(field, interval) == Some(
            Fault::InvalidInput(field + " must be greater than zero"@),
        ),
        count > 0 ==> count_fault(field, count) is None,
        count <= 0 ==> count_fault(field, count) == Some(
            Fault::InvalidInput(field + " must be greater than zero"@),
        ),
{
}

/// Of two faults the first is told; a call is refused for its fault and for
/// nothing else.
pub proof fn law_the_first_fault_is_told(
    a: Option<Fault>,
    b: Option<Fault>,
    r: CoreResult<()>,
)
    ensures
        a is Some ==> first(a, b) == a,
        a is None ==> first(a, b) == b,
        found(r, a) ==> (r is Ok <==> a is None),
        found(r, a) && a is Some ==> r->Err_0@ == a->Some_0,
{
}

/// A call with a fault is refused for it and changes nothing. Any other call
/// initialises the library where that is due, and asks the given device for
/// what it is about; a device that has no connection was not found.
pub proof fn law_calls_ask_connected_devices<C, H>(
    before: Runtime<C, H>,
    after: Runtime<C, H>,
    serial: Seq<char>,
    fault: Option<Fault>,
    call: CallModel,
    r: CoreResult<ClientCall>,
)
    requires
        client_call(before, after, serial, fault, call, r),
    ensures
        fault is Some ==> after == before && r is Err && r->Err_0@ == fault->Some_0,
        fault is None ==> after.state is Some,
        before.state is Some ==> after == before,
        fault is None ==> (r is Ok <==> before.state is Some
            && before.state->Some_0.connections@.contains_key(serial)),
        r is Ok ==> r->Ok_0.serial@ == serial && r->Ok_0.call@ == call,
        fault is None && r is Err ==> r->Err_0@ == Fault::DeviceNotFound(serial),
{
}

/// A command with a fault is refused for it; any other is given to `adb` as it
/// was asked for.
pub proof fn law_commands_are_given_as_asked(
    fault: Option<Fault>,
    command: AdbCommand<Seq<char>>,
    r: CoreResult<AdbCommand<String>>,
)
    requires
        adb_call(fault, command, r),
    ensures
        fault is Some ==> r is Err && r->Err_0@ == fault->Some_0,
        fault is None ==> r is Ok && r->Ok_0@ == command,
{
}

/// Shutting down hands back every stream and every connection that there was,
/// and leaves none; numbers that were handed out are not handed out again, and
/// the error that is remembered stays. Before the library was initialised
/// there is nothing to shut down.
pub proof fn law_shutting_down_hands_everything_back<C, H>(
    before: Runtime<C, H>,
    after: Runtime<C, H>,
    r: Option<Shutdown<C, H>>,
    id: u64,
    serial: Seq<char>,
)
    requires
        shut_down(before, after, r),
    ensures
        before.state is None ==> after.state is None && r is None,
        before.state is Some ==> ({
            let was = before.state->Some_0;
            let now = after.state->Some_0;
            let back = r->Some_0;
            &&& after.state is Some
            &&& r is Some
            &&& !now.rtb@.contains_key(id) && now.rtb.next_id() == was.rtb.next_id()
            &&& !now.cr@.contains_key(id) && now.cr.next_id() == was.cr.next_id()
            &&& !now.tc@.contains_key(id) && now.tc.next_id() == was.tc.next_id()
            &&& !now.cml@.contains_key(id) && now.cml.next_id() == was.cml.next_id()
            &&& !now.gc@.contains_key(id) && now.gc.next_id() == was.gc.next_id()
            &&& !now.connections@.contains_key(serial)
            &&& now.last_error@ == was.last_error@
            &&& back.rtb@ == was.rtb@
            &&& back.cr@ == was.cr@
            &&& back.tc@ == was.tc@
            &&& back.cml@ == was.cml@
            &&& back.gc@ == was.gc@
            &&& was.connections@.contains_key(serial) ==> exists|i: int|
                0 <= i < back.connections@.len() && (#[trigger] back.connections@[i]).serial@
                    == serial && back.connections@[i] == was.connections@[serial]
        }),
{
    if before.state is Some && before.state->Some_0.connections@.contains_key(serial) {
        let back = r->Some_0;
        let i = choose|i: int|
            0 <= i < back.connections@.len() && (#[trigger] back.connections@[i]).serial@ == serial;
        assert(back.connections@[i] == before.state->Some_0.connections@[serial]);
    }
}

/// Whether two states differ in nothing but the error that is remembered.
pub open spec fn streams_kept<C, H>(a: RuntimeState<C, H>, b: RuntimeState<C, H>) -> bool {
    &&& a.connections == b.connections
    &&& a.rtb == b.rtb
    &&& a.cr == b.cr
    &&& a.tc == b.tc
    &&& a.cml == b.cml
    &&& a.gc == b.gc
}

/// Remembering an error and handing it out touch neither connections nor
/// streams. Before the library was initialised no error is remembered, and an
/// empty one is handed out.
pub proof fn law_errors_touch_nothing_else<C, H>(
    before: Runtime<C, H>,
    msg: Seq<char>,
    after: Runtime<C, H>,
)
    ensures
        error_set(before, msg, after) ==> (after.state is Some <==> before.state is Some),
        error_set(before, msg, after) && before.state is Some ==> streams_kept(
            before.state->Some_0,
            after.state->Some_0,
        ) && after.state->Some_0.last_error@ == msg,
        error_taken(before, msg, after) ==> (after.state is Some <==> before.state is Some),
        error_taken(before, msg, after) && before.state is Some ==> streams_kept(
            before.state->Some_0,
            after.state->Some_0,
        ) && msg == before.state->Some_0.last_error@ && after.state->Some_0.last_error@.len() == 0,
        error_taken(before, msg, after) && before.state is None ==> msg.len() == 0,
{
}

/// A library that was just initialised has no connections and no streams, its
/// first numbers are one, and it remembers no error. Initialising it again
/// changes nothing.
pub proof fn law_a_fresh_library_is_empty<C, H>(
    before: Runtime<C, H>,
    created: bool,
    after: Runtime<C, H>,
    serial: Seq<char>,
    id: u64,
)
    requires
        initialized(before, created, after),
    ensures
        after.state is Some,
        before.state is Some ==> !created && after == before,
        before.state is None ==> ({
            let s = after.state->Some_0;
            &&& created
            &&& !s.connections@.contains_key(serial)
            &&& !s.rtb@.contains_key(id) && s.rtb.next_id() == 1
            &&& !s.cr@.contains_key(id) && s.cr.next_id() == 1
            &&& !s.tc@.contains_key(id) && s.tc.next_id() == 1
            &&& !s.cml@.contains_key(id) && s.cml.next_id() == 1
            &&& !s.gc@.contains_key(id) && s.gc.next_id() == 1
            &&& s.last_error@.len() == 0
        }),
{
}

/// A number that is handed out belongs to no handle, and handing it out
/// touches none; the next one is the number behind it.
pub proof fn law_numbers_are_handed_out_in_order<H>(
    before: HandleTable<H>,
    id: u64,
    after: HandleTable<H>,
)
    requires
        before.wf(),
        id_handed_out(before, id, after),
    ensures
        id > 0,
        !before@.contains_key(id),
        after@ == before@,
        after.next_id() == id + 1,
        id == before.next_id(),
{
}

} // verus!
