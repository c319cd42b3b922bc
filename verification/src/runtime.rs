//! The state behind the library's calls: connections by device, running
//! streams by handle, and the last error.
use std::collections::HashMap;
use vstd::prelude::*;
use crate::text::same_text;

verus! {

broadcast use vstd::std_specs::hash::group_hash_axioms;

// ---------------------------------------------------------------------------
// Connections
// ---------------------------------------------------------------------------

/// A connection to the daemon of a device. `C` is the type of the client that
/// calls the daemon's service.
pub struct ConnectionEntry<C> {
    pub serial: String,
    pub client: C,
    pub port: u16,
    pub daemon_low_overhead: bool,
}

/// The connections, at most one for each device.
pub struct ConnectionTable<C> {
    entries: Vec<ConnectionEntry<C>>,
}

/// The position of a device among entries, where it has one.
pub open spec fn position<C>(entries: Seq<ConnectionEntry<C>>, serial: Seq<char>) -> Option<int>
    decreases entries.len(),
{
    if entries.len() == 0 {
        None
    } else if entries.last().serial@ == serial {
        Some(entries.len() - 1)
    } else {
        position(entries.drop_last(), serial)
    }
}

impl<C> View for ConnectionTable<C> {
    type V = Map<Seq<char>, ConnectionEntry<C>>;

    closed spec fn view(&self) -> Map<Seq<char>, ConnectionEntry<C>> {
        Map::new(
            |serial: Seq<char>| position(self.entries@, serial) is Some,
            |serial: Seq<char>| self.entries@[position(self.entries@, serial)->Some_0],
        )
    }
}

proof fn lemma_position<C>(entries: Seq<ConnectionEntry<C>>, serial: Seq<char>)
    ensures
        match position(entries, serial) {
            Some(i) => 0 <= i < entries.len() && entries[i].serial@ == serial,
            None => forall|i: int|
                0 <= i < entries.len() ==> (#[trigger] entries[i]).serial@ != serial,
        },
    decreases entries.len(),
{
    if entries.len() > 0 && entries.last().serial@ != serial {
        lemma_position(entries.drop_last(), serial);
        if position(entries.drop_last(), serial) is None {
            assert forall|i: int| 0 <= i < entries.len() implies (#[trigger] entries[i]).serial@
                != serial by {
                if i < entries.len() - 1 {
                    assert(entries.drop_last()[i].serial@ != serial);
                }
            }
        }
    }
}

/// Whether `list` holds the entries of `table`, each once.
pub open spec fn lists_all<C>(
    table: Map<Seq<char>, ConnectionEntry<C>>,
    list: Seq<ConnectionEntry<C>>,
) -> bool {
    &&& forall|i: int, j: int|
        0 <= i < j < list.len() ==> (#[trigger] list[i]).serial@ != (#[trigger] list[j]).serial@
    &&& forall|i: int|
        0 <= i < list.len() ==> table.contains_key((#[trigger] list[i]).serial@)
            && table[list[i].serial@] == list[i]
    &&& forall|k: Seq<char>| #[trigger]
        table.contains_key(k) ==> exists|i: int|
            0 <= i < list.len() && (#[trigger] list[i]).serial@ == k
}

impl<C> ConnectionTable<C> {
    /// No device is connected twice.
    pub closed spec fn wf(&self) -> bool {
        forall|i: int, j: int|
            0 <= i < j < self.entries@.len() ==> (#[trigger] self.entries@[i]).serial@ != (
            #[trigger] self.entries@[j]).serial@
    }

    proof fn lemma_at(&self, i: int)
        requires
            self.wf(),
            0 <= i < self.entries@.len(),
        ensures
            position(self.entries@, self.entries@[i].serial@) == Some(i),
    {
        lemma_position(self.entries@, self.entries@[i].serial@);
    }

    /// The entry of a device is an entry for that device.
    pub proof fn law_entry_has_its_serial(&self, serial: Seq<char>)
        ensures
            self@.contains_key(serial) ==> self@[serial].serial@ == serial,
    {
        lemma_position(self.entries@, serial);
    }

    /// No connections.
    pub fn new() -> (t: ConnectionTable<C>)
        ensures
            t.wf(),
            t@ == Map::<Seq<char>, ConnectionEntry<C>>::empty(),
    {
        let t = ConnectionTable { entries: Vec::new() };
        assert(t@ =~= Map::<Seq<char>, ConnectionEntry<C>>::empty());
        t
    }

    fn find(&self, serial: &str) -> (r: Option<usize>)
        requires
            self.wf(),
        ensures
            match r {
                Some(i) => i < self.entries@.len() && position(self.entries@, serial@) == Some(
                    i as int,
                ),
                None => position(self.entries@, serial@) is None,
            },
    {
        let mut i: usize = 0;
        while i < self.entries.len()
            invariant
                self.wf(),
                i <= self.entries@.len(),
                forall|j: int| 0 <= j < i ==> (#[trigger] self.entries@[j]).serial@ != serial@,
            decreases self.entries.len() - i,
        {
            if same_text(self.entries[i].serial.as_str(), serial) {
                proof {
                    self.lemma_at(i as int);
                }
                return Some(i);
            }
            i += 1;
        }
        proof {
            lemma_position(self.entries@, serial@);
        }
        None
    }

    /// The connection of a device.
    pub fn get(&self, serial: &str) -> (r: Option<&ConnectionEntry<C>>)
        requires
            self.wf(),
        ensures
            self@.contains_key(serial@) ==> r == Some(&self@[serial@]),
            !self@.contains_key(serial@) ==> r is None,
    {
        match self.find(serial) {
            Some(i) => Some(&self.entries[i]),
            None => None,
        }
    }

    /// Whether a device is connected.
    pub fn contains_key(&self, serial: &str) -> (r: bool)
        requires
            self.wf(),
        ensures
            r == self@.contains_key(serial@),
    {
        self.find(serial).is_some()
    }

    /// Drops the connection of a device, and hands it back.
    pub fn remove(&mut self, serial: &str) -> (r: Option<ConnectionEntry<C>>)
        requires
            old(self).wf(),
        ensures
            final(self).wf(),
            final(self)@ == old(self)@.remove(serial@),
            old(self)@.contains_key(serial@) ==> r == Some(old(self)@[serial@]),
            !old(self)@.contains_key(serial@) ==> r is None,
    {
        match self.find(serial) {
            None => {
                assert(self@ =~= old(self)@.remove(serial@));
                None
            },
            Some(i) => {
                let entry = self.entries.remove(i);
                proof {
                    let before = old(self).entries@;
                    let after = self.entries@;
                    assert(after =~= before.remove(i as int));
                    assert forall|a: int, b: int| 0 <= a < b < after.len() implies (
                    #[trigger] after[a]).serial@ != (#[trigger] after[b]).serial@ by {
                        let a0 = if a < i { a } else { a + 1 };
                        let b0 = if b < i { b } else { b + 1 };
                        assert(before[a0].serial@ != before[b0].serial@);
                    }
                    old(self).lemma_at(i as int);
                    lemma_position(before, serial@);
                    assert forall|k: Seq<char>| #[trigger]
                        self@.contains_key(k) == old(self)@.remove(serial@).contains_key(k) && (
                        self@.contains_key(k) ==> self@[k] == old(self)@[k]) by {
                        lemma_position(before, k);
                        lemma_position(after, k);
                        if position(after, k) is Some {
                            let p = position(after, k)->Some_0;
                            let p0 = if p < i { p } else { p + 1 };
                            assert(before[p0] == after[p]);
                            old(self).lemma_at(p0);
                            if k == serial@ {
                                assert(before[p0].serial@ == before[i as int].serial@);
                                assert(false);
                            }
                        } else if position(before, k) is Some {
                            let p = position(before, k)->Some_0;
                            if p != i {
                                let p1 = if p < i { p } else { p - 1 };
                                assert(after[p1] == before[p]);
                            }
                        }
                    }
                    assert(self@ =~= old(self)@.remove(serial@));
                }
                Some(entry)
            },
        }
    }

    /// Keeps a connection for its device, in place of any other.
    pub fn insert(&mut self, entry: ConnectionEntry<C>)
        requires
            old(self).wf(),
        ensures
            final(self).wf(),
            final(self)@ == old(self)@.insert(entry.serial@, entry),
    {
        let _ = self.remove(entry.serial.as_str());
        let ghost mid = self.entries@;
        let ghost table = *self;
        self.entries.push(entry);
        proof {
            let after = self.entries@;
            assert(after.drop_last() =~= mid);
            assert(!table@.contains_key(entry.serial@));
            lemma_position(mid, entry.serial@);
            assert forall|a: int, b: int| 0 <= a < b < after.len() implies (
            #[trigger] after[a]).serial@ != (#[trigger] after[b]).serial@ by {
                if b < mid.len() {
                    assert(mid[a].serial@ != mid[b].serial@);
                } else {
                    assert(mid[a].serial@ != entry.serial@);
                }
            }
            assert forall|k: Seq<char>| #[trigger]
                self@.contains_key(k) == table@.insert(entry.serial@, entry).contains_key(k) && (
                self@.contains_key(k) ==> self@[k] == table@.insert(entry.serial@, entry)[k]) by {
                lemma_position(mid, k);
                lemma_position(after, k);
            }
            assert(self@ =~= table@.insert(entry.serial@, entry));
            assert(self@ =~= old(self)@.insert(entry.serial@, entry));
        }
    }

    /// Drops every connection, and hands them back.
    pub fn drain(&mut self) -> (r: Vec<ConnectionEntry<C>>)
        requires
            old(self).wf(),
        ensures
            final(self).wf(),
            final(self)@ == Map::<Seq<char>, ConnectionEntry<C>>::empty(),
            lists_all(old(self)@, r@),
    {
        let mut taken: Vec<ConnectionEntry<C>> = Vec::new();
        std::mem::swap(&mut taken, &mut self.entries);
        proof {
            assert forall|i: int| 0 <= i < taken@.len() implies old(self)@.contains_key(
                (#[trigger] taken@[i]).serial@,
            ) && old(self)@[taken@[i].serial@] == taken@[i] by {
                old(self).lemma_at(i);
            }
            assert forall|k: Seq<char>| #[trigger] old(self)@.contains_key(k) implies exists|i: int|
                0 <= i < taken@.len() && (#[trigger] taken@[i]).serial@ == k by {
                lemma_position(taken@, k);
            }
            assert(self@ =~= Map::<Seq<char>, ConnectionEntry<C>>::empty());
        }
        taken
    }
}

// ---------------------------------------------------------------------------
// Handles
// ---------------------------------------------------------------------------

/// Running streams by the number that was handed out for each.
pub struct HandleTable<H> {
    handles: HashMap<u64, H>,
    next: u64,
}

impl<H> View for HandleTable<H> {
    type V = Map<u64, H>;

    closed spec fn view(&self) -> Map<u64, H> {
        self.handles@
    }
}

impl<H> HandleTable<H> {
    /// The number that is handed out next.
    pub closed spec fn next_id(&self) -> u64 {
        self.next
    }

    /// Every handle was given a number that had been handed out.
    pub open spec fn wf(&self) -> bool {
        &&& 0 < self.next_id()
        &&& forall|id: u64| #[trigger] self@.contains_key(id) ==> 0 < id < self.next_id()
    }

    /// No handles; the first number is one.
    pub fn new() -> (t: HandleTable<H>)
        ensures
            t.wf(),
            t@ == Map::<u64, H>::empty(),
            t.next_id() == 1,
    {
        HandleTable { handles: HashMap::new(), next: 1 }
    }

    /// Whether another number can be handed out.
    pub fn has_next_id(&self) -> (r: bool)
        ensures
            r == (self.next_id() < u64::MAX),
    {
        self.next < u64::MAX
    }

    /// Hands out a number that was not handed out before.
    pub fn next_handle_id(&mut self) -> (id: u64)
        requires
            old(self).wf(),
            old(self).next_id() < u64::MAX,
        ensures
            final(self).wf(),
            id_handed_out(*old(self), id, *final(self)),
            !final(self)@.contains_key(id),
    {
        let id: u64 = self.next;
        self.next = id + 1;
        assert(self@ == old(self)@);
        id
    }

    /// Keeps a handle under a number that was handed out.
    pub fn insert(&mut self, id: u64, handle: H)
        requires
            old(self).wf(),
            0 < id < old(self).next_id(),
        ensures
            final(self).wf(),
            final(self)@ == old(self)@.insert(id, handle),
            final(self).next_id() == old(self).next_id(),
    {
        let _ = self.handles.insert(id, handle);
        assert(self@ == old(self)@.insert(id, handle));
    }

    /// The handle with a number.
    pub fn get(&self, id: u64) -> (r: Option<&H>)
        ensures
            self@.contains_key(id) ==> r == Some(&self@[id]),
            !self@.contains_key(id) ==> r is None,
    {
        self.handles.get(&id)
    }

    /// Drops the handle with a number, and hands it back.
    pub fn remove(&mut self, id: u64) -> (r: Option<H>)
        requires
            old(self).wf(),
        ensures
            final(self).wf(),
            final(self)@ == old(self)@.remove(id),
            final(self).next_id() == old(self).next_id(),
            old(self)@.contains_key(id) ==> r == Some(old(self)@[id]),
            !old(self)@.contains_key(id) ==> r is None,
    {
        let r = self.handles.remove(&id);
        assert(self@ =~= old(self)@.remove(id));
        r
    }

    /// Drops every handle, and hands them back. Numbers go on from where they
    /// were.
    pub fn drain(&mut self) -> (r: HashMap<u64, H>)
        requires
            old(self).wf(),
        ensures
            final(self).wf(),
            final(self)@ == Map::<u64, H>::empty(),
            final(self).next_id() == old(self).next_id(),
            r@ == old(self)@,
    {
        let mut taken: HashMap<u64, H> = HashMap::new();
        std::mem::swap(&mut taken, &mut self.handles);
        taken
    }
}

// ---------------------------------------------------------------------------
// The runtime's state
// ---------------------------------------------------------------------------

/// All that the library remembers between calls. `C` is the type of clients
/// and `H` that of running streams.
pub struct RuntimeState<C, H> {
    pub connections: ConnectionTable<C>,
    pub rtb: HandleTable<H>,
    pub cr: HandleTable<H>,
    pub tc: HandleTable<H>,
    pub cml: HandleTable<H>,
    pub gc: HandleTable<H>,
    pub last_error: String,
}

impl<C, H> RuntimeState<C, H> {
    pub open spec fn wf(&self) -> bool {
        &&& self.connections.wf()
        &&& self.rtb.wf()
        &&& self.cr.wf()
        &&& self.tc.wf()
        &&& self.cml.wf()
        &&& self.gc.wf()
    }

    /// Nothing is connected or running, and there was no error.
    pub open spec fn fresh(&self) -> bool {
        &&& self.connections@ == Map::<Seq<char>, ConnectionEntry<C>>::empty()
        &&& self.rtb@ == Map::<u64, H>::empty() && self.rtb.next_id() == 1
        &&& self.cr@ == Map::<u64, H>::empty() && self.cr.next_id() == 1
        &&& self.tc@ == Map::<u64, H>::empty() && self.tc.next_id() == 1
        &&& self.cml@ == Map::<u64, H>::empty() && self.cml.next_id() == 1
        &&& self.gc@ == Map::<u64, H>::empty() && self.gc.next_id() == 1
        &&& self.last_error@ == Seq::<char>::empty()
    }

    /// Whether two states differ in the connections at most.
    pub open spec fn same_but_connections(self, other: RuntimeState<C, H>) -> bool {
        &&& self.rtb == other.rtb
        &&& self.cr == other.cr
        &&& self.tc == other.tc
        &&& self.cml == other.cml
        &&& self.gc == other.gc
        &&& self.last_error == other.last_error
    }

    pub fn new() -> (s: RuntimeState<C, H>)
        ensures
            s.wf(),
            s.fresh(),
    {
        RuntimeState {
            connections: ConnectionTable::new(),
            rtb: HandleTable::new(),
            cr: HandleTable::new(),
            tc: HandleTable::new(),
            cml: HandleTable::new(),
            gc: HandleTable::new(),
            last_error: String::new(),
        }
    }
}

/// The runtime, which is there once it has been initialized.
pub struct Runtime<C, H> {
    pub state: Option<RuntimeState<C, H>>,
}

impl<C, H> Runtime<C, H> {
    pub open spec fn wf(&self) -> bool {
        self.state matches Some(s) ==> s.wf()
    }

    /// A runtime that was not initialized yet.
    pub fn new() -> (r: Runtime<C, H>)
        ensures
            r.wf(),
            r.state is None,
    {
        Runtime { state: None }
    }
}

/// Sets the runtime up, unless it already is. Whether it was set up just now.
pub fn init_runtime<C, H>(rt: &mut Runtime<C, H>) -> (created: bool)
    requires
        old(rt).wf(),
    ensures
        final(rt).wf(),
        initialized(*old(rt), created, *final(rt)),
{
    if rt.state.is_some() {
        return false;
    }
    rt.state = Some(RuntimeState::new());
    true
}

/// What is left to be done after a shutdown: the streams to cancel, kind by
/// kind, and then the connections over which to tell the daemons.
pub struct Shutdown<C, H> {
    pub rtb: HashMap<u64, H>,
    pub cr: HashMap<u64, H>,
    pub tc: HashMap<u64, H>,
    pub cml: HashMap<u64, H>,
    pub gc: HashMap<u64, H>,
    pub connections: Vec<ConnectionEntry<C>>,
}

/// What a shutdown does: see `shutdown_runtime`.
pub open spec fn shut_down<C, H>(
    before: Runtime<C, H>,
    after: Runtime<C, H>,
    r: Option<Shutdown<C, H>>,
) -> bool {
    match before.state {
        None => after.state is None && r is None,
        Some(s) => {
            &&& r is Some
            &&& after.state is Some
            &&& after.state->Some_0.connections@ == Map::<Seq<char>, ConnectionEntry<C>>::empty()
            &&& after.state->Some_0.rtb@ == Map::<u64, H>::empty()
            &&& after.state->Some_0.cr@ == Map::<u64, H>::empty()
            &&& after.state->Some_0.tc@ == Map::<u64, H>::empty()
            &&& after.state->Some_0.cml@ == Map::<u64, H>::empty()
            &&& after.state->Some_0.gc@ == Map::<u64, H>::empty()
            &&& after.state->Some_0.rtb.next_id() == s.rtb.next_id()
            &&& after.state->Some_0.cr.next_id() == s.cr.next_id()
            &&& after.state->Some_0.tc.next_id() == s.tc.next_id()
            &&& after.state->Some_0.cml.next_id() == s.cml.next_id()
            &&& after.state->Some_0.gc.next_id() == s.gc.next_id()
            &&& after.state->Some_0.last_error@ == s.last_error@
            &&& r->Some_0.rtb@ == s.rtb@
            &&& r->Some_0.cr@ == s.cr@
            &&& r->Some_0.tc@ == s.tc@
            &&& r->Some_0.cml@ == s.cml@
            &&& r->Some_0.gc@ == s.gc@
            &&& lists_all(s.connections@, r->Some_0.connections@)
        },
    }
}

/// Forgets every stream and every connection, and hands them back so that the
/// streams are cancelled and the daemons told. The runtime stays initialized:
/// numbers of handles are not handed out again, and the last error stays.
pub fn shutdown_runtime<C, H>(rt: &mut Runtime<C, H>) -> (r: Option<Shutdown<C, H>>)
    requires
        old(rt).wf(),
    ensures
        final(rt).wf(),
        shut_down(*old(rt), *final(rt), r),
{
    let mut taken: Option<RuntimeState<C, H>> = None;
    std::mem::swap(&mut taken, &mut rt.state);
    match taken {
        None => None,
        Some(mut state) => {
            let rtb = state.rtb.drain();
            let cr = state.cr.drain();
            let tc = state.tc.drain();
            let cml = state.cml.drain();
            let gc = state.gc.drain();
            let connections = state.connections.drain();
            rt.state = Some(state);
            Some(Shutdown { rtb, cr, tc, cml, gc, connections })
        },
    }
}

/// Hands out the number of a new benchmark stream.
pub fn next_rtb_handle_id<C, H>(state: &mut RuntimeState<C, H>) -> (id: u64)
    requires
        old(state).wf(),
        old(state).rtb.next_id() < u64::MAX,
    ensures
        final(state).wf(),
        id_handed_out(old(state).rtb, id, final(state).rtb),
        !final(state).rtb@.contains_key(id),
        final(state).connections == old(state).connections,
        final(state).cr == old(state).cr,
        final(state).tc == old(state).tc,
        final(state).cml == old(state).cml,
        final(state).gc == old(state).gc,
        final(state).last_error == old(state).last_error,
{
    state.rtb.next_handle_id()
}

/// Hands out the number of a new cache report stream.
pub fn next_cr_handle_id<C, H>(state: &mut RuntimeState<C, H>) -> (id: u64)
    requires
        old(state).wf(),
        old(state).cr.next_id() < u64::MAX,
    ensures
        final(state).wf(),
        id_handed_out(old(state).cr, id, final(state).cr),
        !final(state).cr@.contains_key(id),
        final(state).connections == old(state).connections,
        final(state).rtb == old(state).rtb,
        final(state).tc == old(state).tc,
        final(state).cml == old(state).cml,
        final(state).gc == old(state).gc,
        final(state).last_error == old(state).last_error,
{
    state.cr.next_handle_id()
}

/// Hands out the number of a new thread cache stream.
pub fn next_tc_handle_id<C, H>(state: &mut RuntimeState<C, H>) -> (id: u64)
    requires
        old(state).wf(),
        old(state).tc.next_id() < u64::MAX,
    ensures
        final(state).wf(),
        id_handed_out(old(state).tc, id, final(state).tc),
        !final(state).tc@.contains_key(id),
        final(state).connections == old(state).connections,
        final(state).rtb == old(state).rtb,
        final(state).cr == old(state).cr,
        final(state).cml == old(state).cml,
        final(state).gc == old(state).gc,
        final(state).last_error == old(state).last_error,
{
    state.tc.next_handle_id()
}

/// Hands out the number of a new latency stream.
pub fn next_cml_handle_id<C, H>(state: &mut RuntimeState<C, H>) -> (id: u64)
    requires
        old(state).wf(),
        old(state).cml.next_id() < u64::MAX,
    ensures
        final(state).wf(),
        id_handed_out(old(state).cml, id, final(state).cml),
        !final(state).cml@.contains_key(id),
        final(state).connections == old(state).connections,
        final(state).rtb == old(state).rtb,
        final(state).cr == old(state).cr,
        final(state).tc == old(state).tc,
        final(state).gc == old(state).gc,
        final(state).last_error == old(state).last_error,
{
    state.cml.next_handle_id()
}

/// Hands out the number of a new GPU counter stream.
pub fn next_gc_handle_id<C, H>(state: &mut RuntimeState<C, H>) -> (id: u64)
    requires
        old(state).wf(),
        old(state).gc.next_id() < u64::MAX,
    ensures
        final(state).wf(),
        id_handed_out(old(state).gc, id, final(state).gc),
        !final(state).gc@.contains_key(id),
        final(state).connections == old(state).connections,
        final(state).rtb == old(state).rtb,
        final(state).cr == old(state).cr,
        final(state).tc == old(state).tc,
        final(state).cml == old(state).cml,
        final(state).last_error == old(state).last_error,
{
    state.gc.next_handle_id()
}

/// Whether two states differ in the last error at most.
pub open spec fn same_but_error<C, H>(a: RuntimeState<C, H>, b: RuntimeState<C, H>) -> bool {
    &&& a.connections == b.connections
    &&& a.rtb == b.rtb
    &&& a.cr == b.cr
    &&& a.tc == b.tc
    &&& a.cml == b.cml
    &&& a.gc == b.gc
}

/// What remembering `msg` does: a runtime that is there holds it as its last
/// error, and nothing else changes.
pub open spec fn error_set<C, H>(
    before: Runtime<C, H>,
    msg: Seq<char>,
    after: Runtime<C, H>,
) -> bool {
    match before.state {
        None => after.state is None,
        Some(s) => after.state matches Some(t) && t.last_error@ == msg && same_but_error(s, t),
    }
}

/// What handing out the last error does: it is `msg`, the runtime holds none
/// any more, and nothing else changes.
pub open spec fn error_taken<C, H>(
    before: Runtime<C, H>,
    msg: Seq<char>,
    after: Runtime<C, H>,
) -> bool {
    match before.state {
        None => after.state is None && msg == Seq::<char>::empty(),
        Some(s) => {
            &&& msg == s.last_error@
            &&& after.state matches Some(t) && t.last_error@ == Seq::<char>::empty()
                && same_but_error(s, t)
        },
    }
}

/// Remembers an error, where the runtime is there to do so.
pub fn set_last_error<C, H>(rt: &mut Runtime<C, H>, msg: String)
    requires
        old(rt).wf(),
    ensures
        final(rt).wf(),
        error_set(*old(rt), msg@, *final(rt)),
{
    let mut taken: Option<RuntimeState<C, H>> = None;
    std::mem::swap(&mut taken, &mut rt.state);
    if let Some(mut state) = taken {
        state.last_error = msg;
        rt.state = Some(state);
    }
}

/// Hands the last error out and forgets it; an empty text where there is none.
pub fn take_last_error<C, H>(rt: &mut Runtime<C, H>) -> (msg: String)
    requires
        old(rt).wf(),
    ensures
        final(rt).wf(),
        error_taken(*old(rt), msg@, *final(rt)),
{
    let mut msg = String::new();
    let mut taken: Option<RuntimeState<C, H>> = None;
    std::mem::swap(&mut taken, &mut rt.state);
    if let Some(mut state) = taken {
        std::mem::swap(&mut msg, &mut state.last_error);
        rt.state = Some(state);
    }
    msg
}

/// An error that was remembered is handed out once: the first request for it
/// gives the error, and the next an empty text.
pub proof fn law_last_error_is_handed_out_once<C, H>(
    r0: Runtime<C, H>,
    msg: Seq<char>,
    r1: Runtime<C, H>,
    first: Seq<char>,
    r2: Runtime<C, H>,
    second: Seq<char>,
    r3: Runtime<C, H>,
)
    requires
        r0.state is Some,
        error_set(r0, msg, r1),
        error_taken(r1, first, r2),
        error_taken(r2, second, r3),
    ensures
        first == msg,
        second == Seq::<char>::empty(),
{
}

/// What handing out a number does to a table of handles.
pub open spec fn id_handed_out<H>(before: HandleTable<H>, id: u64, after: HandleTable<H>) -> bool {
    &&& id == before.next_id()
    &&& after.next_id() == id + 1
    &&& after@ == before@
}

/// No number is handed out twice: whatever handles come and go in between, a
/// later number is larger.
pub proof fn law_handle_ids_are_unique<H>(
    t0: HandleTable<H>,
    first: u64,
    t1: HandleTable<H>,
    t2: HandleTable<H>,
    second: u64,
    t3: HandleTable<H>,
)
    requires
        id_handed_out(t0, first, t1),
        t1.next_id() <= t2.next_id(),
        id_handed_out(t2, second, t3),
    ensures
        first < second,
{
}

/// What initialization does: where the runtime is not there, it is set up
/// fresh, and else nothing changes.
pub open spec fn initialized<C, H>(
    before: Runtime<C, H>,
    created: bool,
    after: Runtime<C, H>,
) -> bool {
    &&& after.state is Some
    &&& created == (before.state is None)
    &&& created ==> after.state->Some_0.fresh()
    &&& !created ==> after == before
}

/// Initialization is idempotent.
pub proof fn law_initialization_is_idempotent<C, H>(
    r0: Runtime<C, H>,
    first: bool,
    r1: Runtime<C, H>,
    second: bool,
    r2: Runtime<C, H>,
)
    requires
        initialized(r0, first, r1),
        initialized(r1, second, r2),
    ensures
        !second,
        r2 == r1,
{
}

} // verus!
