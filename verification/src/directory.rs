//! The device directory: the consumer-side authoritative, deduplicated map
//! of address to device record, kept current by applying the event stream in
//! arrival order.

use vstd::prelude::*;
use crate::device::{BluetoothDevice, DeviceModel};
use crate::error::{AppError, ErrorModel};
use crate::event::{Event, EventModel};

verus! {

/// A record after a connect or disconnect event: the link flag is replaced,
/// every other field is kept.
pub open spec fn connect_update(d: DeviceModel, connected: bool) -> DeviceModel {
    DeviceModel {
        address: d.address,
        name: d.name,
        connected,
        authenticated: d.authenticated,
        rssi: d.rssi,
        cod: d.cod,
    }
}

/// The address a connect or disconnect event refers to.
pub open spec fn link_address(e: EventModel) -> u64
    recommends
        e is Connected || e is Disconnected,
{
    match e {
        EventModel::Connected(a) => a,
        EventModel::Disconnected(a) => a,
        _ => arbitrary(),
    }
}

/// The device snapshot a device-observed event carries.
pub open spec fn observed_device(e: EventModel) -> DeviceModel
    recommends
        e is DeviceObserved,
{
    match e {
        EventModel::DeviceObserved(d) => d,
        _ => arbitrary(),
    }
}

/// What one event does to the directory: a device observation upserts its
/// snapshot by address; a connect or disconnect event replaces the link flag
/// of an existing record and is dropped when no record exists; every other
/// event leaves the directory alone.
pub open spec fn apply_transition(m: Map<u64, DeviceModel>, e: EventModel) -> Map<u64, DeviceModel> {
    match e {
        EventModel::DeviceObserved(d) => m.insert(d.address, d),
        EventModel::Connected(a) => if m.contains_key(a) {
            m.insert(a, connect_update(m[a], true))
        } else {
            m
        },
        EventModel::Disconnected(a) => if m.contains_key(a) {
            m.insert(a, connect_update(m[a], false))
        } else {
            m
        },
        _ => m,
    }
}

/// Whether an event is in order for this directory. Only a connect or
/// disconnect event referencing an address with no record is anomalous.
pub open spec fn accepts(m: Map<u64, DeviceModel>, e: EventModel) -> bool {
    match e {
        EventModel::Connected(a) => m.contains_key(a),
        EventModel::Disconnected(a) => m.contains_key(a),
        _ => true,
    }
}

/// A whole event sequence folded into the directory, first event first.
pub open spec fn apply_all(m: Map<u64, DeviceModel>, es: Seq<EventModel>) -> Map<u64, DeviceModel>
    decreases es.len(),
{
    if es.len() == 0 {
        m
    } else {
        apply_transition(apply_all(m, es.drop_last()), es.last())
    }
}

/// No two positions of the sequence hold the same address.
pub open spec fn unique_addresses(s: Seq<DeviceModel>) -> bool {
    forall|i: int, j: int| 0 <= i < j < s.len() ==> s[i].address != s[j].address
}

/// The map a record sequence denotes: each record keyed by its address,
/// later positions winning.
pub open spec fn seq_to_map(s: Seq<DeviceModel>) -> Map<u64, DeviceModel>
    decreases s.len(),
{
    if s.len() == 0 {
        Map::empty()
    } else {
        seq_to_map(s.drop_last()).insert(s.last().address, s.last())
    }
}

/// A key is in the denoted map exactly when some record holds its address.
pub proof fn lemma_seq_to_map_contains(s: Seq<DeviceModel>, a: u64)
    ensures
        seq_to_map(s).contains_key(a) <==> (exists|i: int| 0 <= i < s.len() && s[i].address == a),
    decreases s.len(),
{
    if s.len() > 0 {
        lemma_seq_to_map_contains(s.drop_last(), a);
        if s.last().address == a {
            assert(s[s.len() - 1].address == a);
        } else if seq_to_map(s).contains_key(a) {
            let i = choose|i: int| 0 <= i < s.len() - 1 && s.drop_last()[i].address == a;
            assert(s[i].address == a);
        } else if exists|i: int| 0 <= i < s.len() && s[i].address == a {
            let i = choose|i: int| 0 <= i < s.len() && s[i].address == a;
            assert(s.drop_last()[i].address == a);
        }
    }
}

/// With unique addresses, each record is the denoted map's value at its
/// address.
pub proof fn lemma_seq_to_map_index(s: Seq<DeviceModel>, i: int)
    requires
        unique_addresses(s),
        0 <= i < s.len(),
    ensures
        seq_to_map(s).contains_key(s[i].address),
        seq_to_map(s)[s[i].address] == s[i],
    decreases s.len(),
{
    if i < s.len() - 1 {
        assert(unique_addresses(s.drop_last()));
        lemma_seq_to_map_index(s.drop_last(), i);
        assert(s.drop_last()[i] == s[i]);
        assert(s[i].address != s.last().address);
    }
}

/// With unique addresses, the denoted map has exactly one entry per record.
pub proof fn lemma_seq_to_map_len(s: Seq<DeviceModel>)
    requires
        unique_addresses(s),
    ensures
        seq_to_map(s).dom().finite(),
        seq_to_map(s).len() == s.len(),
    decreases s.len(),
{
    if s.len() == 0 {
        assert(seq_to_map(s).dom() =~= Set::<u64>::empty());
    } else {
        assert(unique_addresses(s.drop_last()));
        lemma_seq_to_map_len(s.drop_last());
        lemma_seq_to_map_contains(s.drop_last(), s.last().address);
        assert(forall|i: int| 0 <= i < s.len() - 1 ==> s.drop_last()[i] == s[i]);
        assert(!seq_to_map(s.drop_last()).contains_key(s.last().address));
    }
}

/// Replacing the record at one position, address kept, is insertion into the
/// denoted map.
pub proof fn lemma_seq_to_map_update(s: Seq<DeviceModel>, i: int, d: DeviceModel)
    requires
        unique_addresses(s),
        0 <= i < s.len(),
        d.address == s[i].address,
    ensures
        seq_to_map(s.update(i, d)) == seq_to_map(s).insert(d.address, d),
    decreases s.len(),
{
    let t = s.update(i, d);
    if i == s.len() - 1 {
        assert(t.drop_last() =~= s.drop_last());
        assert(t.last() == d);
        assert(seq_to_map(t) =~= seq_to_map(s).insert(d.address, d));
    } else {
        assert(unique_addresses(s.drop_last()));
        assert(s.drop_last()[i] == s[i]);
        lemma_seq_to_map_update(s.drop_last(), i, d);
        assert(t.drop_last() =~= s.drop_last().update(i, d));
        assert(t.last() == s.last());
        assert(d.address != s.last().address);
        assert(seq_to_map(t) =~= seq_to_map(s).insert(d.address, d));
    }
}

/// Consumer-side directory of known devices, deduplicated by address.
/// Mutated only by applying events; viewed as the map each address' record.
pub struct DeviceDirectory {
    records: Vec<BluetoothDevice>,
}

impl View for DeviceDirectory {
    type V = Map<u64, DeviceModel>;

    closed spec fn view(&self) -> Map<u64, DeviceModel> {
        seq_to_map(self.seq())
    }
}

impl DeviceDirectory {
    /// The stored records, in insertion order, as models.
    pub closed spec fn seq(&self) -> Seq<DeviceModel> {
        self.records@.map_values(|d: BluetoothDevice| d@)
    }

    /// Internal validity: at most one record per address.
    pub closed spec fn wf(&self) -> bool {
        unique_addresses(self.seq())
    }

    /// An empty directory.
    pub fn new() -> (r: DeviceDirectory)
        ensures
            r.wf(),
            r@ == Map::<u64, DeviceModel>::empty(),
            r.seq() == Seq::<DeviceModel>::empty(),
    {
        let d = DeviceDirectory { records: Vec::new() };
        proof {
            assert(d.seq() =~= Seq::<DeviceModel>::empty());
        }
        d
    }

    /// Position of the record for an address, if one exists.
    fn find_index(&self, address: u64) -> (r: Option<usize>)
        ensures
            r matches Some(i) ==> i < self.seq().len() && self.seq()[i as int].address == address,
            r is None ==> forall|i: int| 0 <= i < self.seq().len() ==> self.seq()[i].address != address,
    {
        let mut i: usize = 0;
        while i < self.records.len()
            invariant
                i <= self.records.len(),
                forall|j: int| 0 <= j < i ==> self.seq()[j].address != address,
            decreases self.records.len() - i,
        {
            if self.records[i].address == address {
                return Some(i);
            }
            i += 1;
        }
        None
    }

    /// Apply one event, atomically: the directory afterwards is exactly the
    /// transition the event denotes. A connect or disconnect event for an
    /// unknown address changes nothing and reports the anomaly; it never
    /// fails the consumer.
    pub fn apply(&mut self, event: Event) -> (r: Result<(), AppError>)
        requires
            old(self).wf(),
        ensures
            final(self).wf(),
            final(self)@ == apply_transition(old(self)@, event@),
            r is Ok <==> accepts(old(self)@, event@),
            !accepts(old(self)@, event@) ==> (final(self)@ == old(self)@ && (r matches Err(e)
                && e@ == ErrorModel::AnomalousEvent(link_address(event@)))),
    {
        match event {
            Event::DeviceObserved(dev) => {
                let ghost pre = self.seq();
                let ghost dm = dev@;
                match self.find_index(dev.address) {
                    Some(i) => {
                        proof {
                            lemma_seq_to_map_update(pre, i as int, dm);
                        }
                        self.records[i] = dev;
                        proof {
                            assert(self.seq() =~= pre.update(i as int, dm));
                            assert(unique_addresses(self.seq()));
                        }
                    },
                    None => {
                        self.records.push(dev);
                        proof {
                            assert(self.seq() =~= pre.push(dm));
                            assert(self.seq().drop_last() =~= pre);
                            assert(unique_addresses(self.seq()));
                        }
                    },
                }
                Ok(())
            },
            Event::Connected(a) => self.set_link(a, true),
            Event::Disconnected(a) => self.set_link(a, false),
            Event::ScanStarted => Ok(()),
            Event::ScanStopped => Ok(()),
            Event::Error(_) => Ok(()),
        }
    }

    /// Replace the link flag of the record for `address`, in place; report an
    /// anomaly, touching nothing, when no record exists.
    fn set_link(&mut self, address: u64, connected: bool) -> (r: Result<(), AppError>)
        requires
            old(self).wf(),
        ensures
            final(self).wf(),
            old(self)@.contains_key(address) ==> (r is Ok && final(self)@ == old(self)@.insert(
                address,
                connect_update(old(self)@[address], connected),
            )),
            !old(self)@.contains_key(address) ==> (final(self)@ == old(self)@ && (r matches Err(e)
                && e@ == ErrorModel::AnomalousEvent(address))),
    {
        let ghost pre = self.seq();
        match self.find_index(address) {
            Some(i) => {
                let mut updated = self.records[i].clone();
                updated.connected = connected;
                let ghost um = updated@;
                proof {
                    lemma_seq_to_map_index(pre, i as int);
                    assert(um == connect_update(pre[i as int], connected));
                    lemma_seq_to_map_update(pre, i as int, um);
                }
                self.records[i] = updated;
                proof {
                    assert(self.seq() =~= pre.update(i as int, um));
                    assert(unique_addresses(self.seq()));
                }
                Ok(())
            },
            None => {
                proof {
                    lemma_seq_to_map_contains(pre, address);
                }
                Err(AppError::AnomalousEvent(address))
            },
        }
    }

    /// A consistent point-in-time copy of every record. The order of the
    /// copy carries no meaning; only membership and field values do.
    pub fn snapshot(&self) -> (r: Vec<BluetoothDevice>)
        requires
            self.wf(),
        ensures
            r@.map_values(|d: BluetoothDevice| d@) == self.seq(),
            unique_addresses(r@.map_values(|d: BluetoothDevice| d@)),
            seq_to_map(r@.map_values(|d: BluetoothDevice| d@)) == self@,
    {
        let mut out: Vec<BluetoothDevice> = Vec::new();
        let mut i: usize = 0;
        while i < self.records.len()
            invariant
                i <= self.records.len(),
                out@.len() == i,
                forall|j: int| 0 <= j < i ==> out@[j]@ == self.seq()[j],
            decreases self.records.len() - i,
        {
            out.push(self.records[i].clone());
            i += 1;
        }
        proof {
            assert(out@.map_values(|d: BluetoothDevice| d@) =~= self.seq());
        }
        out
    }

    /// The record for an address, if one exists.
    pub fn get(&self, address: u64) -> (r: Option<&BluetoothDevice>)
        requires
            self.wf(),
        ensures
            r matches Some(d) ==> self@.contains_key(address) && d@ == self@[address],
            r is None ==> !self@.contains_key(address),
    {
        let ghost pre = self.seq();
        match self.find_index(address) {
            Some(i) => {
                proof {
                    lemma_seq_to_map_index(pre, i as int);
                }
                Some(&self.records[i])
            },
            None => {
                proof {
                    lemma_seq_to_map_contains(pre, address);
                }
                None
            },
        }
    }

    /// How many devices are known.
    pub fn len(&self) -> (r: usize)
        requires
            self.wf(),
        ensures
            r == self@.len(),
            r == self.seq().len(),
    {
        proof {
            lemma_seq_to_map_len(self.seq());
        }
        self.records.len()
    }
}

/// Dedup invariant: folding any nonempty run of device observations for one
/// address into a directory leaves exactly one entry for that address — the
/// last observation's snapshot — and every other address exactly as it was.
pub proof fn lemma_observed_dedup(m: Map<u64, DeviceModel>, es: Seq<EventModel>, a: u64)
    requires
        es.len() > 0,
        forall|i: int| 0 <= i < es.len() ==> es[i] is DeviceObserved && observed_device(es[i]).address == a,
    ensures
        apply_all(m, es).contains_key(a),
        apply_all(m, es)[a] == observed_device(es.last()),
        apply_all(m, es).dom() == m.dom().insert(a),
        forall|b: u64| b != a && m.contains_key(b) ==> apply_all(m, es)[b] == m[b],
        forall|b: u64| b != a && !m.contains_key(b) ==> !apply_all(m, es).contains_key(b),
    decreases es.len(),
{
    assert(es[es.len() - 1] == es.last());
    if es.len() == 1 {
        assert(apply_all(m, es.drop_last()) == m);
        assert(apply_all(m, es).dom() =~= m.dom().insert(a));
    } else {
        assert(forall|i: int| 0 <= i < es.drop_last().len() ==> es.drop_last()[i] == es[i]);
        lemma_observed_dedup(m, es.drop_last(), a);
        assert(apply_all(m, es).dom() =~= m.dom().insert(a));
    }
}

/// Ordering: the effects of two events applied through the channel are
/// observed in order — folding `[e1, e2]` is applying `e1` first and `e2` to
/// the result, never the reverse.
pub proof fn lemma_apply_in_order(m: Map<u64, DeviceModel>, e1: EventModel, e2: EventModel)
    ensures
        apply_all(m, seq![e1, e2]) == apply_transition(apply_transition(m, e1), e2),
{
    let s1 = Seq::<EventModel>::empty().push(e1);
    lemma_apply_all_push(m, Seq::<EventModel>::empty(), e1);
    lemma_apply_all_push(m, s1, e2);
    assert(apply_all(m, Seq::<EventModel>::empty()) == m);
    assert(s1.push(e2) =~= seq![e1, e2]);
}

/// Folding one more event is applying it to the fold of the rest.
pub proof fn lemma_apply_all_push(m: Map<u64, DeviceModel>, es: Seq<EventModel>, e: EventModel)
    ensures
        apply_all(m, es.push(e)) == apply_transition(apply_all(m, es), e),
{
    assert(es.push(e).drop_last() =~= es);
    assert(es.push(e).last() == e);
}

/// Two drained batches applied one after the other have the same effect as
/// their concatenation applied at once: the channel introduces no reordering
/// across batch boundaries.
pub proof fn lemma_apply_all_concat(m: Map<u64, DeviceModel>, a: Seq<EventModel>, b: Seq<
    EventModel,
>)
    ensures
        apply_all(m, a + b) == apply_all(apply_all(m, a), b),
    decreases b.len(),
{
    if b.len() == 0 {
        assert(a + b =~= a);
    } else {
        lemma_apply_all_concat(m, a, b.drop_last());
        assert((a + b).drop_last() =~= a + b.drop_last());
        assert((a + b).last() == b.last());
    }
}

/// Whether an event can touch the record for an address: only its own
/// observation and its own link events can.
pub open spec fn concerns(e: EventModel, a: u64) -> bool {
    match e {
        EventModel::DeviceObserved(d) => d.address == a,
        EventModel::Connected(b) => b == a,
        EventModel::Disconnected(b) => b == a,
        _ => false,
    }
}

/// Cross-address isolation: an event for one address leaves every other
/// address' record, present or absent, exactly as it was.
pub proof fn lemma_unrelated_event_preserves_record(
    m: Map<u64, DeviceModel>,
    e: EventModel,
    a: u64,
)
    requires
        !concerns(e, a),
    ensures
        apply_transition(m, e).contains_key(a) == m.contains_key(a),
        m.contains_key(a) ==> apply_transition(m, e)[a] == m[a],
{
}

/// Idempotent connect: a connect event for an address whose record is
/// already connected leaves the directory exactly as it was.
pub proof fn lemma_idempotent_connect(m: Map<u64, DeviceModel>, a: u64)
    requires
        m.contains_key(a),
        m[a].connected,
    ensures
        apply_transition(m, EventModel::Connected(a)) == m,
{
    assert(connect_update(m[a], true) =~= m[a]);
    assert(m.insert(a, m[a]) =~= m);
}

/// Anomalous event tolerance: a connect or disconnect event for an unknown
/// address does not create a record — the directory is left exactly as it
/// was.
pub proof fn lemma_anomalous_event_skipped(m: Map<u64, DeviceModel>, e: EventModel)
    requires
        e is Connected || e is Disconnected,
        !m.contains_key(link_address(e)),
    ensures
        apply_transition(m, e) == m,
{
}

} // verus!
