//! Connections: the RTP packets exchanged with one remote endpoint.

use super::{
    lemma_insert_to_multiset, packet_views, Endpoint, FlowData, FlowDataView, FlowDirection, FlowHeader, FlowPacket,
    FlowPacketView, FlowPayload, FlowType,
};
use std::collections::HashMap;
use vstd::std_specs::iter::IteratorSpec;
use vstd::prelude::*;

verus! {

broadcast use vstd::std_specs::hash::group_hash_axioms;

/// Kind and endpoints of a connection.
#[derive(Debug, Clone, Copy, PartialEq, Eq, Structural)]
pub struct ConnectionHeader {
    pub ftype: FlowType,
    pub local: Endpoint,
    pub remote: Endpoint,
}

/// The packets exchanged with one remote endpoint, in arrival order.
#[derive(Debug, Clone, PartialEq, Eq)]
pub struct Connection {
    pub header: ConnectionHeader,
    pub ingress_pkts: Vec<FlowPacket>,
    pub egress_pkts: Vec<FlowPacket>,
}

/// The mathematical value of a [`Connection`].
pub struct ConnectionView {
    pub header: ConnectionHeader,
    pub ingress: Seq<FlowPacketView>,
    pub egress: Seq<FlowPacketView>,
}

impl View for Connection {
    type V = ConnectionView;

    open spec fn view(&self) -> ConnectionView {
        ConnectionView {
            header: self.header,
            ingress: packet_views(self.ingress_pkts@),
            egress: packet_views(self.egress_pkts@),
        }
    }
}

/// Whether every packet of `pkts` is an RTP packet with the
/// synchronisation source of the first.
pub open spec fn one_source(pkts: Seq<FlowPacketView>) -> bool {
    forall|i: int|
        0 <= i < pkts.len() ==> (#[trigger] pkts[i]).is_rtp() && pkts[i].rtp_header().unwrap().ssrc
            == pkts[0].rtp_header().unwrap().ssrc
}

/// The synchronisation source of the first packet, if that is an RTP packet.
pub open spec fn first_ssrc(pkts: Seq<FlowPacketView>) -> Option<u32> {
    if pkts.len() > 0 && pkts[0].is_rtp() {
        Some(pkts[0].rtp_header().unwrap().ssrc)
    } else {
        None
    }
}

/// The capture times of the first and the last packet.
pub open spec fn ts_range(pkts: Seq<FlowPacketView>) -> Option<(u64, u64)> {
    if pkts.len() > 0 {
        Some((pkts[0].ts, pkts.last().ts))
    } else {
        None
    }
}

impl ConnectionView {
    /// Both directions have seen a packet.
    pub open spec fn valid(self) -> bool {
        self.ingress.len() > 0 && self.egress.len() > 0
    }

    /// The connection carries RTP only, and each direction carries one
    /// synchronisation source.
    pub open spec fn wf(self) -> bool {
        &&& one_source(self.ingress)
        &&& one_source(self.egress)
    }
}

fn first_packet_ssrc(pkts: &Vec<FlowPacket>) -> (r: Option<u32>)
    ensures
        r == first_ssrc(packet_views(pkts@)),
{
    if pkts.len() > 0 {
        if let FlowPayload::Rtp(ref rtp) = pkts[0].payload {
            return Some(rtp.header.ssrc);
        }
    }
    None
}

fn packets_ts_range(pkts: &Vec<FlowPacket>) -> (r: Option<(u64, u64)>)
    ensures
        r == ts_range(packet_views(pkts@)),
{
    if pkts.len() > 0 {
        Some((pkts[0].ts, pkts[pkts.len() - 1].ts))
    } else {
        None
    }
}

/// A copy of a list of packets.
pub fn duplicate_packets(pkts: &Vec<FlowPacket>) -> (r: Vec<FlowPacket>)
    ensures
        packet_views(r@) == packet_views(pkts@),
{
    let mut out: Vec<FlowPacket> = Vec::with_capacity(pkts.len());
    let mut i: usize = 0;
    while i < pkts.len()
        invariant
            i <= pkts.len(),
            out.len() == i,
            forall|k: int| 0 <= k < i ==> out[k]@ == pkts[k]@,
        decreases pkts.len() - i,
    {
        out.push(pkts[i].duplicate());
        i += 1;
    }
    out
}

impl Connection {
    /// Whether both directions have seen a packet.
    pub fn valid(&self) -> (r: bool)
        ensures
            r == self@.valid(),
    {
        !self.ingress_pkts.is_empty() && !self.egress_pkts.is_empty()
    }

    /// Capture times of the first and the last ingress packet.
    pub fn ingress_tsrange(&self) -> (r: Option<(u64, u64)>)
        ensures
            r == ts_range(self@.ingress),
    {
        packets_ts_range(&self.ingress_pkts)
    }

    /// Synchronisation source of the first ingress packet.
    pub fn ingress_ssrc(&self) -> (r: Option<u32>)
        ensures
            r == first_ssrc(self@.ingress),
    {
        first_packet_ssrc(&self.ingress_pkts)
    }

    /// Capture times of the first and the last egress packet.
    pub fn egress_tsrange(&self) -> (r: Option<(u64, u64)>)
        ensures
            r == ts_range(self@.egress),
    {
        packets_ts_range(&self.egress_pkts)
    }

    /// Synchronisation source of the first egress packet.
    pub fn egress_ssrc(&self) -> (r: Option<u32>)
        ensures
            r == first_ssrc(self@.egress),
    {
        first_packet_ssrc(&self.egress_pkts)
    }

    /// A copy of the connection.
    pub fn duplicate(&self) -> (r: Connection)
        ensures
            r@ == self@,
    {
        Connection {
            header: self.header,
            ingress_pkts: duplicate_packets(&self.ingress_pkts),
            egress_pkts: duplicate_packets(&self.egress_pkts),
        }
    }
}

/// The values of the connections of a list, in order.
pub open spec fn connection_views(conns: Seq<Connection>) -> Seq<ConnectionView> {
    conns.map_values(|c: Connection| c@)
}

/// What connections are filed under: the remote endpoint.
#[derive(Debug, Clone, Copy, PartialEq, Eq, Hash, Structural)]
pub struct ConnectionKey {
    pub remote: Endpoint,
}

impl ConnectionKey {
    /// The number that stands for the key: the address in the upper bits,
    /// the port in the lowest sixteen.
    pub open spec fn spec_index(self) -> u64 {
        (self.remote.ip * 0x1_0000 + self.remote.port) as u64
    }

    /// The number that stands for the key. Two keys have the same number
    /// only if they are equal.
    pub fn index(&self) -> (r: u64)
        ensures
            r == self.spec_index(),
    {
        self.remote.ip as u64 * 0x1_0000 + self.remote.port as u64
    }
}

/// Different keys have different numbers.
pub proof fn lemma_key_index_injective(a: ConnectionKey, b: ConnectionKey)
    ensures
        a.spec_index() == b.spec_index() <==> a == b,
{
}

/// How far, in microseconds, the first packet of one direction may lie
/// from the packets of the other direction of its connection.
pub const THRESHOLD_MICROS: u64 = 1_000_000;

/// The packets of `c` that travel in direction `dir`.
pub open spec fn same_direction(c: ConnectionView, dir: FlowDirection) -> Seq<FlowPacketView> {
    match dir {
        FlowDirection::Ingress => c.ingress,
        FlowDirection::Egress => c.egress,
    }
}

/// The packets of `c` that travel against direction `dir`.
pub open spec fn opposite_direction(c: ConnectionView, dir: FlowDirection) -> Seq<
    FlowPacketView,
> {
    match dir {
        FlowDirection::Ingress => c.egress,
        FlowDirection::Egress => c.ingress,
    }
}

/// Whether the connection `c` takes a packet captured at `ts` that
/// travels in direction `dir` and carries the source `ssrc`.
///
/// A connection that knows the source of that direction takes the packet
/// if the sources are equal. One that does not, but has packets in the
/// other direction, takes it if `ts` lies no more than
/// [`THRESHOLD_MICROS`] before the first or after the last of them.
pub open spec fn accepts(c: ConnectionView, ts: u64, dir: FlowDirection, ssrc: u32) -> bool {
    match first_ssrc(same_direction(c, dir)) {
        Some(known) => known == ssrc,
        None => match ts_range(opposite_direction(c, dir)) {
            Some((first, last)) => first - THRESHOLD_MICROS <= ts <= last + THRESHOLD_MICROS,
            None => false,
        },
    }
}

/// The newest connection of `list` that takes the packet.
pub open spec fn spec_find_conn(
    list: Seq<ConnectionView>,
    ts: u64,
    dir: FlowDirection,
    ssrc: u32,
) -> Option<int>
    decreases list.len(),
{
    if list.len() == 0 {
        None
    } else if accepts(list.last(), ts, dir, ssrc) {
        Some(list.len() - 1)
    } else {
        spec_find_conn(list.drop_last(), ts, dir, ssrc)
    }
}

/// An empty connection between the endpoints of a datagram.
pub open spec fn spec_make_conn(header: FlowHeader) -> ConnectionView {
    ConnectionView {
        header: ConnectionHeader { ftype: header.ftype, local: header.local, remote: header.remote },
        ingress: Seq::empty(),
        egress: Seq::empty(),
    }
}

/// The connection `c` with the datagram `d` behind the packets of its
/// direction.
pub open spec fn spec_with_packet(c: ConnectionView, d: FlowDataView) -> ConnectionView {
    match d.header.dir {
        FlowDirection::Ingress => ConnectionView { ingress: c.ingress.push(d.packet()), ..c },
        FlowDirection::Egress => ConnectionView { egress: c.egress.push(d.packet()), ..c },
    }
}

/// The connections of one remote endpoint after the RTP datagram `d`:
/// the newest connection that takes it has it, or else a new connection
/// at the end of the list.
pub open spec fn spec_list_with(list: Seq<ConnectionView>, d: FlowDataView) -> Seq<
    ConnectionView,
> {
    match spec_find_conn(list, d.ts, d.header.dir, d.payload.rtp_header().unwrap().ssrc) {
        Some(at) => list.update(at, spec_with_packet(list[at], d)),
        None => list.push(spec_with_packet(spec_make_conn(d.header), d)),
    }
}

/// The connections seen so far, by remote endpoint.
pub struct ConnectionMap {
    /// The connections of each remote endpoint, oldest first, under the
    /// number of its key.
    pub map: HashMap<u64, Vec<Connection>>,
}

impl View for ConnectionMap {
    type V = Map<u64, Seq<ConnectionView>>;

    open spec fn view(&self) -> Map<u64, Seq<ConnectionView>> {
        Map::new(|k: u64| self.map@.contains_key(k), |k: u64| connection_views(self.map@[k]@))
    }
}

/// The connections of `m` after the datagram `d`. Only an RTP datagram
/// changes them.
pub open spec fn spec_map_with(m: Map<u64, Seq<ConnectionView>>, d: FlowDataView) -> Map<
    u64,
    Seq<ConnectionView>,
> {
    if d.payload is Rtp {
        let key = ConnectionKey { remote: d.header.remote }.spec_index();
        let list = if m.contains_key(key) {
            m[key]
        } else {
            Seq::empty()
        };
        m.insert(key, spec_list_with(list, d))
    } else {
        m
    }
}

/// Whether the connections of a map are sound: each is filed under its
/// own remote endpoint, and in each direction all its packets are RTP
/// packets of one synchronisation source.
pub open spec fn sound(m: Map<u64, Seq<ConnectionView>>) -> bool {
    forall|k: u64, i: int|
        m.contains_key(k) && 0 <= i < m[k].len() ==> {
            let c = #[trigger] m[k][i];
            &&& c.wf()
            &&& ConnectionKey { remote: c.header.remote }.spec_index() == k
        }
}

/// Where the search for a connection ends: at one that takes the packet,
/// behind which none does.
pub proof fn lemma_find_conn(list: Seq<ConnectionView>, ts: u64, dir: FlowDirection, ssrc: u32)
    ensures
        match spec_find_conn(list, ts, dir, ssrc) {
            Some(at) => {
                &&& 0 <= at < list.len()
                &&& accepts(list[at], ts, dir, ssrc)
                &&& forall|j: int| at < j < list.len() ==> !accepts(#[trigger] list[j], ts, dir, ssrc)
            },
            None => forall|j: int| 0 <= j < list.len() ==> !accepts(#[trigger] list[j], ts, dir, ssrc),
        },
    decreases list.len(),
{
    if list.len() > 0 && !accepts(list.last(), ts, dir, ssrc) {
        let front = list.drop_last();
        lemma_find_conn(front, ts, dir, ssrc);
        assert forall|j: int| 0 <= j < front.len() implies front[j] == list[j] by {}
    }
}

/// A sound connection that takes an RTP packet is sound with it.
pub proof fn lemma_with_packet_wf(c: ConnectionView, d: FlowDataView)
    requires
        c.wf(),
        d.payload is Rtp,
        accepts(c, d.ts, d.header.dir, d.payload.rtp_header().unwrap().ssrc),
    ensures
        spec_with_packet(c, d).wf(),
{
    let same = same_direction(c, d.header.dir);
    let after = same.push(d.packet());
    assert forall|i: int| 0 <= i < after.len() implies (#[trigger] after[i]).is_rtp()
        && after[i].rtp_header().unwrap().ssrc == after[0].rtp_header().unwrap().ssrc by {}
}

/// Adding a datagram keeps a sound map sound.
pub proof fn lemma_map_with_sound(m: Map<u64, Seq<ConnectionView>>, d: FlowDataView)
    requires
        sound(m),
    ensures
        sound(spec_map_with(m, d)),
{
    if d.payload is Rtp {
        let key = ConnectionKey { remote: d.header.remote }.spec_index();
        let list = if m.contains_key(key) {
            m[key]
        } else {
            Seq::empty()
        };
        let ssrc = d.payload.rtp_header().unwrap().ssrc;
        let m2 = spec_map_with(m, d);
        lemma_find_conn(list, d.ts, d.header.dir, ssrc);
        assert forall|i: int| 0 <= i < list.len() implies (#[trigger] list[i]).wf() && ConnectionKey {
            remote: list[i].header.remote,
        }.spec_index() == key by {}
        assert forall|k: u64, i: int| m2.contains_key(k) && 0 <= i < m2[k].len() implies {
            let c = #[trigger] m2[k][i];
            &&& c.wf()
            &&& ConnectionKey { remote: c.header.remote }.spec_index() == k
        } by {
            if k == key && spec_find_conn(list, d.ts, d.header.dir, ssrc) == Some(i) {
                lemma_with_packet_wf(list[i], d);
            }
        }
    }
}

fn conn_accepts(c: &Connection, ts: u64, dir: FlowDirection, ssrc: u32) -> (r: bool)
    ensures
        r == accepts(c@, ts, dir, ssrc),
{
    let (known, range) = match dir {
        FlowDirection::Ingress => (c.ingress_ssrc(), c.egress_tsrange()),
        FlowDirection::Egress => (c.egress_ssrc(), c.ingress_tsrange()),
    };
    match known {
        Some(known) => known == ssrc,
        None => match range {
            Some((first, last)) => {
                let early_enough = match first.checked_sub(THRESHOLD_MICROS) {
                    Some(lowest) => lowest <= ts,
                    None => true,
                };
                let late_enough = match last.checked_add(THRESHOLD_MICROS) {
                    Some(highest) => ts <= highest,
                    None => true,
                };
                early_enough && late_enough
            },
            None => false,
        },
    }
}

/// Finds the newest connection of `list` that takes a packet captured at
/// `ts` that travels in direction `dir` and carries the source `ssrc`.
pub fn find_conn(ts: u64, dir: FlowDirection, ssrc: u32, list: &Vec<Connection>) -> (r: Option<
    usize,
>)
    ensures
        match r {
            Some(at) => at < list.len() && spec_find_conn(connection_views(list@), ts, dir, ssrc)
                == Some(at as int),
            None => spec_find_conn(connection_views(list@), ts, dir, ssrc) is None,
        },
{
    let ghost views = connection_views(list@);
    let mut idx: usize = list.len();
    assert(views.take(idx as int) =~= views);
    while idx > 0
        invariant
            idx <= list.len(),
            views == connection_views(list@),
            spec_find_conn(views, ts, dir, ssrc) == spec_find_conn(
                views.take(idx as int),
                ts,
                dir,
                ssrc,
            ),
        decreases idx,
    {
        assert(views.take(idx as int).drop_last() =~= views.take(idx - 1));
        if conn_accepts(&list[idx - 1], ts, dir, ssrc) {
            return Some(idx - 1);
        }
        idx -= 1;
    }
    None
}

/// Makes an empty connection between the endpoints of a datagram.
pub fn make_conn(header: &FlowHeader) -> (r: Connection)
    ensures
        r@ == spec_make_conn(*header),
{
    let header = ConnectionHeader {
        ftype: header.ftype,
        local: header.local,
        remote: header.remote,
    };
    let r = Connection { header, ingress_pkts: Vec::new(), egress_pkts: Vec::new() };
    assert(r@.ingress =~= Seq::empty() && r@.egress =~= Seq::empty());
    r
}

/// Puts a datagram behind the packets of its direction.
pub fn conn_add_flow_data(conn: &mut Connection, d: FlowData)
    ensures
        final(conn)@ == spec_with_packet(old(conn)@, d@),
{
    let ghost before = conn@;
    let pkt = FlowPacket { ts: d.ts, payload: d.payload };
    if d.header.dir == FlowDirection::Ingress {
        conn.ingress_pkts.push(pkt);
        assert(conn@.ingress =~= before.ingress.push(d@.packet()));
    } else {
        conn.egress_pkts.push(pkt);
        assert(conn@.egress =~= before.egress.push(d@.packet()));
    }
}

impl ConnectionMap {
    /// Whether the connections of the map are sound.
    pub open spec fn wf(&self) -> bool {
        sound(self@)
    }

    /// A map without connections.
    pub fn new() -> (r: Self)
        ensures
            r@ == Map::<u64, Seq<ConnectionView>>::empty(),
            r.wf(),
    {
        Self { map: HashMap::new() }
    }

    /// Files a datagram.
    ///
    /// Only an RTP datagram is filed. It goes to the newest connection of
    /// its remote endpoint that takes it (see [`accepts`]), or else into a
    /// new connection behind those of that endpoint. A sound map stays
    /// sound.
    pub fn add(&mut self, d: FlowData)
        ensures
            final(self)@ == spec_map_with(old(self)@, d@),
            old(self).wf() ==> final(self).wf(),
    {
        let ghost before = self@;
        let ghost dv = d@;
        proof {
            if sound(before) {
                lemma_map_with_sound(before, dv);
            }
        }
        let ssrc = match d.payload {
            FlowPayload::Rtp(ref rtp) => rtp.header.ssrc,
            _ => {
                return ;
            },
        };
        let key = ConnectionKey { remote: d.header.remote }.index();
        let ts = d.ts;
        let dir = d.header.dir;
        match self.map.remove(&key) {
            Some(conn_list) => {
                let mut conn_list = conn_list;
                match find_conn(ts, dir, ssrc, &conn_list) {
                    Some(at) => {
                        conn_add_flow_data(&mut conn_list[at], d);
                        assert(connection_views(conn_list@) =~= spec_list_with(before[key], dv));
                    },
                    None => {
                        let mut conn = make_conn(&d.header);
                        conn_add_flow_data(&mut conn, d);
                        conn_list.push(conn);
                        assert(connection_views(conn_list@) =~= spec_list_with(before[key], dv));
                    },
                }
                self.map.insert(key, conn_list);
            },
            None => {
                let mut conn = make_conn(&d.header);
                conn_add_flow_data(&mut conn, d);
                let mut conn_list: Vec<Connection> = Vec::new();
                conn_list.push(conn);
                assert(connection_views(conn_list@) =~= spec_list_with(Seq::empty(), dv));
                self.map.insert(key, conn_list);
            },
        }
        assert(self@ =~= spec_map_with(before, dv));
    }
}

/// The valid connections of a list, in order.
pub open spec fn spec_valid(list: Seq<ConnectionView>) -> Seq<ConnectionView>
    decreases list.len(),
{
    if list.len() == 0 {
        Seq::empty()
    } else if list.last().valid() {
        spec_valid(list.drop_last()).push(list.last())
    } else {
        spec_valid(list.drop_last())
    }
}

/// The valid connections that the map `m` holds under the keys `keys`:
/// key by key, and under each key oldest first.
pub open spec fn spec_collect(m: Map<u64, Seq<ConnectionView>>, keys: Seq<u64>) -> Seq<
    ConnectionView,
>
    decreases keys.len(),
{
    if keys.len() == 0 {
        Seq::empty()
    } else {
        spec_collect(m, keys.drop_last()) + spec_valid(m[keys.last()])
    }
}

/// When a connection began: the capture time of its first ingress
/// packet, 0 if there is none.
pub open spec fn spec_start(c: ConnectionView) -> u64 {
    if c.ingress.len() > 0 {
        c.ingress[0].ts
    } else {
        0
    }
}

/// Where `c` goes into the list `sorted`: just behind the last
/// connection that began no later than `c`, at the head if there is none.
pub open spec fn spec_sorted_index(sorted: Seq<ConnectionView>, c: ConnectionView) -> int
    decreases sorted.len(),
{
    if sorted.len() == 0 {
        0
    } else if spec_start(sorted.last()) <= spec_start(c) {
        sorted.len() as int
    } else {
        spec_sorted_index(sorted.drop_last(), c)
    }
}

/// The connections of `list` in the order in which they began; those
/// that began at the same time keep their order.
pub open spec fn spec_sort(list: Seq<ConnectionView>) -> Seq<ConnectionView>
    decreases list.len(),
{
    if list.len() == 0 {
        Seq::empty()
    } else {
        let sorted = spec_sort(list.drop_last());
        sorted.insert(spec_sorted_index(sorted, list.last()), list.last())
    }
}

/// Whether each connection of the list began no later than the next.
pub open spec fn ordered(list: Seq<ConnectionView>) -> bool {
    forall|i: int, j: int|
        0 <= i <= j < list.len() ==> spec_start(#[trigger] list[i]) <= spec_start(
            #[trigger] list[j],
        )
}

/// In an ordered list, all connections before the index began no later
/// than `c`, and all from it on began later.
pub proof fn lemma_sorted_index(sorted: Seq<ConnectionView>, c: ConnectionView)
    requires
        ordered(sorted),
    ensures
        0 <= spec_sorted_index(sorted, c) <= sorted.len(),
        forall|i: int|
            0 <= i < spec_sorted_index(sorted, c) ==> spec_start(#[trigger] sorted[i])
                <= spec_start(c),
        forall|i: int|
            spec_sorted_index(sorted, c) <= i < sorted.len() ==> spec_start(#[trigger] sorted[i])
                > spec_start(c),
    decreases sorted.len(),
{
    if sorted.len() > 0 {
        let front = sorted.drop_last();
        assert forall|i: int, j: int| 0 <= i <= j < front.len() implies spec_start(
            #[trigger] front[i],
        ) <= spec_start(#[trigger] front[j]) by {
        }
        if spec_start(sorted.last()) <= spec_start(c) {
            assert forall|i: int| 0 <= i < sorted.len() implies spec_start(#[trigger] sorted[i])
                <= spec_start(c) by {
            }
        } else {
            lemma_sorted_index(front, c);
            assert forall|i: int| spec_sorted_index(sorted, c) <= i < sorted.len() implies spec_start(
                #[trigger] sorted[i],
            ) > spec_start(c) by {
                if i < front.len() {
                    assert(front[i] == sorted[i]);
                }
            }
            assert forall|i: int| 0 <= i < spec_sorted_index(sorted, c) implies spec_start(
                #[trigger] sorted[i],
            ) <= spec_start(c) by {
                assert(front[i] == sorted[i]);
            }
        }
    }
}

/// Sorting orders the list and neither adds nor drops a connection.
pub proof fn lemma_sort(list: Seq<ConnectionView>)
    ensures
        ordered(spec_sort(list)),
        spec_sort(list).len() == list.len(),
        spec_sort(list).to_multiset() == list.to_multiset(),
    decreases list.len(),
{
    if list.len() == 0 {
        assert(list =~= Seq::empty());
    } else {
        let front = list.drop_last();
        let c = list.last();
        lemma_sort(front);
        let sorted = spec_sort(front);
        lemma_sorted_index(sorted, c);
        let at = spec_sorted_index(sorted, c);
        let after = sorted.insert(at, c);
        lemma_insert_to_multiset(sorted, at, c);
        assert(list =~= front.push(c));
        vstd::seq_lib::to_multiset_build(front, c);
        assert forall|i: int, j: int| 0 <= i <= j < after.len() implies spec_start(
            #[trigger] after[i],
        ) <= spec_start(#[trigger] after[j]) by {}
    }
}

fn connection_start(c: &Connection) -> (r: u64)
    ensures
        r == spec_start(c@),
{
    match c.ingress_tsrange() {
        Some((first, _)) => first,
        None => 0,
    }
}

/// Sorts connections by the capture time of their first ingress packet.
/// Connections that began at the same time keep their order.
pub fn sort_by_start(list: Vec<Connection>) -> (r: Vec<Connection>)
    ensures
        connection_views(r@) == spec_sort(connection_views(list@)),
        ordered(connection_views(r@)),
{
    let ghost views = connection_views(list@);
    let mut out: Vec<Connection> = Vec::with_capacity(list.len());
    for c in it: list
        invariant
            it.seq() == list@,
            views == connection_views(list@),
            connection_views(out@) == spec_sort(views.take(it.index() as int)),
    {
        let ghost sorted = connection_views(out@);
        let ghost n = it.index();
        let start = connection_start(&c);
        let mut idx: usize = out.len();
        let mut found = false;
        assert(sorted.take(idx as int) =~= sorted);
        while idx > 0 && !found
            invariant
                idx <= out.len(),
                sorted == connection_views(out@),
                start == spec_start(c@),
                spec_sorted_index(sorted, c@) == spec_sorted_index(sorted.take(idx as int), c@),
                found ==> idx > 0 && spec_start(sorted[idx - 1]) <= start,
            decreases idx + (if found { 0int } else { 1int }),
        {
            assert(sorted.take(idx as int).drop_last() =~= sorted.take(idx - 1));
            if connection_start(&out[idx - 1]) <= start {
                found = true;
            } else {
                idx -= 1;
            }
        }
        proof {
            assert(views.take(n + 1).drop_last() =~= views.take(n as int));
        }
        out.insert(idx, c);
    }
    proof {
        assert(views.take(list@.len() as int) =~= views);
        lemma_sort(views);
    }
    out
}

impl ConnectionMap {
    /// The keys of the map, each once, in the order in which the map
    /// hands them out.
    pub fn keys(&self) -> (r: Vec<u64>)
        ensures
            r@.no_duplicates(),
            r@.to_set() == self@.dom(),
    {
        let mut keys: Vec<u64> = Vec::new();
        for k in it: self.map.keys()
            invariant
                keys.len() == it.index(),
                forall|i: int| 0 <= i < keys.len() ==> keys@[i] == *it.seq()[i],
        {
            keys.push(*k);
        }
        proof {
            vstd::std_specs::hash::axiom_spec_keys_iter(&self.map);
            assert(keys@ =~= vstd::std_specs::hash::spec_keys_iter(&self.map).remaining().unref());
        }
        keys
    }

    /// The valid connections of the map, in the order in which they
    /// began.
    ///
    /// The connections are collected key by key, in the order in which
    /// the map hands out its keys, and then sorted by the capture time of
    /// their first ingress packet. Connections that began at the same time
    /// stay as they were collected.
    pub fn valid_connections(&self) -> (r: Vec<Connection>)
        ensures
            exists|keys: Seq<u64>|
                keys.no_duplicates() && keys.to_set() == self@.dom() && connection_views(r@)
                    == spec_sort(#[trigger] spec_collect(self@, keys)),
            ordered(connection_views(r@)),
            forall|i: int| 0 <= i < r.len() ==> (#[trigger] r[i])@.valid(),
    {
        let keys = self.keys();
        let mut conn_list: Vec<Connection> = Vec::new();
        let mut k: usize = 0;
        while k < keys.len()
            invariant
                k <= keys.len(),
                keys@.to_set() == self@.dom(),
                connection_views(conn_list@) == spec_collect(self@, keys@.take(k as int)),
                forall|i: int| 0 <= i < conn_list.len() ==> (#[trigger] conn_list[i])@.valid(),
            decreases keys.len() - k,
        {
            let key = keys[k];
            let ghost before = connection_views(conn_list@);
            proof {
                assert(keys@.take(k + 1).drop_last() =~= keys@.take(k as int));
            }
            if let Some(list) = self.map.get(&key) {
                let ghost views = connection_views(list@);
                let mut i: usize = 0;
                while i < list.len()
                    invariant
                        i <= list.len(),
                        views == connection_views(list@),
                        connection_views(conn_list@) == before + spec_valid(
                            views.take(i as int),
                        ),
                        forall|i: int|
                            0 <= i < conn_list.len() ==> (#[trigger] conn_list[i])@.valid(),
                    decreases list.len() - i,
                {
                    let conn = &list[i];
                    proof {
                        assert(views.take(i + 1).drop_last() =~= views.take(i as int));
                    }
                    if conn.valid() {
                        let ghost so_far = connection_views(conn_list@);
                        conn_list.push(conn.duplicate());
                        assert(connection_views(conn_list@) =~= so_far.push(conn@));
                    }
                    i += 1;
                }
                assert(views.take(i as int) =~= views);
            }
            k += 1;
        }
        assert(keys@.take(k as int) =~= keys@);
        let ghost collected = connection_views(conn_list@);
        assert forall|j: int| 0 <= j < collected.len() implies (#[trigger] collected[j]).valid() by {}
        let sorted = sort_by_start(conn_list);
        proof {
            lemma_sort(collected);
            assert forall|i: int| 0 <= i < sorted.len() implies (#[trigger] sorted[i])@.valid() by {
                let c = sorted[i]@;
                let after = connection_views(sorted@);
                assert(after[i] == c);
                after.to_multiset_ensures();
                collected.to_multiset_ensures();
                assert(collected.to_multiset().count(c) > 0);
            }
        }
        sorted
    }
}

} // verus!
