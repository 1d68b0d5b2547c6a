//! Calls: pairs of connections, and the quality figures of each.

use super::connection::{connection_views, first_ssrc, Connection, ConnectionView};
use super::{lemma_insert_to_multiset, packet_views, FlowPacket, FlowPacketView, FlowType};
use crate::structs::rtp::RtpHeader;
use std::collections::HashSet;
use vstd::prelude::*;

verus! {

broadcast use vstd::std_specs::hash::group_hash_axioms;

/// Circular order of 16-bit sequence numbers: whether `a` is `b` or
/// follows it by less than half the number space.
pub open spec fn spec_cseq_greater(a: u16, b: u16) -> bool {
    (a - b) % 0x1_0000 < 0x8000
}

/// Whether `a` follows `b` in serial-number arithmetic over 16 bits: the
/// two differ, and going forward from `b` reaches `a` in fewer than 32768
/// steps.
pub open spec fn serial_follows(a: u16, b: u16) -> bool {
    (a < b && b - a > 0x8000) || (a > b && a - b < 0x8000)
}

/// Returns whether `a >= b` in the circular order of sequence numbers.
pub fn cseq_greater(a: u16, b: u16) -> (r: bool)
    ensures
        r == spec_cseq_greater(a, b),
{
    if a >= b {
        let d = a - b;
        d < 0x8000
    } else {
        let d = b - a;
        d > 0x8000
    }
}

/// The circular order is serial-number arithmetic with a window of 32768:
/// `a >= b` holds exactly when the two are equal or `a` follows `b`.
pub proof fn lemma_cseq_greater_is_serial_order(a: u16, b: u16)
    ensures
        spec_cseq_greater(a, b) <==> (a == b || serial_follows(a, b)),
{
}

/// Of two sequence numbers that are neither equal nor exactly half the
/// number space apart, exactly one is greater than the other.
pub proof fn lemma_cseq_greater_total(a: u16, b: u16)
    requires
        a != b,
        a - b != 0x8000,
        b - a != 0x8000,
    ensures
        spec_cseq_greater(a, b) != spec_cseq_greater(b, a),
{
}

/// Adding the same offset to both numbers, modulo 65536, keeps their order.
pub proof fn lemma_cseq_greater_shift(a: u16, b: u16, k: u16)
    ensures
        spec_cseq_greater(((a + k) % 0x1_0000) as u16, ((b + k) % 0x1_0000) as u16)
            == spec_cseq_greater(a, b),
{
}

/// The signed circular difference `a - b` of two 32-bit timestamps: the
/// representative of `a - b` modulo 2^32 that lies nearest to zero. A
/// difference of exactly 2^31 keeps the sign of `b - a`.
pub open spec fn spec_timestamp_delta(a: u32, b: u32) -> int {
    let x = a - b;
    if x >= 0x8000_0000 {
        x - 0x1_0000_0000
    } else if x <= -0x8000_0000 {
        x + 0x1_0000_0000
    } else {
        x
    }
}

/// Returns `a - b` as a signed circular difference.
pub fn timestamp_delta(a: u32, b: u32) -> (r: i64)
    ensures
        r == spec_timestamp_delta(a, b),
{
    if a >= b {
        let d = a - b;
        if d < 0x8000_0000 {
            d as i64
        } else {
            -((u32::MAX - d) as i64) - 1
        }
    } else {
        let d = b - a;
        if d >= 0x8000_0000 {
            ((u32::MAX - d) as i64) + 1
        } else {
            -(d as i64)
        }
    }
}

/// Swapping the arguments of the timestamp difference negates it.
pub proof fn lemma_timestamp_delta_antisymmetric(a: u32, b: u32)
    ensures
        spec_timestamp_delta(a, b) == -spec_timestamp_delta(b, a),
{
}

/// The timestamp difference is congruent to `a - b` modulo 2^32 and no
/// farther from zero than 2^31; within that distance it is `a - b` itself.
pub proof fn lemma_timestamp_delta_range(a: u32, b: u32)
    ensures
        -0x8000_0000 <= spec_timestamp_delta(a, b) <= 0x8000_0000,
        (spec_timestamp_delta(a, b) - (a - b)) % 0x1_0000_0000 == 0,
        -0x8000_0000 < a - b < 0x8000_0000 ==> spec_timestamp_delta(a, b) == a - b,
{
}

/// The RTP sequence number of a packet.
pub open spec fn seq_number(p: FlowPacketView) -> u16
    recommends
        p.is_rtp(),
{
    p.rtp_header().unwrap().seqnum
}

/// The RTP timestamp of a packet.
pub open spec fn media_time(p: FlowPacketView) -> u32
    recommends
        p.is_rtp(),
{
    p.rtp_header().unwrap().timestamp
}

/// Whether every packet of the list is an RTP packet.
pub open spec fn all_rtp(pkts: Seq<FlowPacketView>) -> bool {
    forall|i: int| 0 <= i < pkts.len() ==> (#[trigger] pkts[i]).is_rtp()
}

/// Where `p` goes into the list `tx`: just behind the last packet whose
/// sequence number `p` is greater than or equal to, at the head if there
/// is none.
pub open spec fn spec_insert_index(tx: Seq<FlowPacketView>, p: FlowPacketView) -> int
    decreases tx.len(),
{
    if tx.len() == 0 {
        0
    } else if spec_cseq_greater(seq_number(p), seq_number(tx.last())) {
        tx.len() as int
    } else {
        spec_insert_index(tx.drop_last(), p)
    }
}

/// The packets of `rx` put in the order of their sequence numbers: each in
/// turn, in arrival order, goes where [`spec_insert_index`] says.
pub open spec fn spec_reorder(rx: Seq<FlowPacketView>) -> Seq<FlowPacketView>
    decreases rx.len(),
{
    if rx.len() == 0 {
        Seq::empty()
    } else {
        let tx = spec_reorder(rx.drop_last());
        tx.insert(spec_insert_index(tx, rx.last()), rx.last())
    }
}

/// What the insertion index is: `p` is greater than or equal to the packet
/// just before it, and to none of those from it on.
pub proof fn lemma_insert_index(tx: Seq<FlowPacketView>, p: FlowPacketView)
    ensures
        0 <= spec_insert_index(tx, p) <= tx.len(),
        spec_insert_index(tx, p) > 0 ==> spec_cseq_greater(
            seq_number(p),
            seq_number(tx[spec_insert_index(tx, p) - 1]),
        ),
        forall|j: int|
            spec_insert_index(tx, p) <= j < tx.len() ==> !spec_cseq_greater(
                seq_number(p),
                seq_number(#[trigger] tx[j]),
            ),
    decreases tx.len(),
{
    if tx.len() > 0 && !spec_cseq_greater(seq_number(p), seq_number(tx.last())) {
        let front = tx.drop_last();
        lemma_insert_index(front, p);
        assert forall|j: int| spec_insert_index(tx, p) <= j < tx.len() implies !spec_cseq_greater(
            seq_number(p),
            seq_number(#[trigger] tx[j]),
        ) by {
            if j < front.len() {
                assert(front[j] == tx[j]);
            }
        }
    }
}

/// Reordering keeps the number of packets.
pub proof fn lemma_reorder_len(rx: Seq<FlowPacketView>)
    ensures
        spec_reorder(rx).len() == rx.len(),
    decreases rx.len(),
{
    if rx.len() > 0 {
        lemma_reorder_len(rx.drop_last());
        lemma_insert_index(spec_reorder(rx.drop_last()), rx.last());
    }
}

/// Reordering neither adds nor drops a packet.
pub proof fn lemma_reorder_permutes(rx: Seq<FlowPacketView>)
    ensures
        spec_reorder(rx).to_multiset() == rx.to_multiset(),
    decreases rx.len(),
{
    if rx.len() == 0 {
        assert(rx =~= Seq::empty());
    } else {
        let front = rx.drop_last();
        lemma_reorder_permutes(front);
        lemma_insert_index(spec_reorder(front), rx.last());
        lemma_insert_to_multiset(
            spec_reorder(front),
            spec_insert_index(spec_reorder(front), rx.last()),
            rx.last(),
        );
        assert(rx =~= front.push(rx.last()));
        vstd::seq_lib::to_multiset_build(front, rx.last());
    }
}

/// The quotient of `a` by a positive `b`, rounded toward zero.
pub open spec fn div_toward_zero(a: int, b: int) -> int
    recommends
        b > 0,
{
    if a >= 0 {
        a / b
    } else {
        -((-a) / b)
    }
}

/// Ticks of the media clock in a millisecond.
pub const MEDIA_CLOCK_KHZ: i64 = 48;

/// Length of one frame of media, in microseconds.
pub const FRAME_MICROS: i64 = 20_000;

/// Microseconds of capture time from `p` to `q`; negative when `q` was
/// captured first.
pub open spec fn wall_gap(p: FlowPacketView, q: FlowPacketView) -> int {
    q.ts - p.ts
}

/// Microseconds of media time from `p` to `q`: the difference of
/// their RTP timestamps, in ticks of the media clock, times 1000 and
/// divided by [`MEDIA_CLOCK_KHZ`].
pub open spec fn media_gap(p: FlowPacketView, q: FlowPacketView) -> int {
    div_toward_zero(
        spec_timestamp_delta(media_time(q), media_time(p)) * 1000,
        MEDIA_CLOCK_KHZ as int,
    )
}

/// Frames missing in a media gap of `sd` microseconds: those between
/// the two packets, if the gap is longer than one frame.
pub open spec fn gap_lost(sd: int) -> int {
    if sd > FRAME_MICROS {
        sd / (FRAME_MICROS as int) - 1
    } else {
        0
    }
}

/// The distance of `x` from zero.
pub open spec fn magnitude(x: int) -> int {
    if x < 0 {
        -x
    } else {
        x
    }
}

/// Packets lost between the first `k + 1` packets of `tx`.
pub open spec fn spec_lost(tx: Seq<FlowPacketView>, k: int) -> int
    decreases k,
{
    if k <= 0 {
        0
    } else {
        spec_lost(tx, k - 1) + gap_lost(media_gap(tx[k - 1], tx[k]))
    }
}

/// Among the first `k` adjacent pairs of `tx`, the difference between
/// capture gap and media gap that is largest in magnitude, the earliest
/// such; 0 if there is no pair.
pub open spec fn spec_max_delta(tx: Seq<FlowPacketView>, k: int) -> int
    decreases k,
{
    if k <= 0 {
        0
    } else {
        let before = spec_max_delta(tx, k - 1);
        let delta = wall_gap(tx[k - 1], tx[k]) - media_gap(tx[k - 1], tx[k]);
        if magnitude(delta) > magnitude(before) {
            delta
        } else {
            before
        }
    }
}

/// Among the first `k` adjacent pairs of `tx` that are one frame apart in
/// media time, the largest positive capture gap; 0 if there is none.
pub open spec fn spec_max_inter_frame_delay(tx: Seq<FlowPacketView>, k: int) -> int
    decreases k,
{
    if k <= 0 {
        0
    } else {
        let before = spec_max_inter_frame_delay(tx, k - 1);
        let rd = wall_gap(tx[k - 1], tx[k]);
        if media_gap(tx[k - 1], tx[k]) == FRAME_MICROS && rd > before {
            rd
        } else {
            before
        }
    }
}

/// Loss and jitter figures of one direction of a call.
#[derive(Debug, Clone, Copy, PartialEq, Eq, Structural)]
pub struct FlowStats {
    /// Packets missing, by the gaps in media time.
    pub lost_pkts: u128,
    /// Packets received. The loss rate in percent is
    /// `lost_pkts / rx_pkts * 100`.
    pub rx_pkts: usize,
    /// Microseconds by which a capture gap differed most from its media gap.
    pub max_delta: i128,
    /// Longest capture gap, in microseconds, between packets one frame apart.
    pub max_inter_frame_delay: i128,
}

/// The figures of the received packets `rx`.
pub open spec fn spec_flow_stats(rx: Seq<FlowPacketView>) -> FlowStats {
    let tx = spec_reorder(rx);
    FlowStats {
        lost_pkts: spec_lost(tx, tx.len() - 1) as u128,
        rx_pkts: rx.len() as usize,
        max_delta: spec_max_delta(tx, tx.len() - 1) as i128,
        max_inter_frame_delay: spec_max_inter_frame_delay(tx, tx.len() - 1) as i128,
    }
}

proof fn lemma_pair_bounds(p: FlowPacketView, q: FlowPacketView)
    ensures
        -0x10_0000_0000 <= media_gap(p, q) <= 0x10_0000_0000,
        0 <= gap_lost(media_gap(p, q)) <= 0x40_0000,
        -0x1_0000_0000_0000_0000 < wall_gap(p, q) < 0x1_0000_0000_0000_0000,
{
    lemma_timestamp_delta_range(media_time(q), media_time(p));
}

proof fn lemma_fold_bounds(tx: Seq<FlowPacketView>, k: int)
    ensures
        0 <= spec_lost(tx, k) <= 0x40_0000 * (if k <= 0 { 0int } else { k }),
        magnitude(spec_max_delta(tx, k)) <= 0x2_0000_0000_0000_0000,
        0 <= spec_max_inter_frame_delay(tx, k) < 0x1_0000_0000_0000_0000,
    decreases k,
{
    if k > 0 {
        lemma_fold_bounds(tx, k - 1);
        lemma_pair_bounds(tx[k - 1], tx[k]);
    }
}

/// Whether every packet of the list is an RTP packet.
pub fn is_all_rtp(pkts: &[FlowPacket]) -> (r: bool)
    ensures
        r == all_rtp(packet_views(pkts@)),
{
    let mut i: usize = 0;
    while i < pkts.len()
        invariant
            i <= pkts.len(),
            forall|k: int| 0 <= k < i ==> (#[trigger] packet_views(pkts@)[k]).is_rtp(),
        decreases pkts.len() - i,
    {
        if pkts[i].rtp().is_none() {
            assert(!packet_views(pkts@)[i as int].is_rtp());
            return false;
        }
        i += 1;
    }
    true
}

fn rtp_header_of(p: &FlowPacket) -> (r: RtpHeader)
    requires
        p@.is_rtp(),
    ensures
        r == p@.rtp_header().unwrap(),
{
    match p.rtp() {
        Some(rtp) => rtp.header,
        None => vstd::pervasive::unreached(),
    }
}

/// Puts received packets in the order of their sequence numbers.
pub fn reorder(rx_pkts: &[FlowPacket]) -> (tx: Vec<FlowPacket>)
    requires
        all_rtp(packet_views(rx_pkts@)),
    ensures
        packet_views(tx@) == spec_reorder(packet_views(rx_pkts@)),
        all_rtp(packet_views(tx@)),
{
    let ghost rxv = packet_views(rx_pkts@);
    let mut tx: Vec<FlowPacket> = Vec::with_capacity(rx_pkts.len());
    let mut n: usize = 0;
    while n < rx_pkts.len()
        invariant
            n <= rx_pkts.len(),
            rxv == packet_views(rx_pkts@),
            all_rtp(rxv),
            all_rtp(packet_views(tx@)),
            packet_views(tx@) == spec_reorder(rxv.take(n as int)),
        decreases rx_pkts.len() - n,
    {
        let p = &rx_pkts[n];
        let ghost pv = rxv[n as int];
        let ghost txv = packet_views(tx@);
        let pseq = rtp_header_of(p).seqnum;
        let mut idx: usize = tx.len();
        let mut found = false;
        assert(txv.take(idx as int) =~= txv);
        while idx > 0 && !found
            invariant
                idx <= tx.len(),
                txv == packet_views(tx@),
                all_rtp(txv),
                pv.is_rtp(),
                pseq == seq_number(pv),
                spec_insert_index(txv, pv) == spec_insert_index(txv.take(idx as int), pv),
                found ==> idx > 0 && spec_cseq_greater(pseq, seq_number(txv[idx - 1])),
            decreases idx + (if found { 0int } else { 1int }),
        {
            let qseq = rtp_header_of(&tx[idx - 1]).seqnum;
            assert(txv.take(idx as int).drop_last() =~= txv.take(idx - 1));
            if cseq_greater(pseq, qseq) {
                found = true;
            } else {
                idx -= 1;
            }
        }
        proof {
            assert(rxv.take(n + 1).drop_last() =~= rxv.take(n as int));
        }
        tx.insert(idx, p.duplicate());
        proof {
            assert(packet_views(tx@) =~= txv.insert(idx as int, pv));
        }
        n += 1;
    }
    assert(rxv.take(n as int) =~= rxv);
    tx
}

/// Loss and jitter of the packets received in one direction.
///
/// The packets are put in the order of their sequence numbers. Each pair
/// of neighbours then gives a capture gap and a media gap (from the RTP
/// timestamps), both in microseconds. A media gap of more than one frame
/// counts the frames in between as lost.
pub fn compute_flow_stats(rx_pkts: &[FlowPacket]) -> (r: FlowStats)
    requires
        all_rtp(packet_views(rx_pkts@)),
    ensures
        r == spec_flow_stats(packet_views(rx_pkts@)),
{
    let tx = reorder(rx_pkts);
    let ghost txv = packet_views(tx@);
    let mut lost_pkts: u128 = 0;
    let mut max_delta: i128 = 0;
    let mut max_inter_frame_delay: i128 = 0;
    let mut i: usize = 0;
    while i + 1 < tx.len()
        invariant
            txv == packet_views(tx@),
            all_rtp(txv),
            i < tx.len() || (tx.len() == 0 && i == 0),
            lost_pkts == spec_lost(txv, i as int),
            max_delta == spec_max_delta(txv, i as int),
            max_inter_frame_delay == spec_max_inter_frame_delay(txv, i as int),
        decreases tx.len() - i,
    {
        let pkt1 = &tx[i];
        let pkt2 = &tx[i + 1];
        proof {
            lemma_pair_bounds(txv[i as int], txv[i + 1]);
            lemma_fold_bounds(txv, i as int);
            lemma_fold_bounds(txv, i + 1);
            lemma_timestamp_delta_range(media_time(txv[i + 1]), media_time(txv[i as int]));
        }
        let rd: i128 = pkt2.ts as i128 - pkt1.ts as i128;
        let td: i64 = timestamp_delta(rtp_header_of(pkt2).timestamp, rtp_header_of(pkt1).timestamp);
        let scaled: i64 = td * 1000;
        let sd: i64 = if scaled >= 0 {
            scaled / MEDIA_CLOCK_KHZ
        } else {
            -((-scaled) / MEDIA_CLOCK_KHZ)
        };
        let delta: i128 = rd - sd as i128;
        let delta_mag: i128 = if delta < 0 {
            -delta
        } else {
            delta
        };
        let max_mag: i128 = if max_delta < 0 {
            -max_delta
        } else {
            max_delta
        };
        if delta_mag > max_mag {
            max_delta = delta;
        }
        if sd > FRAME_MICROS {
            lost_pkts += (sd / FRAME_MICROS - 1) as u128;
        }
        if sd == FRAME_MICROS && rd > 0 {
            if rd > max_inter_frame_delay {
                max_inter_frame_delay = rd;
            }
        }
        i += 1;
    }
    proof {
        lemma_reorder_len(packet_views(rx_pkts@));
    }
    FlowStats { lost_pkts, rx_pkts: rx_pkts.len(), max_delta, max_inter_frame_delay }
}

/// Whether `p` and `q` are RTP packets with the same sequence number.
pub open spec fn same_seq(p: FlowPacketView, q: FlowPacketView) -> bool {
    p.is_rtp() && q.is_rtp() && seq_number(p) == seq_number(q)
}

/// How many egress packets one ingress packet is compared with at most.
pub const SCAN_WINDOW: usize = 100;

/// The search for the egress packet that answers the ingress packet `p`,
/// from position `at` of `egress`, after `examined` packets were compared
/// in vain.
///
/// An egress packet captured before `p` is passed over and counted. Any
/// other is compared with `p`: the first with the sequence number of `p`
/// ends the search, and the delay is its capture time less that of `p`.
/// The search gives up at the end of the list and after [`SCAN_WINDOW`]
/// comparisons. The result is the delay, if one was found, and the number
/// of packets passed over.
pub open spec fn spec_scan(
    p: FlowPacketView,
    egress: Seq<FlowPacketView>,
    at: int,
    examined: int,
) -> (Option<int>, int)
    decreases egress.len() - at,
{
    if at < 0 || at >= egress.len() || examined >= SCAN_WINDOW {
        (None, 0)
    } else if egress[at].ts < p.ts {
        let rest = spec_scan(p, egress, at + 1, examined);
        (rest.0, rest.1 + 1)
    } else if same_seq(p, egress[at]) {
        (Some(egress[at].ts - p.ts), 0)
    } else {
        spec_scan(p, egress, at + 1, examined + 1)
    }
}

/// Where the search for the `k`-th ingress packet starts in `egress`: the
/// number of egress packets passed over for the packets before it.
pub open spec fn spec_cursor(
    ingress: Seq<FlowPacketView>,
    egress: Seq<FlowPacketView>,
    k: int,
) -> int
    decreases k,
{
    if k <= 0 {
        0
    } else {
        let before = spec_cursor(ingress, egress, k - 1);
        before + spec_scan(ingress[k - 1], egress, before, 0).1
    }
}

/// The delays, in microseconds, found for the first `k` ingress packets.
pub open spec fn spec_delays(
    ingress: Seq<FlowPacketView>,
    egress: Seq<FlowPacketView>,
    k: int,
) -> Seq<int>
    decreases k,
{
    if k <= 0 {
        Seq::empty()
    } else {
        let before = spec_delays(ingress, egress, k - 1);
        match spec_scan(ingress[k - 1], egress, spec_cursor(ingress, egress, k - 1), 0).0 {
            Some(d) => before.push(d),
            None => before,
        }
    }
}

/// The sum of the numbers of `s`.
pub open spec fn sum(s: Seq<int>) -> int
    decreases s.len(),
{
    if s.len() == 0 {
        0
    } else {
        sum(s.drop_last()) + s.last()
    }
}

/// The sum of the squares of the numbers of `s`.
pub open spec fn sum_squares(s: Seq<int>) -> int
    decreases s.len(),
{
    if s.len() == 0 {
        0
    } else {
        sum_squares(s.drop_last()) + s.last() * s.last()
    }
}

/// The largest element of `s`, or 0 if that is larger or `s` is empty.
pub open spec fn maximum(s: Seq<int>) -> int
    decreases s.len(),
{
    if s.len() == 0 {
        0
    } else if s.last() > maximum(s.drop_last()) {
        s.last()
    } else {
        maximum(s.drop_last())
    }
}

/// Delay figures of one direction of a call, in microseconds.
#[derive(Debug, Clone, Copy, PartialEq, Eq, Structural)]
pub struct DelayStats {
    pub max: u64,
    pub avg: u64,
    /// Number of ingress packets for which the egress packet was found.
    pub paired: u64,
    /// Sum of the squared delays, less the square of their sum divided by
    /// `paired`. Divided by `paired` it is the variance of the delays.
    pub deviation_sum: u128,
}

/// Why there are no delay figures.
#[derive(Debug, Clone, Copy, PartialEq, Eq, Structural)]
pub enum DelayError {
    /// No ingress packet was found among the egress packets.
    NoPairedPackets,
    /// The sum of the squared delays, or the square of their sum, is
    /// beyond 128 bits.
    Overflow,
}

/// The figures of a list of delays.
pub open spec fn spec_delay_stats(delays: Seq<int>) -> Result<DelayStats, DelayError> {
    if delays.len() == 0 {
        Err(DelayError::NoPairedPackets)
    } else if sum_squares(delays) > u128::MAX || sum(delays) * sum(delays) > u128::MAX {
        Err(DelayError::Overflow)
    } else {
        Ok(
            DelayStats {
                max: maximum(delays) as u64,
                avg: (sum(delays) / (delays.len() as int)) as u64,
                paired: delays.len() as u64,
                deviation_sum: (sum_squares(delays) - sum(delays) * sum(delays) / (
                delays.len() as int)) as u128,
            },
        )
    }
}

/// What a search passes over lies between its start and the end of the
/// list, and a delay is never negative.
pub proof fn lemma_scan_bounds(
    p: FlowPacketView,
    egress: Seq<FlowPacketView>,
    at: int,
    examined: int,
)
    requires
        0 <= at <= egress.len(),
    ensures
        0 <= spec_scan(p, egress, at, examined).1 <= egress.len() - at,
        spec_scan(p, egress, at, examined).0 matches Some(d) ==> 0 <= d <= u64::MAX,
    decreases egress.len() - at,
{
    if at < egress.len() && examined < SCAN_WINDOW {
        if egress[at].ts < p.ts {
            lemma_scan_bounds(p, egress, at + 1, examined);
        } else if !same_seq(p, egress[at]) {
            lemma_scan_bounds(p, egress, at + 1, examined + 1);
        }
    }
}

/// The square of a sum is at most the sum of the squares times their number.
pub proof fn lemma_square_of_sum(s: Seq<int>)
    ensures
        sum(s) * sum(s) <= s.len() * sum_squares(s),
        0 <= sum_squares(s),
    decreases s.len(),
{
    if s.len() > 0 {
        let front = s.drop_last();
        lemma_square_of_sum(front);
        let n = front.len() as int;
        let t = sum(front);
        let q = sum_squares(front);
        let d = s.last();
        assert(0 <= d * d) by (nonlinear_arith);
        assert(2 * t * d <= q + n * d * d) by (nonlinear_arith)
            requires
                t * t <= n * q,
                0 <= q,
                0 <= n,
        {
            if n == 0 {
                assert(t == 0) by (nonlinear_arith)
                    requires
                        t * t <= 0,
                ;
            }
        }
        assert((t + d) * (t + d) <= (n + 1) * (q + d * d)) by (nonlinear_arith)
            requires
                t * t <= n * q,
                2 * t * d <= q + n * d * d,
        ;
    }
}

/// Delay between the packets received and the same packets sent on.
///
/// Each ingress packet is looked for among the egress packets, as
/// [`spec_scan`] describes, from where the searches before it left off.
/// The delays found give the maximum, the average, and the sum from which
/// the variance follows.
pub fn compute_delay_stats(ingress_pkts: &[FlowPacket], egress_pkts: &[FlowPacket]) -> (r: Result<
    DelayStats,
    DelayError,
>)
    ensures
        r == spec_delay_stats(
            spec_delays(
                packet_views(ingress_pkts@),
                packet_views(egress_pkts@),
                ingress_pkts@.len() as int,
            ),
        ),
{
    let ghost inv = packet_views(ingress_pkts@);
    let ghost egv = packet_views(egress_pkts@);
    let ghost mut delays: Seq<int> = Seq::empty();
    let mut n: u64 = 0;
    let mut ec: usize = 0;
    let mut dtotal: u128 = 0;
    let mut dtotal_square: Option<u128> = Some(0);
    let mut dmax: u64 = 0;
    let mut k: usize = 0;
    while k < ingress_pkts.len()
        invariant
            k <= ingress_pkts.len(),
            inv == packet_views(ingress_pkts@),
            egv == packet_views(egress_pkts@),
            ec == spec_cursor(inv, egv, k as int),
            ec <= egress_pkts.len(),
            delays == spec_delays(inv, egv, k as int),
            n == delays.len(),
            n <= k,
            dtotal == sum(delays),
            dtotal <= n * 0xFFFF_FFFF_FFFF_FFFF,
            dmax == maximum(delays),
            0 <= sum_squares(delays),
            match dtotal_square {
                Some(sq) => sq == sum_squares(delays),
                None => sum_squares(delays) > u128::MAX,
            },
        decreases ingress_pkts.len() - k,
    {
        let pkt1 = &ingress_pkts[k];
        let ghost pv = inv[k as int];
        let mut j: usize = ec;
        let mut examined: usize = 0;
        let mut ec_adv: usize = 0;
        let mut hit: Option<u64> = None;
        while j < egress_pkts.len() && examined < SCAN_WINDOW && hit.is_none()
            invariant
                ec <= j <= egress_pkts.len(),
                egv == packet_views(egress_pkts@),
                pkt1@ == pv,
                ec_adv <= j - ec,
                examined <= SCAN_WINDOW,
                match hit {
                    Some(d) => spec_scan(pv, egv, ec as int, 0) == (Some(d as int), ec_adv as int),
                    None => spec_scan(pv, egv, ec as int, 0) == (
                        spec_scan(pv, egv, j as int, examined as int).0,
                        spec_scan(pv, egv, j as int, examined as int).1 + ec_adv,
                    ),
                },
            decreases egress_pkts.len() - j + (if hit.is_none() { 1int } else { 0int }),
        {
            let pkt2 = &egress_pkts[j];
            if pkt2.ts < pkt1.ts {
                ec_adv += 1;
                j += 1;
            } else {
                let mut same = false;
                if let Some(p1) = pkt1.rtp() {
                    if let Some(p2) = pkt2.rtp() {
                        same = p1.header.seqnum == p2.header.seqnum;
                    }
                }
                if same {
                    hit = Some(pkt2.ts - pkt1.ts);
                } else {
                    examined += 1;
                    j += 1;
                }
            }
        }
        proof {
            lemma_scan_bounds(pv, egv, ec as int, 0);
        }
        if let Some(d) = hit {
            proof {
                lemma_square_of_sum(delays.push(d as int));
                assert(delays.push(d as int).drop_last() =~= delays);
                assert(d * d <= 0xFFFF_FFFF_FFFF_FFFF * 0xFFFF_FFFF_FFFF_FFFF) by (nonlinear_arith)
                    requires
                        0 <= d <= 0xFFFF_FFFF_FFFF_FFFF,
                ;
                delays = delays.push(d as int);
            }
            n += 1;
            if dmax < d {
                dmax = d;
            }
            dtotal += d as u128;
            dtotal_square =
            match dtotal_square {
                Some(sq) => sq.checked_add(d as u128 * d as u128),
                None => None,
            };
        }
        ec += ec_adv;
        k += 1;
    }
    if n == 0 {
        return Err(DelayError::NoPairedPackets);
    }
    let square_of_total = dtotal.checked_mul(dtotal);
    match (dtotal_square, square_of_total) {
        (Some(sq), Some(sqt)) => {
            proof {
                lemma_square_of_sum(delays);
                let t = sum(delays);
                let len = delays.len() as int;
                assert(t / len <= 0xFFFF_FFFF_FFFF_FFFF) by (nonlinear_arith)
                    requires
                        0 <= t <= len * 0xFFFF_FFFF_FFFF_FFFF,
                        len > 0,
                ;
                assert((t * t) / len <= sum_squares(delays)) by (nonlinear_arith)
                    requires
                        t * t <= len * sum_squares(delays),
                        len > 0,
                ;
            }
            let davg = (dtotal / n as u128) as u64;
            let deviation_sum = sq - sqt / n as u128;
            Ok(DelayStats { max: dmax, avg: davg, paired: n, deviation_sum })
        },
        _ => Err(DelayError::Overflow),
    }
}

/// The synchronisation sources of the two sides of a call.
#[derive(Debug, Clone, Copy, PartialEq, Eq, Structural)]
pub struct CallHeader {
    pub peer1_ssrc: u32,
    pub peer2_ssrc: u32,
}

/// Two connections that carry the two directions of one conversation.
#[derive(Debug, Clone, PartialEq, Eq)]
pub struct Call {
    pub header: CallHeader,
    pub peer1: Connection,
    pub peer2: Connection,
}

/// The mathematical value of a [`Call`].
pub struct CallView {
    pub header: CallHeader,
    pub peer1: ConnectionView,
    pub peer2: ConnectionView,
}

impl View for Call {
    type V = CallView;

    open spec fn view(&self) -> CallView {
        CallView { header: self.header, peer1: self.peer1@, peer2: self.peer2@ }
    }
}

/// The figures of a call: for each side, the delay on the way to the
/// other side and the loss and jitter of what it received.
#[derive(Debug, Clone, Copy, PartialEq, Eq)]
pub struct CallStats {
    pub peer1_delay: Result<DelayStats, DelayError>,
    pub peer1_ingress_flow: FlowStats,
    pub peer2_delay: Result<DelayStats, DelayError>,
    pub peer2_ingress_flow: FlowStats,
}

impl CallView {
    /// What each side receives is what the other side sends: the sources
    /// cross-match, and the header names the two ingress sources.
    pub open spec fn symmetric(self) -> bool {
        &&& cross_match(self.peer1, self.peer2)
        &&& Some(self.header.peer1_ssrc) == first_ssrc(self.peer1.ingress)
        &&& Some(self.header.peer2_ssrc) == first_ssrc(self.peer2.ingress)
    }

    /// The figures of the call.
    pub open spec fn stats(self) -> CallStats {
        CallStats {
            peer1_delay: spec_delay_stats(
                spec_delays(
                    self.peer1.ingress,
                    self.peer2.egress,
                    self.peer1.ingress.len() as int,
                ),
            ),
            peer1_ingress_flow: spec_flow_stats(self.peer1.ingress),
            peer2_delay: spec_delay_stats(
                spec_delays(
                    self.peer2.ingress,
                    self.peer1.egress,
                    self.peer2.ingress.len() as int,
                ),
            ),
            peer2_ingress_flow: spec_flow_stats(self.peer2.ingress),
        }
    }
}

impl Call {
    /// Computes the figures of the call.
    pub fn compute_stats(&self) -> (r: CallStats)
        requires
            all_rtp(self@.peer1.ingress),
            all_rtp(self@.peer2.ingress),
        ensures
            r == self@.stats(),
    {
        let peer1_delay = compute_delay_stats(
            self.peer1.ingress_pkts.as_slice(),
            self.peer2.egress_pkts.as_slice(),
        );
        let peer1_ingress_flow = compute_flow_stats(self.peer1.ingress_pkts.as_slice());
        let peer2_delay = compute_delay_stats(
            self.peer2.ingress_pkts.as_slice(),
            self.peer1.egress_pkts.as_slice(),
        );
        let peer2_ingress_flow = compute_flow_stats(self.peer2.ingress_pkts.as_slice());
        CallStats { peer1_delay, peer1_ingress_flow, peer2_delay, peer2_ingress_flow }
    }
}

/// Whether a connection can be one side of a call: it is an RTP
/// connection, and both directions begin with an RTP packet.
pub open spec fn pairable(c: ConnectionView) -> bool {
    &&& c.header.ftype == FlowType::Rtp
    &&& first_ssrc(c.ingress) is Some
    &&& first_ssrc(c.egress) is Some
}

/// Whether `a` and `b` are the two sides of one call: each receives the
/// synchronisation source that the other sends.
pub open spec fn cross_match(a: ConnectionView, b: ConnectionView) -> bool {
    &&& pairable(a)
    &&& pairable(b)
    &&& first_ssrc(a.ingress) == first_ssrc(b.egress)
    &&& first_ssrc(b.ingress) == first_ssrc(a.egress)
}

/// The first connection from `from` on that is not in `used` and
/// cross-matches the connection `a`.
pub open spec fn spec_first_partner(
    conns: Seq<ConnectionView>,
    used: Set<int>,
    a: int,
    from: int,
) -> Option<int>
    decreases conns.len() - from,
{
    if from < 0 || from >= conns.len() {
        None
    } else if !used.contains(from) && cross_match(conns[a], conns[from]) {
        Some(from)
    } else {
        spec_first_partner(conns, used, a, from + 1)
    }
}

/// The pairs of connections that make the calls, from connection `from`
/// on, when those in `used` are taken already. A connection not yet taken
/// is paired with the first one behind it that is not taken either and
/// cross-matches it.
pub open spec fn spec_pairs(conns: Seq<ConnectionView>, from: int, used: Set<int>) -> Seq<
    (int, int),
>
    decreases conns.len() - from,
{
    if from < 0 || from >= conns.len() {
        Seq::empty()
    } else if used.contains(from) {
        spec_pairs(conns, from + 1, used)
    } else {
        match spec_first_partner(conns, used, from, from + 1) {
            Some(partner) => seq![(from, partner)] + spec_pairs(
                conns,
                from + 1,
                used.insert(from).insert(partner),
            ),
            None => spec_pairs(conns, from + 1, used.insert(from)),
        }
    }
}

/// The call that a pair of connections makes.
pub open spec fn spec_call(conns: Seq<ConnectionView>, pair: (int, int)) -> CallView {
    CallView {
        header: CallHeader {
            peer1_ssrc: first_ssrc(conns[pair.0].ingress).unwrap(),
            peer2_ssrc: first_ssrc(conns[pair.1].ingress).unwrap(),
        },
        peer1: conns[pair.0],
        peer2: conns[pair.1],
    }
}

/// The calls among a list of connections.
pub open spec fn spec_calls(conns: Seq<ConnectionView>) -> Seq<CallView> {
    spec_pairs(conns, 0, Set::empty()).map_values(|pair: (int, int)| spec_call(conns, pair))
}

/// The values of the calls of a list, in order.
pub open spec fn call_views(calls: Seq<Call>) -> Seq<CallView> {
    calls.map_values(|c: Call| c@)
}

/// A partner lies behind where the search began, is not taken, and
/// cross-matches; no connection before it does.
pub proof fn lemma_first_partner(conns: Seq<ConnectionView>, used: Set<int>, a: int, from: int)
    requires
        0 <= from,
    ensures
        match spec_first_partner(conns, used, a, from) {
            Some(partner) => {
                &&& from <= partner < conns.len()
                &&& !used.contains(partner)
                &&& cross_match(conns[a], conns[partner])
                &&& forall|j: int|
                    from <= j < partner ==> used.contains(j) || !cross_match(
                        conns[a],
                        #[trigger] conns[j],
                    )
            },
            None => forall|j: int|
                from <= j < conns.len() ==> used.contains(j) || !cross_match(
                    conns[a],
                    #[trigger] conns[j],
                ),
        },
    decreases conns.len() - from,
{
    if from < conns.len() && !(!used.contains(from) && cross_match(conns[a], conns[from])) {
        lemma_first_partner(conns, used, a, from + 1);
    }
}

/// Every pair joins an earlier connection with a later one, both free
/// until then, that cross-match; and no connection is in two pairs.
pub proof fn lemma_pairs(conns: Seq<ConnectionView>, from: int, used: Set<int>)
    requires
        0 <= from,
    ensures
        forall|k: int|
            #![trigger spec_pairs(conns, from, used)[k]]
            0 <= k < spec_pairs(conns, from, used).len() ==> {
                let pair = spec_pairs(conns, from, used)[k];
                &&& from <= pair.0 < pair.1 < conns.len()
                &&& !used.contains(pair.0)
                &&& !used.contains(pair.1)
                &&& cross_match(conns[pair.0], conns[pair.1])
            },
        forall|k: int, l: int|
            #![trigger spec_pairs(conns, from, used)[k], spec_pairs(conns, from, used)[l]]
            0 <= k < l < spec_pairs(conns, from, used).len() ==> {
                let first = spec_pairs(conns, from, used)[k];
                let second = spec_pairs(conns, from, used)[l];
                &&& first.0 < second.0
                &&& first.0 != second.1
                &&& first.1 != second.0
                &&& first.1 != second.1
            },
    decreases conns.len() - from,
{
    let all = spec_pairs(conns, from, used);
    if from < conns.len() {
        if used.contains(from) {
            lemma_pairs(conns, from + 1, used);
            assert(all == spec_pairs(conns, from + 1, used));
        } else {
            lemma_first_partner(conns, used, from, from + 1);
            match spec_first_partner(conns, used, from, from + 1) {
                Some(partner) => {
                    let taken = used.insert(from).insert(partner);
                    lemma_pairs(conns, from + 1, taken);
                    let rest = spec_pairs(conns, from + 1, taken);
                    assert forall|k: int| 0 < k < all.len() implies #[trigger] all[k] == rest[k - 1]
                        && !taken.contains(rest[k - 1].0) && !taken.contains(rest[k - 1].1) by {
                        let _ = rest[k - 1];
                    }
                },
                None => {
                    lemma_pairs(conns, from + 1, used.insert(from));
                    assert(all == spec_pairs(conns, from + 1, used.insert(from)));
                },
            }
        }
    }
}

/// Every call is symmetric: the synchronisation source that the first
/// side receives is the one that the second side sends, and the other way
/// round.
pub proof fn lemma_calls_symmetric(conns: Seq<ConnectionView>)
    ensures
        forall|k: int|
            0 <= k < spec_calls(conns).len() ==> (#[trigger] spec_calls(conns)[k]).symmetric(),
{
    lemma_pairs(conns, 0, Set::empty());
}

fn is_pairable(c: &Connection) -> (r: bool)
    ensures
        r == pairable(c@),
{
    c.header.ftype == FlowType::Rtp && c.ingress_ssrc().is_some() && c.egress_ssrc().is_some()
}

fn is_cross_match(a: &Connection, b: &Connection) -> (r: bool)
    ensures
        r == cross_match(a@, b@),
{
    if !is_pairable(a) || !is_pairable(b) {
        return false;
    }
    let p1 = a.ingress_ssrc();
    let p2 = b.egress_ssrc();
    let q1 = b.ingress_ssrc();
    let q2 = a.egress_ssrc();
    match (p1, p2, q1, q2) {
        (Some(p1), Some(p2), Some(q1), Some(q2)) => p1 == p2 && q1 == q2,
        _ => false,
    }
}

fn ingress_source(c: &Connection) -> (r: u32)
    requires
        pairable(c@),
    ensures
        first_ssrc(c@.ingress) == Some(r),
{
    match c.ingress_ssrc() {
        Some(ssrc) => ssrc,
        None => vstd::pervasive::unreached(),
    }
}

/// Pairs connections into calls.
///
/// Each connection that is not yet part of a call is paired with the
/// first one behind it in the list that is not part of a call either and
/// cross-matches it. A connection that is not an RTP connection, or lacks
/// a packet in one direction, is part of no call.
pub fn extract_calls(conn_list: &Vec<Connection>) -> (calls: Vec<Call>)
    ensures
        call_views(calls@) == spec_calls(connection_views(conn_list@)),
        forall|k: int| 0 <= k < calls.len() ==> (#[trigger] calls[k])@.symmetric(),
{
    let ghost conns = connection_views(conn_list@);
    let ghost mut pairs: Seq<(int, int)> = Seq::empty();
    let ghost mut used: Set<int> = Set::empty();
    let mut mark_set: HashSet<usize> = HashSet::with_capacity(conn_list.len());
    let mut calls: Vec<Call> = Vec::new();
    let mut i: usize = 0;
    while i < conn_list.len()
        invariant
            i <= conn_list.len(),
            conns == connection_views(conn_list@),
            spec_pairs(conns, 0, Set::empty()) == pairs + spec_pairs(conns, i as int, used),
            forall|m: usize| mark_set@.contains(m) <==> used.contains(m as int),
            calls.len() == pairs.len(),
            forall|k: int|
                0 <= k < calls.len() ==> (#[trigger] calls[k])@ == spec_call(conns, pairs[k]),
        decreases conn_list.len() - i,
    {
        if mark_set.contains(&i) {
            i += 1;
            continue;
        }
        let ghost before = used;
        mark_set.insert(i);
        proof {
            used = used.insert(i as int);
        }
        let conn1 = &conn_list[i];
        let mut j: usize = i + 1;
        let mut partner: Option<usize> = None;
        while j < conn_list.len() && partner.is_none()
            invariant
                i < j <= conn_list.len(),
                conns == connection_views(conn_list@),
                conn1@ == conns[i as int],
                forall|m: usize| mark_set@.contains(m) <==> used.contains(m as int),
                used == before.insert(i as int),
                match partner {
                    Some(at) => spec_first_partner(conns, before, i as int, i + 1) == Some(
                        at as int,
                    ) && i < at < conn_list.len(),
                    None => spec_first_partner(conns, before, i as int, i + 1)
                        == spec_first_partner(conns, before, i as int, j as int),
                },
            decreases conn_list.len() - j + (if partner.is_none() { 1int } else { 0int }),
        {
            let conn2 = &conn_list[j];
            let taken = mark_set.contains(&j);
            assert(mark_set@.contains(j) == used.contains(j as int));
            if !taken && is_cross_match(conn1, conn2) {
                partner = Some(j);
            } else {
                j += 1;
            }
        }
        match partner {
            Some(at) => {
                let conn2 = &conn_list[at];
                proof {
                    lemma_first_partner(conns, before, i as int, i + 1);
                }
                mark_set.insert(at);
                let header = CallHeader {
                    peer1_ssrc: ingress_source(conn1),
                    peer2_ssrc: ingress_source(conn2),
                };
                calls.push(Call { header, peer1: conn1.duplicate(), peer2: conn2.duplicate() });
                proof {
                    used = used.insert(at as int);
                    pairs = pairs.push((i as int, at as int));
                }
            },
            None => {},
        }
        i += 1;
    }
    proof {
        assert(call_views(calls@) =~= spec_calls(conns));
        lemma_calls_symmetric(conns);
        assert forall|k: int| 0 <= k < calls.len() implies (#[trigger] calls[k])@.symmetric() by {
            assert(calls[k]@ == call_views(calls@)[k]);
        }
    }
    calls
}

} // verus!
