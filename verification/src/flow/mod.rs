//! Flows: UDP datagrams seen from the configured local address.

use crate::structs::ether::{Ether, EtherView};
use crate::structs::ipv4::{IPv4Header, IPv4View, IPv4};
use crate::structs::raw::{Raw, RawView};
use crate::structs::rtcp::{RtcpView, RTCP};
use crate::structs::rtp::{RtpHeader, RtpView, RTP};
use crate::structs::udp::{UdpHeader, UdpView, UDP};
use vstd::prelude::*;

pub mod call;
pub mod connection;

verus! {

/// What a flow carries.
#[derive(Debug, Clone, Copy, PartialEq, Eq, Structural)]
pub enum FlowType {
    Rtp,
    Rtcp,
    Udp,
}

/// Which way a datagram travels, seen from the local address.
#[derive(Debug, Clone, Copy, PartialEq, Eq, Structural)]
pub enum FlowDirection {
    /// Towards the local address.
    Ingress,
    /// Away from the local address.
    Egress,
}

/// An IPv4 address, as the 32-bit number its four bytes spell, and a port.
#[derive(Debug, Clone, Copy, PartialEq, Eq, Hash, Structural)]
pub struct Endpoint {
    pub ip: u32,
    pub port: u16,
}

/// The payload of a datagram, as classified.
#[derive(Debug, Clone, PartialEq, Eq)]
pub enum FlowPayload {
    Binary(Vec<u8>),
    Text(String),
    Rtp(RTP),
    Rtcp(RTCP),
}

/// The mathematical value of a [`FlowPayload`].
pub enum FlowPayloadView {
    Binary(Seq<u8>),
    Text(Seq<char>),
    Rtp(RtpView),
    Rtcp(RtcpView),
}

impl View for FlowPayload {
    type V = FlowPayloadView;

    open spec fn view(&self) -> FlowPayloadView {
        match self {
            FlowPayload::Binary(b) => FlowPayloadView::Binary(b@),
            FlowPayload::Text(t) => FlowPayloadView::Text(t@),
            FlowPayload::Rtp(rtp) => FlowPayloadView::Rtp(rtp@),
            FlowPayload::Rtcp(rtcp) => FlowPayloadView::Rtcp(rtcp@),
        }
    }
}

impl FlowPayloadView {
    /// The RTP header of the payload, if it is an RTP packet.
    pub open spec fn rtp_header(self) -> Option<RtpHeader> {
        match self {
            FlowPayloadView::Rtp(rtp) => Some(rtp.header),
            _ => None,
        }
    }
}

impl FlowPayload {
    /// A copy of the payload.
    pub fn duplicate(&self) -> (r: FlowPayload)
        ensures
            r@ == self@,
    {
        match self {
            FlowPayload::Binary(b) => FlowPayload::Binary(b.clone()),
            FlowPayload::Text(t) => FlowPayload::Text(t.clone()),
            FlowPayload::Rtp(rtp) => FlowPayload::Rtp(rtp.duplicate()),
            FlowPayload::Rtcp(rtcp) => FlowPayload::Rtcp(rtcp.duplicate()),
        }
    }
}

/// One datagram of a connection: when it was captured, in microseconds
/// since the epoch, and what it held.
#[derive(Debug, Clone, PartialEq, Eq)]
pub struct FlowPacket {
    pub ts: u64,
    pub payload: FlowPayload,
}

/// The mathematical value of a [`FlowPacket`].
pub struct FlowPacketView {
    pub ts: u64,
    pub payload: FlowPayloadView,
}

impl View for FlowPacket {
    type V = FlowPacketView;

    open spec fn view(&self) -> FlowPacketView {
        FlowPacketView { ts: self.ts, payload: self.payload@ }
    }
}

impl FlowPacketView {
    /// The RTP header of the packet, if it is an RTP packet.
    pub open spec fn rtp_header(self) -> Option<RtpHeader> {
        self.payload.rtp_header()
    }

    /// Whether the packet is an RTP packet.
    pub open spec fn is_rtp(self) -> bool {
        self.payload is Rtp
    }
}

impl FlowPacket {
    /// The RTP packet inside, if the payload is one.
    pub fn rtp(&self) -> (r: Option<&RTP>)
        ensures
            match r {
                Some(rtp) => self@.payload == FlowPayloadView::Rtp(rtp@),
                None => !self@.is_rtp(),
            },
    {
        match &self.payload {
            FlowPayload::Rtp(rtp) => Some(rtp),
            _ => None,
        }
    }

    /// A copy of the packet.
    pub fn duplicate(&self) -> (r: FlowPacket)
        ensures
            r@ == self@,
    {
        FlowPacket { ts: self.ts, payload: self.payload.duplicate() }
    }
}

/// The values of the packets of a list, in order.
pub open spec fn packet_views(pkts: Seq<FlowPacket>) -> Seq<FlowPacketView> {
    pkts.map_values(|p: FlowPacket| p@)
}

/// Kind, direction and endpoints of a datagram.
#[derive(Debug, Clone, Copy, PartialEq, Eq, Structural)]
pub struct FlowHeader {
    pub ftype: FlowType,
    pub dir: FlowDirection,
    pub local: Endpoint,
    pub remote: Endpoint,
}

/// One captured UDP datagram, seen from the local address.
#[derive(Debug, Clone, PartialEq, Eq)]
pub struct FlowData {
    /// Capture time in microseconds since the epoch.
    pub ts: u64,
    pub header: FlowHeader,
    pub payload: FlowPayload,
}

/// The mathematical value of a [`FlowData`].
pub struct FlowDataView {
    pub ts: u64,
    pub header: FlowHeader,
    pub payload: FlowPayloadView,
}

impl View for FlowData {
    type V = FlowDataView;

    open spec fn view(&self) -> FlowDataView {
        FlowDataView { ts: self.ts, header: self.header, payload: self.payload@ }
    }
}

impl FlowDataView {
    /// The datagram as a packet of a connection.
    pub open spec fn packet(self) -> FlowPacketView {
        FlowPacketView { ts: self.ts, payload: self.payload }
    }
}

/// The IPv4 header, the UDP header and the payload of a frame that holds
/// a UDP datagram over IPv4.
pub open spec fn spec_udp_over_ipv4(raw: RawView) -> Option<(IPv4Header, UdpHeader, UdpView)> {
    let body = match raw {
        RawView::Ether(_, body) => Some(body),
        RawView::Tun(body) => Some(body),
        RawView::Unknown(_) => None,
    };
    match body {
        Some(EtherView::IPv4(ip_hdr, IPv4View::UDP(udp_hdr, udp))) => Some((ip_hdr, udp_hdr, udp)),
        _ => None,
    }
}

/// Kind and payload of the flow that a UDP payload makes.
pub open spec fn spec_flow_payload(udp: UdpView) -> (FlowType, FlowPayloadView) {
    match udp {
        UdpView::Rtp(rtp) => (FlowType::Rtp, FlowPayloadView::Rtp(rtp)),
        UdpView::Rtcp(rtcp) => (FlowType::Rtcp, FlowPayloadView::Rtcp(rtcp)),
        UdpView::Binary(bytes) => (FlowType::Udp, FlowPayloadView::Binary(bytes)),
        UdpView::Text(text) => (FlowType::Udp, FlowPayloadView::Text(text)),
    }
}

/// The flow record of a frame captured at `ts`, seen from `local_ip`.
///
/// Only a UDP datagram over IPv4 has one, and only if it comes from the
/// local address (egress) or goes to it (ingress). One that does both is
/// egress.
pub open spec fn spec_flow_data(local_ip: u32, ts: u64, raw: RawView) -> Option<FlowDataView> {
    match spec_udp_over_ipv4(raw) {
        Some((ip_hdr, udp_hdr, udp)) => {
            let source = Endpoint { ip: ip_hdr.source_addr, port: udp_hdr.source_port };
            let dest = Endpoint { ip: ip_hdr.dest_addr, port: udp_hdr.dest_port };
            let (ftype, payload) = spec_flow_payload(udp);
            if ip_hdr.source_addr == local_ip {
                Some(
                    FlowDataView {
                        ts,
                        header: FlowHeader {
                            ftype,
                            dir: FlowDirection::Egress,
                            local: source,
                            remote: dest,
                        },
                        payload,
                    },
                )
            } else if ip_hdr.dest_addr == local_ip {
                Some(
                    FlowDataView {
                        ts,
                        header: FlowHeader {
                            ftype,
                            dir: FlowDirection::Ingress,
                            local: dest,
                            remote: source,
                        },
                        payload,
                    },
                )
            } else {
                None
            }
        },
        None => None,
    }
}

/// A frame that neither comes from the local address nor goes to it has
/// no flow record.
pub proof fn lemma_foreign_frame_has_no_flow(local_ip: u32, ts: u64, raw: RawView)
    requires
        spec_udp_over_ipv4(raw) matches Some((ip_hdr, _, _)) ==> ip_hdr.source_addr != local_ip
            && ip_hdr.dest_addr != local_ip,
    ensures
        spec_flow_data(local_ip, ts, raw) is None,
{
}

/// The kind of a flow record is the kind of its payload, the local
/// endpoint has the local address, and the time is the capture time.
pub proof fn lemma_flow_data_consistent(local_ip: u32, ts: u64, raw: RawView)
    ensures
        spec_flow_data(local_ip, ts, raw) matches Some(d) ==> {
            &&& d.ts == ts
            &&& d.header.local.ip == local_ip
            &&& d.header.ftype == match d.payload {
                FlowPayloadView::Rtp(_) => FlowType::Rtp,
                FlowPayloadView::Rtcp(_) => FlowType::Rtcp,
                _ => FlowType::Udp,
            }
        },
{
}

/// Lifts a classified frame into a flow record, seen from `local_ip`.
pub fn get_flow_data(local_ip: u32, ts: u64, raw: &Raw) -> (r: Option<FlowData>)
    ensures
        match r {
            Some(d) => spec_flow_data(local_ip, ts, raw@) == Some(d@),
            None => spec_flow_data(local_ip, ts, raw@) is None,
        },
{
    let body = match raw {
        Raw::Ether(_, body) => body,
        Raw::Tun(body) => body,
        Raw::Unknown(_) => {
            return None;
        },
    };
    if let Ether::IPv4(v4_hdr, v4) = body {
        if let IPv4::UDP(udp_hdr, udp) = v4 {
            let source = Endpoint { ip: v4_hdr.source_addr, port: udp_hdr.source_port };
            let dest = Endpoint { ip: v4_hdr.dest_addr, port: udp_hdr.dest_port };
            let (dir, local, remote) = if v4_hdr.source_addr == local_ip {
                (FlowDirection::Egress, source, dest)
            } else if v4_hdr.dest_addr == local_ip {
                (FlowDirection::Ingress, dest, source)
            } else {
                return None;
            };
            let (ftype, payload) = match udp {
                UDP::Rtp(rtp) => (FlowType::Rtp, FlowPayload::Rtp(rtp.duplicate())),
                UDP::Rtcp(rtcp) => (FlowType::Rtcp, FlowPayload::Rtcp(rtcp.duplicate())),
                UDP::Binary(p) => (FlowType::Udp, FlowPayload::Binary(p.clone())),
                UDP::Text(t) => (FlowType::Udp, FlowPayload::Text(t.clone())),
            };
            let header = FlowHeader { ftype, dir, local, remote };
            return Some(FlowData { ts, header, payload });
        }
    }
    None
}

/// Putting an element into a list adds it to what the list holds and
/// changes nothing else.
pub proof fn lemma_insert_to_multiset<A>(s: Seq<A>, at: int, a: A)
    requires
        0 <= at <= s.len(),
    ensures
        s.insert(at, a).to_multiset() == s.to_multiset().insert(a),
{
    let longer = s.insert(at, a);
    assert(longer.remove(at) =~= s);
    vstd::seq_lib::to_multiset_remove(longer, at);
    longer.to_multiset_ensures();
}

/// The capture time, in microseconds since the epoch, that a capture
/// source reports as seconds and microseconds.
pub open spec fn spec_capture_time(tv_sec: i64, tv_usec: i64) -> Option<u64> {
    if tv_sec >= 0 && tv_usec >= 0 && tv_sec * 1_000_000 + tv_usec <= u64::MAX {
        Some((tv_sec * 1_000_000 + tv_usec) as u64)
    } else {
        None
    }
}

/// Turns the seconds and microseconds of a capture source into
/// microseconds since the epoch. There is none for a time before the
/// epoch or beyond 64 bits.
pub fn capture_time(tv_sec: i64, tv_usec: i64) -> (r: Option<u64>)
    ensures
        r == spec_capture_time(tv_sec, tv_usec),
{
    if tv_sec < 0 || tv_usec < 0 {
        return None;
    }
    let micros: u128 = tv_sec as u128 * 1_000_000 + tv_usec as u128;
    if micros <= u64::MAX as u128 {
        Some(micros as u64)
    } else {
        None
    }
}

} // verus!
