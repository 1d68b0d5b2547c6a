use sniffglue::centrifuge;
use sniffglue::flow::call::{
    compute_delay_stats, compute_flow_stats, cseq_greater, extract_calls, is_all_rtp, reorder,
    timestamp_delta, Call, CallHeader, DelayError, DelayStats, FlowStats,
};
use sniffglue::flow::connection::{
    conn_add_flow_data, find_conn, make_conn, Connection, ConnectionHeader, ConnectionKey,
    ConnectionMap,
};
use sniffglue::flow::{
    get_flow_data, Endpoint, FlowData, FlowDirection, FlowHeader, FlowPacket, FlowPayload, FlowType,
};
use sniffglue::link::DataLink;
use sniffglue::structs::rtcp::{RtcpHeader, RTCP};
use sniffglue::structs::rtp::{RtpHeader, RTP};

const LOCAL: Endpoint = Endpoint { ip: 0xc0a80633, port: 4000 };
const REMOTE: Endpoint = Endpoint { ip: 0xcb007105, port: 20000 };
const SECOND: u64 = 1_000_000;

fn rtp(seq: u16, ts: u32, ssrc: u32) -> RTP {
    RTP {
        header: RtpHeader {
            cc: 0,
            extension: 0,
            padding: 0,
            version: 2,
            payload: 0,
            marker: 0,
            seqnum: seq,
            timestamp: ts,
            ssrc,
        },
        payload: vec![0x55; 4],
    }
}

fn pkt(at: u64, seq: u16, ts: u32, ssrc: u32) -> FlowPacket {
    FlowPacket { ts: at, payload: FlowPayload::Rtp(rtp(seq, ts, ssrc)) }
}

fn flow(at: u64, dir: FlowDirection, remote: Endpoint, seq: u16, ssrc: u32) -> FlowData {
    FlowData {
        ts: at,
        header: FlowHeader { ftype: FlowType::Rtp, dir, local: LOCAL, remote },
        payload: FlowPayload::Rtp(rtp(seq, 0, ssrc)),
    }
}

fn conn(remote: Endpoint, ingress: Vec<FlowPacket>, egress: Vec<FlowPacket>) -> Connection {
    Connection {
        header: ConnectionHeader { ftype: FlowType::Rtp, local: LOCAL, remote },
        ingress_pkts: ingress,
        egress_pkts: egress,
    }
}

fn frame_with(src: [u8; 4], sport: u16, dst: [u8; 4], dport: u16, payload: &[u8]) -> Vec<u8> {
    let mut out = vec![0u8; 12];
    out.extend_from_slice(&[0x08, 0x00]);
    out.extend_from_slice(&[0x45, 0x00]);
    out.extend_from_slice(&((payload.len() + 28) as u16).to_be_bytes());
    out.extend_from_slice(&[0, 0, 0x40, 0, 64, 17, 0, 0]);
    out.extend_from_slice(&src);
    out.extend_from_slice(&dst);
    out.extend_from_slice(&sport.to_be_bytes());
    out.extend_from_slice(&dport.to_be_bytes());
    out.extend_from_slice(&((payload.len() + 8) as u16).to_be_bytes());
    out.extend_from_slice(&[0, 0]);
    out.extend_from_slice(payload);
    out
}

fn rtp_payload(seq: u16, ts: u32, ssrc: u32, len: usize) -> Vec<u8> {
    let mut out = vec![0x80, 0];
    out.extend_from_slice(&seq.to_be_bytes());
    out.extend_from_slice(&ts.to_be_bytes());
    out.extend_from_slice(&ssrc.to_be_bytes());
    out.extend_from_slice(&vec![0x55; len]);
    out
}

#[test]
fn cseq_greater_examples() {
    assert!(cseq_greater(0, 0xffff));
    assert!(!cseq_greater(0x7fff, 0xffff));
    assert!(cseq_greater(5, 5));
    assert!(cseq_greater(6, 5));
    assert!(!cseq_greater(5, 6));
    assert!(cseq_greater(0x7fff, 0));
    assert!(!cseq_greater(0x8000, 0));
    assert!(!cseq_greater(0, 0x8000));
    assert!(cseq_greater(0, 0x8001));
    assert!(!cseq_greater(0xffff, 0));
    assert!(cseq_greater(0xffff, 0x8000));
}

#[test]
fn cseq_greater_is_the_modular_formula() {
    let samples = [0u16, 1, 2, 0x7ffe, 0x7fff, 0x8000, 0x8001, 0xfffe, 0xffff, 100, 40000];
    for &a in samples.iter() {
        for &b in samples.iter() {
            assert_eq!(cseq_greater(a, b), a.wrapping_sub(b) < 0x8000, "{} {}", a, b);
            let k = 12345u16;
            assert_eq!(
                cseq_greater(a.wrapping_add(k), b.wrapping_add(k)),
                cseq_greater(a, b),
                "{} {}",
                a,
                b
            );
        }
    }
}

#[test]
fn timestamp_delta_examples() {
    assert_eq!(timestamp_delta(10, 3), 7);
    assert_eq!(timestamp_delta(3, 10), -7);
    assert_eq!(timestamp_delta(7, 7), 0);
    assert_eq!(timestamp_delta(u32::MAX, 10), -11);
    assert_eq!(timestamp_delta(10, u32::MAX), 11);
    assert_eq!(timestamp_delta(0x7fff_ffff, 0), 0x7fff_ffff);
    assert_eq!(timestamp_delta(0, 0x7fff_ffff), -0x7fff_ffff);
    assert_eq!(timestamp_delta(0x8000_0000, 0), -0x8000_0000);
    assert_eq!(timestamp_delta(0, 0x8000_0000), 0x8000_0000);
    assert_eq!(timestamp_delta(u32::MAX, 0), -1);
    assert_eq!(timestamp_delta(0, u32::MAX), 1);
}

#[test]
fn timestamp_delta_is_antisymmetric() {
    let samples = [0u32, 1, 959, 960, 0x7fff_ffff, 0x8000_0000, 0x8000_0001, u32::MAX - 1, u32::MAX];
    for &a in samples.iter() {
        for &b in samples.iter() {
            assert_eq!(timestamp_delta(a, b), -timestamp_delta(b, a), "{} {}", a, b);
            assert_eq!((timestamp_delta(a, b) - (a as i64 - b as i64)).rem_euclid(1 << 32), 0);
        }
    }
}

#[test]
fn text_datagram_between_foreign_hosts_has_no_flow() {
    let frame = frame_with([10, 0, 0, 1], 7000, [10, 0, 0, 2], 7001, b"hello\n");
    let tree = centrifuge::parse(&DataLink::Ethernet, &frame);
    assert_eq!(get_flow_data(0xc0a80633, 5, &tree), None);
}

#[test]
fn rtp_to_the_local_address_is_ingress() {
    let frame = frame_with(
        [203, 0, 113, 5],
        10000,
        [192, 168, 6, 51],
        10002,
        &rtp_payload(1, 0, 0xdeadbeef, 160),
    );
    let tree = centrifuge::parse(&DataLink::Ethernet, &frame);
    let data = get_flow_data(0xc0a80633, 1_700_000_000_000_000, &tree).unwrap();
    assert_eq!(data.ts, 1_700_000_000_000_000);
    assert_eq!(
        data.header,
        FlowHeader {
            ftype: FlowType::Rtp,
            dir: FlowDirection::Ingress,
            local: Endpoint { ip: 0xc0a80633, port: 10002 },
            remote: Endpoint { ip: 0xcb007105, port: 10000 },
        }
    );
    match data.payload {
        FlowPayload::Rtp(packet) => {
            assert_eq!(packet.header.ssrc, 0xdeadbeef);
            assert_eq!(packet.header.seqnum, 1);
            assert_eq!(packet.payload.len(), 160);
        }
        other => panic!("{:?}", other),
    }
}

#[test]
fn rtp_from_the_local_address_is_egress() {
    let frame = frame_with(
        [192, 168, 6, 51],
        10002,
        [203, 0, 113, 5],
        10000,
        &rtp_payload(1, 0, 0xdeadbeef, 160),
    );
    let tree = centrifuge::parse(&DataLink::Ethernet, &frame);
    let data = get_flow_data(0xc0a80633, 9, &tree).unwrap();
    assert_eq!(
        data.header,
        FlowHeader {
            ftype: FlowType::Rtp,
            dir: FlowDirection::Egress,
            local: Endpoint { ip: 0xc0a80633, port: 10002 },
            remote: Endpoint { ip: 0xcb007105, port: 10000 },
        }
    );
    // a datagram from the local address to itself is egress
    let own = frame_with([192, 168, 6, 51], 1, [192, 168, 6, 51], 2, b"x");
    let own = get_flow_data(0xc0a80633, 9, &centrifuge::parse(&DataLink::Ethernet, &own)).unwrap();
    assert_eq!(own.header.dir, FlowDirection::Egress);
    assert_eq!(own.header.local.port, 1);
    assert_eq!(own.header.remote.port, 2);
}

#[test]
fn flow_kind_follows_the_payload() {
    let local = [192, 168, 6, 51];
    let far = [203, 0, 113, 5];
    let text = frame_with(far, 7000, local, 7001, b"hello\n");
    let data = get_flow_data(0xc0a80633, 1, &centrifuge::parse(&DataLink::Ethernet, &text)).unwrap();
    assert_eq!(data.header.ftype, FlowType::Udp);
    assert_eq!(data.payload, FlowPayload::Text("hello\n".to_string()));

    let binary = frame_with(far, 7000, local, 7001, &[0, 1]);
    let data = get_flow_data(0xc0a80633, 1, &centrifuge::parse(&DataLink::Ethernet, &binary)).unwrap();
    assert_eq!(data.header.ftype, FlowType::Udp);
    assert_eq!(data.payload, FlowPayload::Binary(vec![0, 1]));

    let rtcp = frame_with(far, 7001, local, 7003, &[0x80, 200, 0, 6, 0, 0, 0, 9, 0, 0, 0, 0]);
    let data = get_flow_data(0xc0a80633, 1, &centrifuge::parse(&DataLink::Ethernet, &rtcp)).unwrap();
    assert_eq!(data.header.ftype, FlowType::Rtcp);
    assert_eq!(
        data.payload,
        FlowPayload::Rtcp(RTCP {
            header: RtcpHeader { rc: 0, padding: 0, version: 2, payload: 200, length: 6, ssrc: 9 },
            payload: vec![0, 0, 0, 0],
        })
    );
}

#[test]
fn only_udp_over_ipv4_has_a_flow() {
    let local = [192, 168, 6, 51];
    let frame = frame_with([203, 0, 113, 5], 7000, local, 7001, b"hello\n");
    // the same packet without Ethernet header
    let tun = centrifuge::parse(&DataLink::Tun, &frame[14..]);
    assert!(get_flow_data(0xc0a80633, 1, &tun).is_some());
    // TCP
    let mut tcp = frame.clone();
    tcp[23] = 6;
    assert_eq!(get_flow_data(0xc0a80633, 1, &centrifuge::parse(&DataLink::Ethernet, &tcp)), None);
    // cut frames
    for end in [0usize, 13, 14, 33, 41] {
        let tree = centrifuge::parse(&DataLink::Ethernet, &frame[..end]);
        assert_eq!(get_flow_data(0xc0a80633, 1, &tree), None);
    }
}

#[test]
fn connection_accessors() {
    let empty = conn(REMOTE, vec![], vec![]);
    assert!(!empty.valid());
    assert_eq!(empty.ingress_tsrange(), None);
    assert_eq!(empty.egress_tsrange(), None);
    assert_eq!(empty.ingress_ssrc(), None);
    assert_eq!(empty.egress_ssrc(), None);

    let half = conn(REMOTE, vec![pkt(10, 1, 0, 7)], vec![]);
    assert!(!half.valid());
    assert_eq!(half.ingress_tsrange(), Some((10, 10)));
    assert_eq!(half.ingress_ssrc(), Some(7));
    assert_eq!(half.egress_ssrc(), None);

    let full = conn(
        REMOTE,
        vec![pkt(10, 1, 0, 7), pkt(30, 2, 0, 7), pkt(20, 3, 0, 7)],
        vec![pkt(11, 1, 0, 8), pkt(12, 2, 0, 8)],
    );
    assert!(full.valid());
    assert_eq!(full.ingress_tsrange(), Some((10, 20)));
    assert_eq!(full.egress_tsrange(), Some((11, 12)));
    assert_eq!(full.ingress_ssrc(), Some(7));
    assert_eq!(full.egress_ssrc(), Some(8));
    assert_eq!(full.duplicate(), full);

    let text = FlowPacket { ts: 1, payload: FlowPayload::Text("x".to_string()) };
    assert!(text.rtp().is_none());
    assert_eq!(text.duplicate(), text);
    let not_rtp = conn(REMOTE, vec![text], vec![]);
    assert_eq!(not_rtp.ingress_ssrc(), None);
    assert_eq!(not_rtp.ingress_tsrange(), Some((1, 1)));
}

#[test]
fn connection_key_index() {
    let key = ConnectionKey { remote: Endpoint { ip: 0xcb007105, port: 20000 } };
    assert_eq!(key.index(), 0xcb007105_4e20);
    assert_eq!(ConnectionKey { remote: Endpoint { ip: 0, port: 0 } }.index(), 0);
    assert_eq!(
        ConnectionKey { remote: Endpoint { ip: u32::MAX, port: u16::MAX } }.index(),
        0xffff_ffff_ffff
    );
    assert_ne!(
        ConnectionKey { remote: Endpoint { ip: 1, port: 0 } }.index(),
        ConnectionKey { remote: Endpoint { ip: 0, port: 1 } }.index()
    );
}

#[test]
fn first_packets_of_both_directions_meet() {
    let mut map = ConnectionMap::new();
    map.add(flow(10 * SECOND, FlowDirection::Ingress, REMOTE, 1, 0xa));
    map.add(flow(10 * SECOND + 500, FlowDirection::Egress, REMOTE, 1, 0xb));
    map.add(flow(10 * SECOND + 900, FlowDirection::Ingress, REMOTE, 2, 0xa));
    let key = ConnectionKey { remote: REMOTE }.index();
    assert_eq!(map.map.len(), 1);
    let list = &map.map[&key];
    assert_eq!(list.len(), 1);
    assert_eq!(list[0].header, ConnectionHeader { ftype: FlowType::Rtp, local: LOCAL, remote: REMOTE });
    assert_eq!(list[0].ingress_pkts.len(), 2);
    assert_eq!(list[0].egress_pkts.len(), 1);
    assert_eq!(list[0].ingress_pkts[1].ts, 10 * SECOND + 900);
    assert_eq!(list[0].ingress_ssrc(), Some(0xa));
    assert_eq!(list[0].egress_ssrc(), Some(0xb));
}

#[test]
fn sessions_five_seconds_apart_are_two_connections() {
    let (a, b, c, d) = (0xa, 0xb, 0xc, 0xd);
    let mut map = ConnectionMap::new();
    for i in 0..3u64 {
        map.add(flow(100 * SECOND + i * 20_000, FlowDirection::Ingress, REMOTE, i as u16, a));
        map.add(flow(100 * SECOND + i * 20_000 + 100, FlowDirection::Egress, REMOTE, i as u16, b));
    }
    for i in 0..3u64 {
        map.add(flow(105 * SECOND + i * 20_000, FlowDirection::Ingress, REMOTE, i as u16, c));
        map.add(flow(105 * SECOND + i * 20_000 + 100, FlowDirection::Egress, REMOTE, i as u16, d));
    }
    let list = &map.map[&ConnectionKey { remote: REMOTE }.index()];
    assert_eq!(list.len(), 2);
    assert_eq!((list[0].ingress_ssrc(), list[0].egress_ssrc()), (Some(a), Some(b)));
    assert_eq!((list[1].ingress_ssrc(), list[1].egress_ssrc()), (Some(c), Some(d)));
    for connection in list.iter() {
        assert!(connection.valid());
        assert_eq!(connection.ingress_pkts.len(), 3);
        assert_eq!(connection.egress_pkts.len(), 3);
        assert_eq!(connection.header.remote, REMOTE);
    }
    // a late packet of the first session still finds it
    map.add(flow(106 * SECOND, FlowDirection::Ingress, REMOTE, 9, a));
    let list = &map.map[&ConnectionKey { remote: REMOTE }.index()];
    assert_eq!(list.len(), 2);
    assert_eq!(list[0].ingress_pkts.len(), 4);
}

#[test]
fn locality_window_is_one_second_either_side() {
    let at = 50 * SECOND;
    for (offset_back, offset_forth, joins) in [
        (SECOND, 0, true),
        (SECOND + 1, 0, false),
        (0, SECOND + 10, true),
        (0, SECOND + 11, false),
    ] {
        let mut map = ConnectionMap::new();
        map.add(flow(at, FlowDirection::Ingress, REMOTE, 1, 0xa));
        map.add(flow(at + 10, FlowDirection::Ingress, REMOTE, 2, 0xa));
        map.add(flow(at - offset_back + offset_forth, FlowDirection::Egress, REMOTE, 1, 0xb));
        let list = &map.map[&ConnectionKey { remote: REMOTE }.index()];
        assert_eq!(list.len() == 1, joins, "{} {}", offset_back, offset_forth);
    }
}

#[test]
fn locality_window_near_the_ends_of_time() {
    let mut map = ConnectionMap::new();
    map.add(flow(10, FlowDirection::Ingress, REMOTE, 1, 0xa));
    map.add(flow(0, FlowDirection::Egress, REMOTE, 1, 0xb));
    assert_eq!(map.map[&ConnectionKey { remote: REMOTE }.index()].len(), 1);
    let mut map = ConnectionMap::new();
    map.add(flow(u64::MAX - 10, FlowDirection::Egress, REMOTE, 1, 0xa));
    map.add(flow(u64::MAX, FlowDirection::Ingress, REMOTE, 1, 0xb));
    assert_eq!(map.map[&ConnectionKey { remote: REMOTE }.index()].len(), 1);
}

#[test]
fn a_new_source_in_a_known_direction_opens_a_connection() {
    let mut map = ConnectionMap::new();
    map.add(flow(10 * SECOND, FlowDirection::Ingress, REMOTE, 1, 0xa));
    map.add(flow(10 * SECOND + 1, FlowDirection::Ingress, REMOTE, 1, 0xc));
    let list = &map.map[&ConnectionKey { remote: REMOTE }.index()];
    assert_eq!(list.len(), 2);
    assert_eq!(list[0].ingress_ssrc(), Some(0xa));
    assert_eq!(list[1].ingress_ssrc(), Some(0xc));
    // an egress packet near both goes to the newest
    map.add(flow(10 * SECOND + 2, FlowDirection::Egress, REMOTE, 1, 0xb));
    let list = &map.map[&ConnectionKey { remote: REMOTE }.index()];
    assert_eq!(list.len(), 2);
    assert_eq!(list[0].egress_pkts.len(), 0);
    assert_eq!(list[1].egress_ssrc(), Some(0xb));
}

#[test]
fn connections_are_kept_by_remote_endpoint() {
    let other = Endpoint { ip: REMOTE.ip, port: REMOTE.port + 2 };
    let mut map = ConnectionMap::new();
    map.add(flow(SECOND, FlowDirection::Ingress, REMOTE, 1, 0xa));
    map.add(flow(SECOND, FlowDirection::Ingress, other, 1, 0xa));
    assert_eq!(map.map.len(), 2);
    assert_eq!(map.map[&ConnectionKey { remote: REMOTE }.index()].len(), 1);
    assert_eq!(map.map[&ConnectionKey { remote: other }.index()][0].header.remote, other);
}

#[test]
fn only_rtp_is_filed() {
    let mut map = ConnectionMap::new();
    assert_eq!(map.map.len(), 0);
    map.add(FlowData {
        ts: 1,
        header: FlowHeader {
            ftype: FlowType::Udp,
            dir: FlowDirection::Ingress,
            local: LOCAL,
            remote: REMOTE,
        },
        payload: FlowPayload::Text("hello".to_string()),
    });
    map.add(FlowData {
        ts: 1,
        header: FlowHeader {
            ftype: FlowType::Rtcp,
            dir: FlowDirection::Ingress,
            local: LOCAL,
            remote: REMOTE,
        },
        payload: FlowPayload::Rtcp(RTCP {
            header: RtcpHeader { rc: 0, padding: 0, version: 2, payload: 200, length: 1, ssrc: 1 },
            payload: vec![],
        }),
    });
    assert_eq!(map.map.len(), 0);
}

#[test]
fn every_packet_of_a_connection_has_the_source_of_the_first() {
    let mut map = ConnectionMap::new();
    let sources = [0xa, 0xb, 0xc, 0xa, 0xd, 0xb, 0xa, 0xc];
    for (i, ssrc) in sources.iter().enumerate() {
        let dir = if i % 3 == 0 { FlowDirection::Egress } else { FlowDirection::Ingress };
        let remote = Endpoint { ip: REMOTE.ip, port: REMOTE.port + (i % 2) as u16 };
        map.add(flow(SECOND + (i as u64) * 700_000, dir, remote, i as u16, *ssrc));
    }
    let mut packets = 0;
    for (key, list) in map.map.iter() {
        for connection in list.iter() {
            assert_eq!(ConnectionKey { remote: connection.header.remote }.index(), *key);
            assert_eq!(connection.header.ftype, FlowType::Rtp);
            for side in [&connection.ingress_pkts, &connection.egress_pkts] {
                for packet in side.iter() {
                    let first = side[0].rtp().unwrap().header.ssrc;
                    assert_eq!(packet.rtp().unwrap().header.ssrc, first);
                    packets += 1;
                }
            }
        }
    }
    assert_eq!(packets, sources.len());
}

#[test]
fn find_conn_prefers_the_newest() {
    let list = vec![
        conn(REMOTE, vec![pkt(SECOND, 1, 0, 0xa)], vec![]),
        conn(REMOTE, vec![pkt(2 * SECOND, 1, 0, 0xc)], vec![]),
        conn(REMOTE, vec![pkt(3 * SECOND, 1, 0, 0xa)], vec![]),
    ];
    assert_eq!(find_conn(9 * SECOND, FlowDirection::Ingress, 0xa, &list), Some(2));
    assert_eq!(find_conn(9 * SECOND, FlowDirection::Ingress, 0xc, &list), Some(1));
    assert_eq!(find_conn(9 * SECOND, FlowDirection::Ingress, 0xe, &list), None);
    assert_eq!(find_conn(2 * SECOND + 5, FlowDirection::Egress, 0xe, &list), Some(2));
    assert_eq!(find_conn(SECOND + 5, FlowDirection::Egress, 0xe, &list), Some(1));
    assert_eq!(find_conn(5, FlowDirection::Egress, 0xe, &list), Some(0));
    assert_eq!(find_conn(5 * SECOND, FlowDirection::Egress, 0xe, &list), None);
    assert_eq!(find_conn(5, FlowDirection::Egress, 0xe, &vec![]), None);
    assert_eq!(
        find_conn(5, FlowDirection::Egress, 0xe, &vec![conn(REMOTE, vec![], vec![])]),
        None
    );
}

#[test]
fn make_conn_and_add() {
    let data = flow(7, FlowDirection::Egress, REMOTE, 3, 0xb);
    let mut connection = make_conn(&data.header);
    assert_eq!(connection, conn(REMOTE, vec![], vec![]));
    conn_add_flow_data(&mut connection, data);
    conn_add_flow_data(&mut connection, flow(8, FlowDirection::Ingress, REMOTE, 4, 0xa));
    assert_eq!(
        connection,
        conn(REMOTE, vec![pkt(8, 4, 0, 0xa)], vec![pkt(7, 3, 0, 0xb)])
    );
}

#[test]
fn crossed_sources_make_a_call() {
    let (a, b) = (0xa, 0xb);
    let other = Endpoint { ip: 0x0a000001, port: 30000 };
    let x = conn(REMOTE, vec![pkt(1, 1, 0, a)], vec![pkt(2, 1, 0, b)]);
    let y = conn(other, vec![pkt(1, 1, 0, b)], vec![pkt(2, 1, 0, a)]);
    let calls = extract_calls(&vec![x.clone(), y.clone()]);
    assert_eq!(
        calls,
        vec![Call { header: CallHeader { peer1_ssrc: a, peer2_ssrc: b }, peer1: x, peer2: y }]
    );
}

#[test]
fn a_connection_is_in_one_call_only() {
    let (a, b) = (0xa, 0xb);
    let x = conn(REMOTE, vec![pkt(1, 1, 0, a)], vec![pkt(2, 1, 0, b)]);
    let y = conn(REMOTE, vec![pkt(3, 1, 0, b)], vec![pkt(4, 1, 0, a)]);
    let noise = conn(REMOTE, vec![pkt(5, 1, 0, 0xc)], vec![pkt(6, 1, 0, 0xd)]);
    // x, then two candidates for it, then another x
    let list = vec![x.clone(), noise.clone(), y.clone(), y.clone(), x.clone()];
    let calls = extract_calls(&list);
    assert_eq!(calls.len(), 2);
    assert_eq!((calls[0].peer1.clone(), calls[0].peer2.clone()), (x.clone(), y.clone()));
    assert_eq!(calls[0].peer2.ingress_pkts[0].ts, 3);
    // the second y is still free when its turn comes and takes the second x
    assert_eq!((calls[1].peer1.clone(), calls[1].peer2.clone()), (y.clone(), x.clone()));
    assert_eq!(calls[1].header, CallHeader { peer1_ssrc: b, peer2_ssrc: a });
    for call in calls.iter() {
        assert_eq!(call.peer1.ingress_ssrc(), call.peer2.egress_ssrc());
        assert_eq!(call.peer2.ingress_ssrc(), call.peer1.egress_ssrc());
        assert_eq!(Some(call.header.peer1_ssrc), call.peer1.ingress_ssrc());
        assert_eq!(Some(call.header.peer2_ssrc), call.peer2.ingress_ssrc());
    }
}

#[test]
fn unpairable_connections_are_skipped() {
    let (a, b) = (0xa, 0xb);
    let x = conn(REMOTE, vec![pkt(1, 1, 0, a)], vec![pkt(2, 1, 0, b)]);
    let y = conn(REMOTE, vec![pkt(3, 1, 0, b)], vec![pkt(4, 1, 0, a)]);
    let half = conn(REMOTE, vec![pkt(3, 1, 0, b)], vec![]);
    let mut wrong_kind = y.clone();
    wrong_kind.header.ftype = FlowType::Udp;
    let text = conn(
        REMOTE,
        vec![FlowPacket { ts: 1, payload: FlowPayload::Text("x".to_string()) }],
        vec![pkt(4, 1, 0, a)],
    );
    assert_eq!(extract_calls(&vec![]), vec![]);
    assert_eq!(extract_calls(&vec![x.clone()]), vec![]);
    assert_eq!(extract_calls(&vec![x.clone(), x.clone()]), vec![]);
    assert_eq!(extract_calls(&vec![x.clone(), half, wrong_kind, text]), vec![]);
    // a connection whose two sources are equal pairs with its like
    let same = conn(REMOTE, vec![pkt(1, 1, 0, a)], vec![pkt(2, 1, 0, a)]);
    assert_eq!(extract_calls(&vec![same.clone(), same.clone()]).len(), 1);
    assert_eq!(extract_calls(&vec![y, x]).len(), 1);
}

#[test]
fn reorder_by_sequence_number() {
    let seqs = |pkts: &Vec<FlowPacket>| -> Vec<u16> {
        pkts.iter().map(|p| p.rtp().unwrap().header.seqnum).collect()
    };
    let make = |list: &[u16]| -> Vec<FlowPacket> {
        list.iter().enumerate().map(|(i, s)| pkt(i as u64, *s, 0, 1)).collect()
    };
    assert_eq!(seqs(&reorder(&make(&[]))), Vec::<u16>::new());
    assert_eq!(seqs(&reorder(&make(&[5]))), vec![5]);
    assert_eq!(seqs(&reorder(&make(&[1, 2, 3]))), vec![1, 2, 3]);
    assert_eq!(seqs(&reorder(&make(&[3, 1, 2]))), vec![1, 2, 3]);
    assert_eq!(seqs(&reorder(&make(&[2, 3, 1, 5, 4]))), vec![1, 2, 3, 4, 5]);
    // across the wrap
    assert_eq!(seqs(&reorder(&make(&[0xffff, 1, 0, 0xfffe]))), vec![0xfffe, 0xffff, 0, 1]);
    // equal numbers keep their arrival order
    let twice = reorder(&make(&[7, 8, 7]));
    assert_eq!(seqs(&twice), vec![7, 7, 8]);
    assert_eq!(twice[0].ts, 0);
    assert_eq!(twice[1].ts, 2);
    // half the number space apart, neither is greater: the later goes first
    assert_eq!(seqs(&reorder(&make(&[0, 0x8000]))), vec![0x8000, 0]);
    assert_eq!(seqs(&reorder(&make(&[0x8000, 0]))), vec![0, 0x8000]);
}

#[test]
fn one_missing_frame_is_one_lost_packet() {
    let rx = vec![pkt(0, 100, 0, 1), pkt(20_000, 101, 960, 1), pkt(60_000, 103, 2880, 1)];
    assert_eq!(
        compute_flow_stats(&rx),
        FlowStats { lost_pkts: 1, rx_pkts: 3, max_delta: 0, max_inter_frame_delay: 20_000 }
    );
}

#[test]
fn flow_stats_of_few_packets() {
    assert_eq!(
        compute_flow_stats(&[]),
        FlowStats { lost_pkts: 0, rx_pkts: 0, max_delta: 0, max_inter_frame_delay: 0 }
    );
    assert_eq!(
        compute_flow_stats(&[pkt(5, 1, 0, 1)]),
        FlowStats { lost_pkts: 0, rx_pkts: 1, max_delta: 0, max_inter_frame_delay: 0 }
    );
}

#[test]
fn flow_stats_formulas() {
    // gaps in media time: 20 ms, 19.979 ms (959 ticks), 100 ms, 20 ms
    // gaps in capture time: 25 ms, 18 ms, 90 ms, 21 ms
    let rx = vec![
        pkt(1_000_000, 10, 0, 1),
        pkt(1_025_000, 11, 960, 1),
        pkt(1_043_000, 12, 1919, 1),
        pkt(1_133_000, 13, 6719, 1),
        pkt(1_154_000, 14, 7679, 1),
    ];
    // 959 * 1000 / 48 = 19979; deltas: 5000, -1979, -10000, 1000
    assert_eq!(
        compute_flow_stats(&rx),
        FlowStats { lost_pkts: 4, rx_pkts: 5, max_delta: -10_000, max_inter_frame_delay: 25_000 }
    );
}

#[test]
fn flow_stats_after_reordering() {
    // the second packet arrives last: after reordering its capture gaps are
    // +50 ms and -30 ms against media gaps of 20 ms each
    let rx = vec![pkt(0, 1, 0, 1), pkt(20_000, 3, 1920, 1), pkt(50_000, 2, 960, 1)];
    assert_eq!(
        compute_flow_stats(&rx),
        FlowStats { lost_pkts: 0, rx_pkts: 3, max_delta: -50_000, max_inter_frame_delay: 50_000 }
    );
    // of two deltas of equal magnitude the earlier stays
    let tie = vec![pkt(0, 1, 0, 1), pkt(30_000, 2, 960, 1), pkt(40_000, 3, 1920, 1)];
    assert_eq!(compute_flow_stats(&tie).max_delta, 10_000);
    let tie = vec![pkt(0, 1, 0, 1), pkt(10_000, 2, 960, 1), pkt(40_000, 3, 1920, 1)];
    assert_eq!(compute_flow_stats(&tie).max_delta, -10_000);
}

#[test]
fn flow_stats_with_media_time_running_backwards() {
    // the media gap is -1 tick: -1000 / 48 rounds toward zero, to -20
    let rx = vec![pkt(0, 1, 1, 1), pkt(100, 2, 0, 1)];
    assert_eq!(
        compute_flow_stats(&rx),
        FlowStats { lost_pkts: 0, rx_pkts: 2, max_delta: 120, max_inter_frame_delay: 0 }
    );
    // the widest gaps there are
    let far = vec![pkt(0, 1, 0, 1), pkt(u64::MAX, 2, 0x8000_0000, 1)];
    let stats = compute_flow_stats(&far);
    assert_eq!(stats.lost_pkts, 0);
    assert_eq!(stats.max_delta, u64::MAX as i128 + 44_739_242_666);
    let far = vec![pkt(u64::MAX, 1, 0x8000_0000, 1), pkt(0, 2, 0, 1)];
    let stats = compute_flow_stats(&far);
    assert_eq!(stats.lost_pkts, 2_236_961);
    assert_eq!(stats.max_delta, -(u64::MAX as i128) - 44_739_242_666);
}

#[test]
fn delay_stats_of_a_relayed_stream() {
    let ingress = vec![pkt(1000, 1, 0, 1), pkt(2000, 2, 0, 1), pkt(3000, 3, 0, 1)];
    let egress = vec![pkt(1010, 1, 0, 2), pkt(2030, 2, 0, 2), pkt(3020, 3, 0, 2)];
    // delays 10, 30, 20: sum 60, squares 1400, 1400 - 3600 / 3 = 200
    assert_eq!(
        compute_delay_stats(&ingress, &egress),
        Ok(DelayStats { max: 30, avg: 20, paired: 3, deviation_sum: 200 })
    );
}

#[test]
fn delay_stats_round_down() {
    let ingress = vec![pkt(0, 1, 0, 1), pkt(100, 2, 0, 1)];
    let egress = vec![pkt(1, 1, 0, 2), pkt(102, 2, 0, 2)];
    // delays 1, 2: average 1, squares 5, 5 - 9 / 2 = 1
    assert_eq!(
        compute_delay_stats(&ingress, &egress),
        Ok(DelayStats { max: 2, avg: 1, paired: 2, deviation_sum: 1 })
    );
}

#[test]
fn delay_stats_without_pairs() {
    assert_eq!(compute_delay_stats(&[], &[]), Err(DelayError::NoPairedPackets));
    let ingress = vec![pkt(1000, 1, 0, 1)];
    assert_eq!(compute_delay_stats(&ingress, &[]), Err(DelayError::NoPairedPackets));
    assert_eq!(compute_delay_stats(&[], &ingress), Err(DelayError::NoPairedPackets));
    // other sequence numbers
    let egress = vec![pkt(1010, 2, 0, 2)];
    assert_eq!(compute_delay_stats(&ingress, &egress), Err(DelayError::NoPairedPackets));
    // sent before it was received
    let early = vec![pkt(999, 1, 0, 2)];
    assert_eq!(compute_delay_stats(&ingress, &early), Err(DelayError::NoPairedPackets));
    // not RTP
    let text = vec![FlowPacket { ts: 1010, payload: FlowPayload::Text("x".to_string()) }];
    assert_eq!(compute_delay_stats(&ingress, &text), Err(DelayError::NoPairedPackets));
    assert_eq!(compute_delay_stats(&text, &ingress), Err(DelayError::NoPairedPackets));
}

#[test]
fn delay_stats_overflow() {
    let ingress = vec![pkt(0, 1, 0, 1), pkt(0, 2, 0, 1)];
    let egress = vec![pkt(u64::MAX, 1, 0, 2), pkt(u64::MAX, 2, 0, 2)];
    assert_eq!(compute_delay_stats(&ingress, &egress), Err(DelayError::Overflow));
    // one such delay alone still fits
    assert_eq!(
        compute_delay_stats(&ingress[..1], &egress[..1]),
        Ok(DelayStats { max: u64::MAX, avg: u64::MAX, paired: 1, deviation_sum: 0 })
    );
}

#[test]
fn delay_search_window_is_a_hundred_packets() {
    let ingress = vec![pkt(0, 500, 0, 1)];
    let mut egress: Vec<FlowPacket> = (0..100).map(|i| pkt(10 + i, i as u16, 0, 2)).collect();
    egress.push(pkt(200, 500, 0, 2));
    assert_eq!(compute_delay_stats(&ingress, &egress), Err(DelayError::NoPairedPackets));
    egress.remove(0);
    assert_eq!(
        compute_delay_stats(&ingress, &egress),
        Ok(DelayStats { max: 200, avg: 200, paired: 1, deviation_sum: 0 })
    );
}

#[test]
fn delay_search_passes_over_earlier_packets() {
    // earlier egress packets do not count against the window, and the
    // searches that follow start behind as many packets as were passed over
    let mut egress: Vec<FlowPacket> = (0..150).map(|i| pkt(i, 9000 + i as u16, 0, 2)).collect();
    egress.push(pkt(1005, 1, 0, 2));
    egress.push(pkt(1020, 2, 0, 2));
    let ingress = vec![pkt(1000, 1, 0, 1), pkt(1010, 2, 0, 1)];
    assert_eq!(
        compute_delay_stats(&ingress, &egress),
        Ok(DelayStats { max: 10, avg: 7, paired: 2, deviation_sum: 13 })
    );
    // an earlier packet between later ones moves the start as well: the
    // second search starts at the second packet and passes over one more
    let egress = vec![
        pkt(1001, 7, 0, 2),
        pkt(500, 8, 0, 2),
        pkt(1002, 1, 0, 2),
        pkt(1500, 2, 0, 2),
    ];
    let ingress = vec![pkt(1000, 1, 0, 1), pkt(1400, 2, 0, 1)];
    assert_eq!(
        compute_delay_stats(&ingress, &egress),
        Ok(DelayStats { max: 100, avg: 51, paired: 2, deviation_sum: 4802 })
    );
}

#[test]
fn call_stats() {
    let x = conn(
        REMOTE,
        vec![pkt(0, 100, 0, 0xa), pkt(20_000, 101, 960, 0xa), pkt(60_000, 103, 2880, 0xa)],
        vec![pkt(5, 1, 0, 0xb)],
    );
    let y = conn(
        REMOTE,
        vec![pkt(0, 1, 0, 0xb)],
        vec![pkt(7, 100, 0, 0xa), pkt(20_009, 101, 960, 0xa), pkt(60_008, 103, 2880, 0xa)],
    );
    let calls = extract_calls(&vec![x, y]);
    assert_eq!(calls.len(), 1);
    let stats = calls[0].compute_stats();
    assert_eq!(
        stats.peer1_delay,
        Ok(DelayStats { max: 9, avg: 8, paired: 3, deviation_sum: 2 })
    );
    assert_eq!(
        stats.peer1_ingress_flow,
        FlowStats { lost_pkts: 1, rx_pkts: 3, max_delta: 0, max_inter_frame_delay: 20_000 }
    );
    assert_eq!(
        stats.peer2_delay,
        Ok(DelayStats { max: 5, avg: 5, paired: 1, deviation_sum: 0 })
    );
    assert_eq!(
        stats.peer2_ingress_flow,
        FlowStats { lost_pkts: 0, rx_pkts: 1, max_delta: 0, max_inter_frame_delay: 0 }
    );
}

#[test]
fn lists_of_rtp_packets_are_told() {
    let text = FlowPacket { ts: 1, payload: FlowPayload::Text("x".to_string()) };
    assert!(is_all_rtp(&[]));
    assert!(is_all_rtp(&[pkt(1, 1, 0, 1), pkt(2, 2, 0, 1)]));
    assert!(!is_all_rtp(&[pkt(1, 1, 0, 1), text.clone()]));
    assert!(!is_all_rtp(&[text, pkt(1, 1, 0, 1)]));
}
