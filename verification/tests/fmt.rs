use sniffglue::centrifuge;
use sniffglue::fmt::{
    align, display_macadr_buf, push_binary_field, push_text_field, Color, Config, Filter, Format,
    Layout, Output,
};
use sniffglue::link::DataLink;
use sniffglue::render::{debug_bytes, decimal, digit, hex, hex_byte, ipv4_text, ipv6_text, pad};
use sniffglue::structs::ether::Ether;
use sniffglue::structs::raw::Raw;

const PLAIN: Format = Format { layout: Layout::Compact, colors: false };
const COLORED: Format = Format { layout: Layout::Compact, colors: true };

fn eth(ethertype: u16, payload: &[u8]) -> Vec<u8> {
    let mut out = vec![0x00, 0x23, 0x54, 0x07, 0x93, 0x6c, 0x00, 0x1b, 0x21, 0x0f, 0x91, 0x9b];
    out.extend_from_slice(&ethertype.to_be_bytes());
    out.extend_from_slice(payload);
    out
}

fn ip4(protocol: u8, src: [u8; 4], dst: [u8; 4], payload: &[u8]) -> Vec<u8> {
    let mut out = vec![0x45, 0x00];
    out.extend_from_slice(&((payload.len() + 20) as u16).to_be_bytes());
    out.extend_from_slice(&[0, 0, 0x40, 0, 64, protocol, 0, 0]);
    out.extend_from_slice(&src);
    out.extend_from_slice(&dst);
    out.extend_from_slice(payload);
    out
}

fn ip6(next_header: u8, payload: &[u8]) -> Vec<u8> {
    let mut out = vec![0x60, 0, 0, 0];
    out.extend_from_slice(&(payload.len() as u16).to_be_bytes());
    out.extend_from_slice(&[next_header, 63]);
    out.extend_from_slice(&[0x20, 0x01, 0x0d, 0xb8, 0, 0, 0, 0, 0, 0, 0, 0, 0, 0, 0, 1]);
    out.extend_from_slice(&[0xfe, 0x80, 0, 0, 0, 0, 0, 0, 1, 2, 3, 4, 5, 6, 7, 8]);
    out.extend_from_slice(payload);
    out
}

fn udp(sport: u16, dport: u16, payload: &[u8]) -> Vec<u8> {
    let mut out = Vec::new();
    out.extend_from_slice(&sport.to_be_bytes());
    out.extend_from_slice(&dport.to_be_bytes());
    out.extend_from_slice(&((payload.len() + 8) as u16).to_be_bytes());
    out.extend_from_slice(&[0, 0]);
    out.extend_from_slice(payload);
    out
}

fn tcp(flags: u8, payload: &[u8]) -> Vec<u8> {
    let mut out = vec![0xc2, 0x13, 0x00, 0x50, 0, 0, 0, 1, 0, 0, 0, 2, 0x50, flags, 0x20, 0, 0, 0, 0, 0];
    out.extend_from_slice(payload);
    out
}

fn line(frame: &[u8]) -> String {
    PLAIN.print_compact(&centrifuge::parse(&DataLink::Ethernet, frame))
}

#[test]
fn digits_and_numbers() {
    let all: Vec<&str> = (0..16).map(digit).collect();
    assert_eq!(all.concat(), "0123456789abcdef");
    for n in [0u64, 1, 9, 10, 11, 99, 100, 255, 65535, 4294967295, u64::MAX] {
        assert_eq!(decimal(n), format!("{}", n));
    }
    for n in [0u16, 1, 9, 10, 15, 16, 255, 256, 0xdb8, 0xfe80, 0xffff] {
        assert_eq!(hex(n), format!("{:x}", n));
    }
    for b in [0u8, 1, 9, 10, 15, 16, 0x1b, 0xfe, 0xff] {
        assert_eq!(hex_byte(b), format!("{:02x}", b));
    }
}

#[test]
fn padding() {
    assert_eq!(pad(String::new(), 0), "");
    assert_eq!(pad(String::new(), 3), "   ");
    assert_eq!(pad("ab".to_string(), 2), "ab");
    assert_eq!(pad("ab".to_string(), 1), "ab");
    assert_eq!(pad("ab".to_string(), 5), "ab   ");
    assert_eq!(pad("10.0.0.1:7000".to_string(), 22), format!("{:22}", "10.0.0.1:7000"));
    // the width counts characters, not bytes
    assert_eq!(pad("\u{fc}".to_string(), 3), format!("{:3}", "\u{fc}"));
}

#[test]
fn alignment() {
    assert_eq!(align(0, "x"), "\nx");
    assert_eq!(align(4, "key: value"), "\n    key: value");
    assert_eq!(align(2, ""), "\n  ");
}

#[test]
fn addresses_as_text() {
    assert_eq!(ipv4_text(0), "0.0.0.0");
    assert_eq!(ipv4_text(0xc0a80633), "192.168.6.51");
    assert_eq!(ipv4_text(0xcb007105), "203.0.113.5");
    assert_eq!(ipv4_text(u32::MAX), "255.255.255.255");
    assert_eq!(ipv4_text(0x01020304), "1.2.3.4");
    assert_eq!(ipv6_text(0), "0:0:0:0:0:0:0:0");
    assert_eq!(ipv6_text(1), "0:0:0:0:0:0:0:1");
    assert_eq!(ipv6_text(0x20010db8_00000000_00000000_00000001), "2001:db8:0:0:0:0:0:1");
    assert_eq!(
        ipv6_text(0xfe800000_00000000_01020304_05060708),
        "fe80:0:0:0:102:304:506:708"
    );
    assert_eq!(ipv6_text(u128::MAX), "ffff:ffff:ffff:ffff:ffff:ffff:ffff:ffff");
    assert_eq!(
        display_macadr_buf([0x00, 0x1b, 0x21, 0x0f, 0x91, 0x9b]),
        "00:1b:21:0f:91:9b"
    );
    assert_eq!(display_macadr_buf([0xff; 6]), "ff:ff:ff:ff:ff:ff");
    assert_eq!(display_macadr_buf([0; 6]), "00:00:00:00:00:00");
}

#[test]
fn bytes_as_a_list() {
    let samples: [&[u8]; 5] = [&[], &[0], &[104, 105], &[1, 2, 3], &[255, 0, 10, 100]];
    for bytes in samples.iter() {
        assert_eq!(debug_bytes(bytes), format!("{:?}", bytes));
    }
}

#[test]
fn payload_fields() {
    let mut out = "x ".to_string();
    push_text_field(&mut out, "\"hi\"");
    assert_eq!(out, "x [text] \"hi\"");
    let mut out = "y ".to_string();
    push_binary_field(&mut out, &[1, 2]);
    assert_eq!(out, "y [binary] [1, 2]");
    let mut out = String::new();
    push_binary_field(&mut out, &[]);
    assert_eq!(out, "[binary] []");
}

#[test]
fn compact_line_of_plain_text_udp() {
    let frame = eth(0x0800, &ip4(17, [10, 0, 0, 1], [10, 0, 0, 2], &udp(7000, 7001, b"hello\n")));
    assert_eq!(
        line(&frame),
        "00:1b:21:0f:91:9b -> 00:23:54:07:93:6c, [udp   ] 10.0.0.1:7000          -> 10.0.0.2:7001          [text] \"hello\\n\""
    );
    let shown = line(&frame);
    assert!(shown.contains("[udp"));
    assert!(shown.ends_with("[text] \"hello\\n\""));
}

#[test]
fn compact_line_escapes_text() {
    let frame = eth(
        0x0800,
        &ip4(17, [10, 0, 0, 1], [10, 0, 0, 2], &udp(7000, 7001, "a\"b\\c\td\u{1b}\u{fc}".as_bytes())),
    );
    let expected = format!("[text] {:?}", "a\"b\\c\td\u{1b}\u{fc}");
    assert!(line(&frame).ends_with(&expected), "{}", line(&frame));
    assert!(line(&frame).ends_with("[text] \"a\\\"b\\\\c\\td\\u{1b}\u{fc}\""));
}

#[test]
fn compact_line_of_rtp_and_rtcp() {
    let mut rtp = vec![0x80, 0x08, 0x00, 0x01, 0, 0, 0x03, 0xc0, 0xde, 0xad, 0xbe, 0xef];
    rtp.extend_from_slice(&[0x55; 16]);
    let frame = eth(0x0800, &ip4(17, [203, 0, 113, 5], [192, 168, 6, 51], &udp(10000, 10002, &rtp)));
    assert_eq!(
        line(&frame),
        "00:1b:21:0f:91:9b -> 00:23:54:07:93:6c, [udp   ] 203.0.113.5:10000      -> 192.168.6.51:10002     [rtp   ] pt=8 ssrc=3735928559 seq=1 time=960"
    );
    let rtcp = [0x80, 200, 0, 6, 0xde, 0xad, 0xbe, 0xef, 0, 0, 0, 0];
    let frame = eth(0x0800, &ip4(17, [203, 0, 113, 5], [192, 168, 6, 51], &udp(10001, 10003, &rtcp)));
    assert_eq!(
        line(&frame),
        "00:1b:21:0f:91:9b -> 00:23:54:07:93:6c, [udp   ] 203.0.113.5:10001      -> 192.168.6.51:10003     [rtcp  ] pt=200 ssrc=3735928559"
    );
}

#[test]
fn compact_line_of_binary_udp() {
    let frame = eth(0x0800, &ip4(17, [1, 2, 3, 4], [5, 6, 7, 8], &udp(1, 2, &[0, 255])));
    assert_eq!(
        line(&frame),
        "00:1b:21:0f:91:9b -> 00:23:54:07:93:6c, [udp   ] 1.2.3.4:1              -> 5.6.7.8:2              [binary] [0, 255]"
    );
    // endpoints longer than the column are not cut
    let wide = eth(
        0x0800,
        &ip4(17, [255, 255, 255, 255], [255, 255, 255, 254], &udp(65535, 65534, &[])),
    );
    assert_eq!(
        line(&wide),
        "00:1b:21:0f:91:9b -> 00:23:54:07:93:6c, [udp   ] 255.255.255.255:65535  -> 255.255.255.254:65534  [binary] []"
    );
}

#[test]
fn compact_line_of_tcp() {
    let frame = eth(0x0800, &ip4(6, [10, 0, 0, 1], [10, 0, 0, 2], &tcp(0x18, b"GET /")));
    assert_eq!(
        line(&frame),
        "00:1b:21:0f:91:9b -> 00:23:54:07:93:6c, [tcp/A ] 10.0.0.1:49683         -> 10.0.0.2:80            [text] \"GET /\""
    );
    let syn = eth(0x0800, &ip4(6, [10, 0, 0, 1], [10, 0, 0, 2], &tcp(0x02, &[])));
    assert_eq!(
        line(&syn),
        "00:1b:21:0f:91:9b -> 00:23:54:07:93:6c, [tcp/S ] 10.0.0.1:49683         -> 10.0.0.2:80            "
    );
    for (flags, letters) in [
        (0x00u8, "  "),
        (0x12, "SA"),
        (0x14, "AR"),
        (0x11, "AF"),
        (0x04, "R "),
        (0x01, "F "),
        (0x17, "SARF"),
        (0x3f, "SARF"),
        (0x28, "  "),
    ] {
        let frame = eth(0x0800, &ip4(6, [10, 0, 0, 1], [10, 0, 0, 2], &tcp(flags, &[1, 0])));
        let expected = format!(
            "00:1b:21:0f:91:9b -> 00:23:54:07:93:6c, [tcp/{}] 10.0.0.1:49683         -> 10.0.0.2:80            [binary] [1, 0]",
            letters
        );
        assert_eq!(line(&frame), expected);
    }
}

#[test]
fn compact_line_of_arp() {
    let mut request = vec![0, 1, 8, 0, 6, 4, 0, 1];
    request.extend_from_slice(&[0x00, 0x1b, 0x21, 0x0f, 0x91, 0x9b, 192, 168, 0, 1]);
    request.extend_from_slice(&[0, 0, 0, 0, 0, 0, 192, 168, 0, 2]);
    assert_eq!(
        line(&eth(0x0806, &request)),
        "00:1b:21:0f:91:9b -> 00:23:54:07:93:6c, [arp/request] 192.168.0.2       ?                         (tell 192.168.0.1, 00:1b:21:0f:91:9b)"
    );
    let mut reply = request.clone();
    reply[7] = 2;
    reply[18..24].copy_from_slice(&[0x00, 0x23, 0x54, 0x07, 0x93, 0x6c]);
    assert_eq!(
        line(&eth(0x0806, &reply)),
        "00:1b:21:0f:91:9b -> 00:23:54:07:93:6c, [arp/reply  ] 192.168.0.1       ! => 00:1b:21:0f:91:9b    (fyi  192.168.0.2, 00:23:54:07:93:6c)"
    );
}

#[test]
fn compact_line_of_what_is_unknown() {
    assert_eq!(line(&[1, 2, 3]), "[unknown] [1, 2, 3]");
    assert_eq!(line(&[]), "[unknown] []");
    assert_eq!(
        line(&eth(0x88cc, &[7, 8])),
        "00:1b:21:0f:91:9b -> 00:23:54:07:93:6c, [unknown] [7, 8]"
    );
    assert_eq!(
        line(&eth(0x0800, &ip4(1, [10, 0, 0, 1], [10, 0, 0, 2], &[8, 0]))),
        "00:1b:21:0f:91:9b -> 00:23:54:07:93:6c, [unknown] 10.0.0.1 -> 10.0.0.2 [8, 0]"
    );
    assert_eq!(
        PLAIN.print_compact(&Raw::Tun(Ether::Unknown(vec![9]))),
        "[unknown] [9]"
    );
}

#[test]
fn compact_line_of_ipv6_and_tun() {
    let packet = ip6(17, &udp(5, 7, b"six"));
    assert_eq!(
        line(&eth(0x86dd, &packet)),
        "00:1b:21:0f:91:9b -> 00:23:54:07:93:6c, [udp   ] 2001:db8:0:0:0:0:0:1:5 -> fe80:0:0:0:102:304:506:708:7 [text] \"six\""
    );
    assert_eq!(
        PLAIN.print_compact(&centrifuge::parse(&DataLink::Tun, &packet)),
        "[udp   ] 2001:db8:0:0:0:0:0:1:5 -> fe80:0:0:0:102:304:506:708:7 [text] \"six\""
    );
    assert_eq!(
        line(&eth(0x86dd, &ip6(58, &[128]))),
        "00:1b:21:0f:91:9b -> 00:23:54:07:93:6c, [unknown] 2001:db8:0:0:0:0:0:1 -> fe80:0:0:0:102:304:506:708 [128]"
    );
}

#[test]
fn colours() {
    assert_eq!(PLAIN.colorify(Color::Red, "x".to_string()), "x");
    assert_eq!(COLORED.colorify(Color::Red, "x".to_string()), "\x1b[31mx\x1b[0m");
    assert_eq!(COLORED.colorify(Color::Yellow, "x".to_string()), "\x1b[33mx\x1b[0m");
    assert_eq!(COLORED.colorify(Color::Blue, "a b".to_string()), "\x1b[34ma b\x1b[0m");
    assert_eq!(COLORED.colorify(Color::Fixed(245), String::new()), "\x1b[38;5;245m\x1b[0m");
    assert_eq!(COLORED.colorify(Color::Fixed(0), "x".to_string()), "\x1b[38;5;0mx\x1b[0m");
}

#[test]
fn compact_lines_in_colour() {
    let paint = |frame: &[u8]| COLORED.print_compact(&centrifuge::parse(&DataLink::Ethernet, frame));
    let text = eth(0x0800, &ip4(17, [10, 0, 0, 1], [10, 0, 0, 2], &udp(7000, 7001, b"hello\n")));
    assert_eq!(paint(&text), format!("\x1b[31m{}\x1b[0m", line(&text)));
    let rtcp = [0x80, 200, 0, 6, 0xde, 0xad, 0xbe, 0xef, 0, 0, 0, 0];
    let media = eth(0x0800, &ip4(17, [10, 0, 0, 1], [10, 0, 0, 2], &udp(7001, 7003, &rtcp)));
    assert_eq!(paint(&media), format!("\x1b[34m{}\x1b[0m", line(&media)));
    let syn = eth(0x0800, &ip4(6, [10, 0, 0, 1], [10, 0, 0, 2], &tcp(0x02, &[])));
    assert_eq!(paint(&syn), format!("\x1b[38;5;245m{}\x1b[0m", line(&syn)));
    let mut arp = vec![0, 1, 8, 0, 6, 4, 0, 1];
    arp.extend_from_slice(&[0; 20]);
    assert_eq!(paint(&eth(0x0806, &arp)), format!("\x1b[34m{}\x1b[0m", line(&eth(0x0806, &arp))));
    // lines without colour stay as they are
    assert_eq!(paint(&[1, 2, 3]), "[unknown] [1, 2, 3]");
    assert_eq!(paint(&eth(0x88cc, &[7])), line(&eth(0x88cc, &[7])));
}

#[test]
fn filter_caps_its_verbosity() {
    for (given, kept) in [(0u8, 0u8), (1, 1), (3, 3), (4, 4), (5, 4), (255, 4)] {
        assert_eq!(Filter::new(given), Filter { verbosity: kept });
    }
}

#[test]
fn filter_compares_noise_with_verbosity() {
    let text = eth(0x0800, &ip4(17, [10, 0, 0, 1], [10, 0, 0, 2], &udp(7000, 7001, b"hello\n")));
    let mut rtp = vec![0x80, 0, 0, 1, 0, 0, 0, 0, 0, 0, 0, 9];
    rtp.extend_from_slice(&[0x55; 8]);
    let media = eth(0x0800, &ip4(17, [10, 0, 0, 1], [10, 0, 0, 2], &udp(7000, 7002, &rtp)));
    let binary = eth(0x0800, &ip4(17, [10, 0, 0, 1], [10, 0, 0, 2], &udp(7000, 7001, &[0])));
    let mut arp = vec![0, 1, 8, 0, 6, 4, 0, 1];
    arp.extend_from_slice(&[0; 20]);
    let arp = eth(0x0806, &arp);
    let junk = vec![1u8, 2, 3];
    // the lowest verbosity at which each frame is shown
    for (frame, level) in [(&media, 0u8), (&arp, 1), (&text, 2), (&binary, 3), (&junk, 4)] {
        let tree = centrifuge::parse(&DataLink::Ethernet, frame);
        for verbosity in 0..=6u8 {
            assert_eq!(
                Filter::new(verbosity).matches(&tree),
                verbosity >= level,
                "level {} at verbosity {}",
                level,
                verbosity
            );
        }
    }
}

#[test]
fn config_hands_out_format_and_filter() {
    let config = Config::new(Layout::Debugging, 9, true);
    assert_eq!(*config.filter(), Filter { verbosity: 4 });
    assert_eq!(config.format(), Format { layout: Layout::Debugging, colors: true });
    let config = Config::new(Layout::Compact, 2, false);
    assert_eq!(config.filter().verbosity, 2);
    assert_eq!(config.format(), Format::new(Layout::Compact, false));
    assert_eq!(Config::new(Layout::Json, 0, false).format().layout, Layout::Json);
}

#[test]
fn print_follows_the_layout() {
    let frame = eth(0x0800, &ip4(17, [10, 0, 0, 1], [10, 0, 0, 2], &udp(7000, 7001, b"hello\n")));
    let tree = centrifuge::parse(&DataLink::Ethernet, &frame);
    assert_eq!(PLAIN.print(&tree), Output::Line(line(&frame)));
    assert_eq!(COLORED.print(&tree), Output::Line(format!("\x1b[31m{}\x1b[0m", line(&frame))));
    assert_eq!(Format::new(Layout::Debugging, true).print(&tree), Output::Debugging);
    assert_eq!(Format::new(Layout::Json, false).print(&tree), Output::Json);
}
