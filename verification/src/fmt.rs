//! What is shown of a classified frame, and how.

use crate::render::{
    debug_bytes, decimal, hex_byte, ipv4_text, ipv6_text, pad, spec_debug_bytes, spec_decimal,
    spec_ipv4_text, spec_ipv6_text, spec_mac_text, spec_pad, spec_spaces,
};
use crate::structs::arp::{ArpView, ARP};
use crate::structs::ether::{Ether, EtherView};
use crate::structs::ipv4::{IPv4Header, IPv4View, IPv4};
use crate::structs::ipv6::{IPv6Header, IPv6View, IPv6};
use crate::structs::raw::{Raw, RawView};
use crate::structs::tcp::{TcpHeader, TcpView, TCP};
use crate::structs::udp::{UdpHeader, UdpView, UDP};
use crate::structs::NoiseLevel;
use std::sync::Arc;
use vstd::prelude::*;
use vstd::string::StringExecFns;

verus! {

/// How a frame is laid out on the terminal.
#[derive(Debug, Clone, Copy, PartialEq, Eq, Structural)]
pub enum Layout {
    /// One line per frame.
    Compact,
    /// One line per layer, indented.
    Debugging,
    /// One JSON document per frame.
    Json,
}

/// The choice of layout and colour.
#[derive(Debug, Clone, Copy, PartialEq, Eq, Structural)]
pub struct Format {
    pub layout: Layout,
    pub colors: bool,
}

impl Format {
    /// A format of the given layout, with or without colours.
    pub fn new(layout: Layout, colors: bool) -> (r: Format)
        ensures
            r == (Format { layout, colors }),
    {
        Format { layout, colors }
    }
}

/// The highest verbosity: at it, every frame is shown.
pub const MAX_VERBOSITY: u8 = 4;

/// Lets through the frames that are interesting enough.
#[derive(Debug, Clone, Copy, PartialEq, Eq, Structural)]
pub struct Filter {
    /// Frames of a noise level above it are dropped. At most 4.
    pub verbosity: u8,
}

impl Filter {
    /// A filter of the given verbosity, which is capped at 4.
    pub fn new(verbosity: u8) -> (r: Filter)
        ensures
            r.verbosity == if verbosity <= MAX_VERBOSITY {
                verbosity
            } else {
                MAX_VERBOSITY
            },
    {
        let most = NoiseLevel::Maximum.into_u8();
        let verbosity = if verbosity < most {
            verbosity
        } else {
            most
        };
        Filter { verbosity }
    }

    /// Whether a frame of value `packet` is let through.
    pub open spec fn spec_matches(self, packet: RawView) -> bool {
        packet.noise_level().rank() <= self.verbosity
    }

    /// Whether the frame is let through: its noise level is no higher
    /// than the verbosity.
    pub fn matches(&self, packet: &Raw) -> (r: bool)
        ensures
            r == self.spec_matches(packet@),
    {
        packet.noise_level().into_u8() <= self.verbosity
    }
}

/// At the highest verbosity every frame is let through.
pub proof fn lemma_max_verbosity_matches_all(packet: RawView)
    ensures
        (Filter { verbosity: MAX_VERBOSITY }).spec_matches(packet),
{
}

/// What a lower verbosity lets through, a higher one lets through too.
pub proof fn lemma_filter_monotone(low: Filter, high: Filter, packet: RawView)
    requires
        low.verbosity <= high.verbosity,
        low.spec_matches(packet),
    ensures
        high.spec_matches(packet),
{
}

/// Format and filter, as chosen on the command line.
pub struct Config {
    fmt: Format,
    filter: Filter,
}

impl Config {
    /// The format of the configuration.
    pub closed spec fn spec_format(&self) -> Format {
        self.fmt
    }

    /// The filter of the configuration.
    pub closed spec fn spec_filter(&self) -> Filter {
        self.filter
    }

    /// The configuration for a layout, a verbosity, which is capped at 4,
    /// and the choice of colours.
    pub fn new(layout: Layout, verbosity: u8, colors: bool) -> (r: Config)
        ensures
            r.spec_format() == (Format { layout, colors }),
            r.spec_filter().verbosity == if verbosity <= MAX_VERBOSITY {
                verbosity
            } else {
                MAX_VERBOSITY
            },
    {
        Config { fmt: Format::new(layout, colors), filter: Filter::new(verbosity) }
    }

    /// The filter, to be shared by those that classify frames.
    pub fn filter(&self) -> (r: Arc<Filter>)
        ensures
            *r == self.spec_filter(),
    {
        Arc::new(self.filter)
    }

    /// The format.
    pub fn format(self) -> (r: Format)
        ensures
            r == self.spec_format(),
    {
        self.fmt
    }
}

/// The colours that lines are painted in.
#[derive(Debug, Clone, Copy, PartialEq, Eq, Structural)]
pub enum Color {
    Red,
    Yellow,
    Blue,
    /// A colour of the 256-colour palette.
    Fixed(u8),
}

/// The grey of the 256-colour palette that lines of little interest have.
pub const GREY: u8 = 245;

/// The parameters that select a colour in an escape sequence.
pub open spec fn spec_color_code(color: Color) -> Seq<char> {
    match color {
        Color::Red => "31"@,
        Color::Yellow => "33"@,
        Color::Blue => "34"@,
        Color::Fixed(number) => "38;5;"@ + spec_decimal(number as nat),
    }
}

/// A text between the escape sequence that selects a colour and the one
/// that resets it.
pub open spec fn spec_paint(color: Color, text: Seq<char>) -> Seq<char> {
    "\x1B["@ + spec_color_code(color) + "m"@ + text + "\x1B[0m"@
}

/// `ansi_term::Colour::normal` and `ansi_term::Style::paint`, rendered:
/// the text, led by the escape sequence that selects the colour as
/// foreground and followed by the one that resets all styles.
#[verifier::external_body]
fn paint(color: Color, text: String) -> (r: String)
    ensures
        r@ == spec_paint(color, text@),
{
    let colour = match color {
        Color::Red => ansi_term::Colour::Red,
        Color::Yellow => ansi_term::Colour::Yellow,
        Color::Blue => ansi_term::Colour::Blue,
        Color::Fixed(number) => ansi_term::Colour::Fixed(number),
    };
    colour.normal().paint(text).to_string()
}

/// A text as `std` shows it for debugging: in double quotes, with what
/// cannot be printed, quotes and backslashes escaped.
pub uninterp spec fn spec_quoted(text: Seq<char>) -> Seq<char>;

/// `format!("{:?}", text)` for a string slice.
#[verifier::external_body]
fn quoted(text: &str) -> (r: String)
    ensures
        r@ == spec_quoted(text@),
{
    format!("{:?}", text)
}

/// A hardware address as text.
pub fn display_macadr_buf(mac: [u8; 6]) -> (r: String)
    ensures
        r@ == spec_mac_text(mac@),
{
    let mut out = hex_byte(mac[0]);
    out.append(":");
    out.append(hex_byte(mac[1]).as_str());
    out.append(":");
    out.append(hex_byte(mac[2]).as_str());
    out.append(":");
    out.append(hex_byte(mac[3]).as_str());
    out.append(":");
    out.append(hex_byte(mac[4]).as_str());
    out.append(":");
    out.append(hex_byte(mac[5]).as_str());
    out
}

/// A text on a line of its own, behind `len` spaces.
pub fn align(len: usize, a: &str) -> (r: String)
    ensures
        r@ == "\n"@ + spec_spaces(len as nat) + a@,
{
    let mut out = String::from_str("\n");
    out.append(pad(String::new(), len).as_str());
    out.append(a);
    out
}

/// An address and a port, with a colon between them.
pub open spec fn spec_endpoint(addr: Seq<char>, port: u16) -> Seq<char> {
    addr + ":"@ + spec_decimal(port as nat)
}

fn endpoint(addr: &str, port: u16) -> (r: String)
    ensures
        r@ == spec_endpoint(addr@, port),
{
    let mut out = String::from_str(addr);
    out.append(":");
    out.append(decimal(port as u64).as_str());
    out
}

/// The letter of a flag, if the flag is set.
pub open spec fn spec_flag(set: bool, letter: Seq<char>) -> Seq<char> {
    if set {
        letter
    } else {
        Seq::empty()
    }
}

/// The letters of the flags that a compact line shows: `S`, `A`, `R` and
/// `F`, in this order, each if its flag is set.
pub open spec fn spec_tcp_flags(header: TcpHeader) -> Seq<char> {
    spec_flag(header.flag_syn, "S"@) + spec_flag(header.flag_ack, "A"@) + spec_flag(
        header.flag_rst,
        "R"@,
    ) + spec_flag(header.flag_fin, "F"@)
}

fn push_flag(out: &mut String, set: bool, letter: &str)
    ensures
        final(out)@ == old(out)@ + spec_flag(set, letter@),
{
    if set {
        out.append(letter);
    }
}

fn tcp_flags(header: &TcpHeader) -> (r: String)
    ensures
        r@ == spec_tcp_flags(*header),
{
    let mut flags = String::new();
    push_flag(&mut flags, header.flag_syn, "S");
    push_flag(&mut flags, header.flag_ack, "A");
    push_flag(&mut flags, header.flag_rst, "R");
    push_flag(&mut flags, header.flag_fin, "F");
    flags
}

/// The field that shows a payload of text, given the text in quotes.
pub open spec fn spec_text_field(quoted: Seq<char>) -> Seq<char> {
    "[text] "@ + quoted
}

/// The field that shows a payload of bytes.
pub open spec fn spec_binary_field(bytes: Seq<u8>) -> Seq<char> {
    "[binary] "@ + spec_debug_bytes(bytes)
}

/// What a compact line shows of a UDP payload, and the colour of the line.
pub open spec fn spec_compact_udp_payload(udp: UdpView) -> (Seq<char>, Option<Color>) {
    match udp {
        UdpView::Rtp(rtp) => (
            "[rtp   ] pt="@ + spec_decimal(rtp.header.payload as nat) + " ssrc="@ + spec_decimal(
                rtp.header.ssrc as nat,
            ) + " seq="@ + spec_decimal(rtp.header.seqnum as nat) + " time="@ + spec_decimal(
                rtp.header.timestamp as nat,
            ),
            Some(Color::Blue),
        ),
        UdpView::Rtcp(rtcp) => (
            "[rtcp  ] pt="@ + spec_decimal(rtcp.header.payload as nat) + " ssrc="@ + spec_decimal(
                rtcp.header.ssrc as nat,
            ),
            Some(Color::Blue),
        ),
        UdpView::Text(text) => (spec_text_field(spec_quoted(text)), Some(Color::Red)),
        UdpView::Binary(bytes) => (spec_binary_field(bytes), Some(Color::Red)),
    }
}

/// What a compact line shows of a UDP datagram between the addresses
/// `source` and `dest`, and the colour of the line.
pub open spec fn spec_compact_udp(
    source: Seq<char>,
    dest: Seq<char>,
    header: UdpHeader,
    udp: UdpView,
) -> (Seq<char>, Option<Color>) {
    (
        "[udp   ] "@ + spec_pad(spec_endpoint(source, header.source_port), 22) + " -> "@ + spec_pad(
            spec_endpoint(dest, header.dest_port),
            22,
        ) + " "@ + spec_compact_udp_payload(udp).0,
        spec_compact_udp_payload(udp).1,
    )
}

/// What a compact line shows of a TCP payload, and the colour of the line.
pub open spec fn spec_compact_tcp_payload(tcp: TcpView) -> (Seq<char>, Option<Color>) {
    match tcp {
        TcpView::Text(text) => (spec_text_field(spec_quoted(text)), Some(Color::Red)),
        TcpView::Binary(bytes) => (spec_binary_field(bytes), Some(Color::Red)),
        TcpView::Empty => (Seq::empty(), Some(Color::Fixed(GREY))),
    }
}

/// What a compact line shows of a TCP segment between the addresses
/// `source` and `dest`, and the colour of the line.
pub open spec fn spec_compact_tcp(
    source: Seq<char>,
    dest: Seq<char>,
    header: TcpHeader,
    tcp: TcpView,
) -> (Seq<char>, Option<Color>) {
    (
        "[tcp/"@ + spec_pad(spec_tcp_flags(header), 2) + "] "@ + spec_pad(
            spec_endpoint(source, header.source_port),
            22,
        ) + " -> "@ + spec_pad(spec_endpoint(dest, header.dest_port), 22) + " "@
            + spec_compact_tcp_payload(tcp).0,
        spec_compact_tcp_payload(tcp).1,
    )
}

/// What a compact line shows of bytes behind an IP header that were not
/// classified.
pub open spec fn spec_compact_ip_unknown(
    source: Seq<char>,
    dest: Seq<char>,
    data: Seq<u8>,
) -> Seq<char> {
    "[unknown] "@ + source + " -> "@ + dest + " "@ + spec_debug_bytes(data)
}

/// What a compact line shows of bytes that were not classified.
pub open spec fn spec_compact_unknown(data: Seq<u8>) -> Seq<char> {
    "[unknown] "@ + spec_debug_bytes(data)
}

/// What a compact line shows of an ARP packet.
pub open spec fn spec_compact_arp(arp: ArpView) -> Seq<char> {
    match arp {
        ArpView::Request(packet) => "[arp/request] "@ + spec_pad(
            spec_ipv4_text(packet.dest_addr),
            15,
        ) + "   ?                         (tell "@ + spec_ipv4_text(packet.src_addr) + ", "@
            + spec_mac_text(packet.src_mac) + ")"@,
        ArpView::Reply(packet) => "[arp/reply  ] "@ + spec_pad(spec_ipv4_text(packet.src_addr), 15)
            + "   ! => "@ + spec_mac_text(packet.src_mac) + "    (fyi  "@ + spec_ipv4_text(
            packet.dest_addr,
        ) + ", "@ + spec_mac_text(packet.dest_mac) + ")"@,
    }
}

/// What a compact line shows of an IPv4 packet, and the colour of the line.
pub open spec fn spec_compact_ipv4(header: IPv4Header, next: IPv4View) -> (
    Seq<char>,
    Option<Color>,
) {
    let source = spec_ipv4_text(header.source_addr);
    let dest = spec_ipv4_text(header.dest_addr);
    match next {
        IPv4View::TCP(tcp_hdr, tcp) => spec_compact_tcp(source, dest, tcp_hdr, tcp),
        IPv4View::UDP(udp_hdr, udp) => spec_compact_udp(source, dest, udp_hdr, udp),
        IPv4View::Unknown(data) => (spec_compact_ip_unknown(source, dest, data), None),
    }
}

/// What a compact line shows of an IPv6 packet, and the colour of the line.
pub open spec fn spec_compact_ipv6(header: IPv6Header, next: IPv6View) -> (
    Seq<char>,
    Option<Color>,
) {
    let source = spec_ipv6_text(header.source_addr);
    let dest = spec_ipv6_text(header.dest_addr);
    match next {
        IPv6View::TCP(tcp_hdr, tcp) => spec_compact_tcp(source, dest, tcp_hdr, tcp),
        IPv6View::UDP(udp_hdr, udp) => spec_compact_udp(source, dest, udp_hdr, udp),
        IPv6View::Unknown(data) => (spec_compact_ip_unknown(source, dest, data), None),
    }
}

/// What a compact line shows of what a frame carries, and the colour of
/// the line.
pub open spec fn spec_compact_eth(eth: EtherView) -> (Seq<char>, Option<Color>) {
    match eth {
        EtherView::Arp(arp) => (spec_compact_arp(arp), Some(Color::Blue)),
        EtherView::IPv4(header, next) => spec_compact_ipv4(header, next),
        EtherView::IPv6(header, next) => spec_compact_ipv6(header, next),
        EtherView::Unknown(data) => (spec_compact_unknown(data), None),
    }
}

/// The compact line of a frame, before it is painted, and its colour.
pub open spec fn spec_compact(packet: RawView) -> (Seq<char>, Option<Color>) {
    match packet {
        RawView::Ether(frame, eth) => (
            spec_mac_text(frame.source_mac) + " -> "@ + spec_mac_text(frame.dest_mac) + ", "@
                + spec_compact_eth(eth).0,
            spec_compact_eth(eth).1,
        ),
        RawView::Tun(eth) => spec_compact_eth(eth),
        RawView::Unknown(data) => (spec_compact_unknown(data), None),
    }
}

/// Puts the field that shows a payload of text behind `out`, given the
/// text in quotes.
pub fn push_text_field(out: &mut String, quoted: &str)
    ensures
        final(out)@ == old(out)@ + spec_text_field(quoted@),
{
    let mut field = String::from_str("[text] ");
    field.append(quoted);
    out.append(field.as_str());
}

/// Puts the field that shows a payload of bytes behind `out`.
pub fn push_binary_field(out: &mut String, bytes: &[u8])
    ensures
        final(out)@ == old(out)@ + spec_binary_field(bytes@),
{
    let mut field = String::from_str("[binary] ");
    field.append(debug_bytes(bytes).as_str());
    out.append(field.as_str());
}

fn udp_payload_field(udp: &UDP) -> (r: (String, Color))
    ensures
        r.0@ == spec_compact_udp_payload(udp@).0,
        Some(r.1) == spec_compact_udp_payload(udp@).1,
{
    match udp {
        UDP::Rtp(rtp) => {
            let mut field = String::from_str("[rtp   ] pt=");
            field.append(decimal(rtp.header.payload as u64).as_str());
            field.append(" ssrc=");
            field.append(decimal(rtp.header.ssrc as u64).as_str());
            field.append(" seq=");
            field.append(decimal(rtp.header.seqnum as u64).as_str());
            field.append(" time=");
            field.append(decimal(rtp.header.timestamp as u64).as_str());
            (field, Color::Blue)
        },
        UDP::Rtcp(rtcp) => {
            let mut field = String::from_str("[rtcp  ] pt=");
            field.append(decimal(rtcp.header.payload as u64).as_str());
            field.append(" ssrc=");
            field.append(decimal(rtcp.header.ssrc as u64).as_str());
            (field, Color::Blue)
        },
        UDP::Text(text) => {
            let mut field = String::new();
            push_text_field(&mut field, quoted(text.as_str()).as_str());
            assert(field@ =~= spec_text_field(spec_quoted(text@)));
            (field, Color::Red)
        },
        UDP::Binary(x) => {
            let mut field = String::new();
            push_binary_field(&mut field, x.as_slice());
            assert(field@ =~= spec_binary_field(x@));
            (field, Color::Red)
        },
    }
}

fn tcp_payload_field(tcp: &TCP) -> (r: (String, Color))
    ensures
        r.0@ == spec_compact_tcp_payload(tcp@).0,
        Some(r.1) == spec_compact_tcp_payload(tcp@).1,
{
    match tcp {
        TCP::Text(text) => {
            let mut field = String::new();
            push_text_field(&mut field, quoted(text.as_str()).as_str());
            assert(field@ =~= spec_text_field(spec_quoted(text@)));
            (field, Color::Red)
        },
        TCP::Binary(x) => {
            let mut field = String::new();
            push_binary_field(&mut field, x.as_slice());
            assert(field@ =~= spec_binary_field(x@));
            (field, Color::Red)
        },
        TCP::Empty => (String::new(), Color::Fixed(GREY)),
    }
}

/// What is to be written for a frame.
#[derive(Debug, Clone, PartialEq, Eq)]
pub enum Output {
    /// This line.
    Line(String),
    /// The records of the frame, layer by layer.
    Debugging,
    /// The frame as a JSON document.
    Json,
}

/// The mathematical value of an [`Output`].
pub enum OutputView {
    Line(Seq<char>),
    Debugging,
    Json,
}

impl View for Output {
    type V = OutputView;

    open spec fn view(&self) -> OutputView {
        match self {
            Output::Line(line) => OutputView::Line(line@),
            Output::Debugging => OutputView::Debugging,
            Output::Json => OutputView::Json,
        }
    }
}

impl Format {
    /// What is to be written for a frame: in the compact layout its
    /// line, in the other layouts the frame itself, record by record.
    pub open spec fn spec_print(self, packet: RawView) -> OutputView {
        match self.layout {
            Layout::Compact => OutputView::Line(self.spec_print_compact(packet)),
            Layout::Debugging => OutputView::Debugging,
            Layout::Json => OutputView::Json,
        }
    }

    /// Says what is to be written for a frame. The line of the compact
    /// layout is rendered here; the other layouts show the records as
    /// they are, which is left to the one who writes.
    pub fn print(&self, packet: &Raw) -> (r: Output)
        ensures
            r@ == self.spec_print(packet@),
    {
        match self.layout {
            Layout::Compact => Output::Line(self.print_compact(packet)),
            Layout::Debugging => Output::Debugging,
            Layout::Json => Output::Json,
        }
    }

    /// The compact line of a frame: what [`spec_compact`] says, painted in
    /// its colour if it has one and colours are on.
    pub open spec fn spec_print_compact(self, packet: RawView) -> Seq<char> {
        match spec_compact(packet).1 {
            Some(color) => self.spec_colorify(color, spec_compact(packet).0),
            None => spec_compact(packet).0,
        }
    }

    /// A text, painted if colours are on.
    pub open spec fn spec_colorify(self, color: Color, text: Seq<char>) -> Seq<char> {
        if self.colors {
            spec_paint(color, text)
        } else {
            text
        }
    }

    /// Paints a text, if colours are on.
    pub fn colorify(&self, color: Color, out: String) -> (r: String)
        ensures
            r@ == self.spec_colorify(color, out@),
    {
        if self.colors {
            paint(color, out)
        } else {
            out
        }
    }

    /// Renders a frame as one line: the hardware addresses, if the frame
    /// has them, then the protocol, the endpoints and what is known of the
    /// payload.
    pub fn print_compact(&self, packet: &Raw) -> (r: String)
        ensures
            r@ == self.spec_print_compact(packet@),
    {
        let mut out = String::new();
        let color = match packet {
            Raw::Ether(eth_frame, eth) => {
                let mut line = display_macadr_buf(eth_frame.source_mac.0);
                line.append(" -> ");
                line.append(display_macadr_buf(eth_frame.dest_mac.0).as_str());
                line.append(", ");
                let color = self.format_compact_eth(&mut line, eth);
                out.append(line.as_str());
                color
            },
            Raw::Tun(eth) => self.format_compact_eth(&mut out, eth),
            Raw::Unknown(data) => self.format_compact_unknown_data(&mut out, data.as_slice()),
        };
        assert(out@ =~= spec_compact(packet@).0);
        match color {
            Some(color) => self.colorify(color, out),
            None => out,
        }
    }

    /// Puts behind `out` what a compact line shows of bytes that were not
    /// classified. Such a line has no colour.
    pub fn format_compact_unknown_data(&self, out: &mut String, data: &[u8]) -> (r: Option<Color>)
        ensures
            final(out)@ == old(out)@ + spec_compact_unknown(data@),
            r is None,
    {
        let mut line = String::from_str("[unknown] ");
        line.append(debug_bytes(data).as_str());
        out.append(line.as_str());
        None
    }

    /// Puts behind `out` what a compact line shows of what a frame
    /// carries, and gives the colour of the line.
    pub fn format_compact_eth(&self, out: &mut String, eth: &Ether) -> (r: Option<Color>)
        ensures
            final(out)@ == old(out)@ + spec_compact_eth(eth@).0,
            r == spec_compact_eth(eth@).1,
    {
        match eth {
            Ether::Arp(arp_pkt) => self.format_compact_arp(out, arp_pkt),
            Ether::IPv4(ip_hdr, ipv4) => self.format_compact_ipv4(out, ip_hdr, ipv4),
            Ether::IPv6(ip_hdr, ipv6) => self.format_compact_ipv6(out, ip_hdr, ipv6),
            Ether::Unknown(data) => self.format_compact_unknown_data(out, data.as_slice()),
        }
    }

    /// Puts behind `out` what a compact line shows of an ARP packet. Such
    /// a line is blue.
    pub fn format_compact_arp(&self, out: &mut String, arp_pkt: &ARP) -> (r: Option<Color>)
        ensures
            final(out)@ == old(out)@ + spec_compact_arp(arp_pkt@),
            r == Some(Color::Blue),
    {
        let line = match arp_pkt {
            ARP::Request(arp_pkt) => {
                let mut line = String::from_str("[arp/request] ");
                line.append(pad(ipv4_text(arp_pkt.dest_addr), 15).as_str());
                line.append("   ?                         (tell ");
                line.append(ipv4_text(arp_pkt.src_addr).as_str());
                line.append(", ");
                line.append(display_macadr_buf(arp_pkt.src_mac.0).as_str());
                line.append(")");
                line
            },
            ARP::Reply(arp_pkt) => {
                let mut line = String::from_str("[arp/reply  ] ");
                line.append(pad(ipv4_text(arp_pkt.src_addr), 15).as_str());
                line.append("   ! => ");
                line.append(display_macadr_buf(arp_pkt.src_mac.0).as_str());
                line.append("    (fyi  ");
                line.append(ipv4_text(arp_pkt.dest_addr).as_str());
                line.append(", ");
                line.append(display_macadr_buf(arp_pkt.dest_mac.0).as_str());
                line.append(")");
                line
            },
        };
        out.append(line.as_str());
        Some(Color::Blue)
    }

    /// Puts behind `out` what a compact line shows of an IPv4 packet, and
    /// gives the colour of the line.
    pub fn format_compact_ipv4(&self, out: &mut String, ip_hdr: &IPv4Header, next: &IPv4) -> (r:
        Option<Color>)
        ensures
            final(out)@ == old(out)@ + spec_compact_ipv4(*ip_hdr, next@).0,
            r == spec_compact_ipv4(*ip_hdr, next@).1,
    {
        let source = ipv4_text(ip_hdr.source_addr);
        let dest = ipv4_text(ip_hdr.dest_addr);
        match next {
            IPv4::TCP(tcp_hdr, tcp) => self.format_compact_ip_tcp(
                out,
                source.as_str(),
                dest.as_str(),
                tcp_hdr,
                tcp,
            ),
            IPv4::UDP(udp_hdr, udp) => self.format_compact_ip_udp(
                out,
                source.as_str(),
                dest.as_str(),
                udp_hdr,
                udp,
            ),
            IPv4::Unknown(data) => self.format_compact_ip_unknown(
                out,
                source.as_str(),
                dest.as_str(),
                data.as_slice(),
            ),
        }
    }

    /// Puts behind `out` what a compact line shows of an IPv6 packet, and
    /// gives the colour of the line.
    pub fn format_compact_ipv6(&self, out: &mut String, ip_hdr: &IPv6Header, next: &IPv6) -> (r:
        Option<Color>)
        ensures
            final(out)@ == old(out)@ + spec_compact_ipv6(*ip_hdr, next@).0,
            r == spec_compact_ipv6(*ip_hdr, next@).1,
    {
        let source = ipv6_text(ip_hdr.source_addr);
        let dest = ipv6_text(ip_hdr.dest_addr);
        match next {
            IPv6::TCP(tcp_hdr, tcp) => self.format_compact_ip_tcp(
                out,
                source.as_str(),
                dest.as_str(),
                tcp_hdr,
                tcp,
            ),
            IPv6::UDP(udp_hdr, udp) => self.format_compact_ip_udp(
                out,
                source.as_str(),
                dest.as_str(),
                udp_hdr,
                udp,
            ),
            IPv6::Unknown(data) => self.format_compact_ip_unknown(
                out,
                source.as_str(),
                dest.as_str(),
                data.as_slice(),
            ),
        }
    }

    /// Puts behind `out` what a compact line shows of bytes between the
    /// addresses `source` and `dest` that were not classified. Such a line
    /// has no colour.
    pub fn format_compact_ip_unknown(
        &self,
        out: &mut String,
        source: &str,
        dest: &str,
        data: &[u8],
    ) -> (r: Option<Color>)
        ensures
            final(out)@ == old(out)@ + spec_compact_ip_unknown(source@, dest@, data@),
            r is None,
    {
        let mut line = String::from_str("[unknown] ");
        line.append(source);
        line.append(" -> ");
        line.append(dest);
        line.append(" ");
        line.append(debug_bytes(data).as_str());
        out.append(line.as_str());
        None
    }

    /// Puts behind `out` what a compact line shows of a UDP datagram
    /// between the addresses `source` and `dest`: the endpoints, each filled
    /// up to 22 characters, and the payload. Media is blue, anything else red.
    pub fn format_compact_ip_udp(
        &self,
        out: &mut String,
        source: &str,
        dest: &str,
        udp_hdr: &UdpHeader,
        udp: &UDP,
    ) -> (r: Option<Color>)
        ensures
            final(out)@ == old(out)@ + spec_compact_udp(source@, dest@, *udp_hdr, udp@).0,
            r == spec_compact_udp(source@, dest@, *udp_hdr, udp@).1,
    {
        let mut line = String::from_str("[udp   ] ");
        line.append(pad(endpoint(source, udp_hdr.source_port), 22).as_str());
        line.append(" -> ");
        line.append(pad(endpoint(dest, udp_hdr.dest_port), 22).as_str());
        line.append(" ");
        let (field, color) = udp_payload_field(udp);
        line.append(field.as_str());
        out.append(line.as_str());
        Some(color)
    }

    /// Puts behind `out` what a compact line shows of a TCP segment
    /// between the addresses `source` and `dest`: the flags, the endpoints,
    /// each filled up to 22 characters, and the payload. A segment without
    /// payload is grey, any other red.
    pub fn format_compact_ip_tcp(
        &self,
        out: &mut String,
        source: &str,
        dest: &str,
        tcp_hdr: &TcpHeader,
        tcp: &TCP,
    ) -> (r: Option<Color>)
        ensures
            final(out)@ == old(out)@ + spec_compact_tcp(source@, dest@, *tcp_hdr, tcp@).0,
            r == spec_compact_tcp(source@, dest@, *tcp_hdr, tcp@).1,
    {
        let mut line = String::from_str("[tcp/");
        line.append(pad(tcp_flags(tcp_hdr), 2).as_str());
        line.append("] ");
        line.append(pad(endpoint(source, tcp_hdr.source_port), 22).as_str());
        line.append(" -> ");
        line.append(pad(endpoint(dest, tcp_hdr.dest_port), 22).as_str());
        line.append(" ");
        let (field, color) = tcp_payload_field(tcp);
        line.append(field.as_str());
        out.append(line.as_str());
        Some(color)
    }
}

} // verus!
