use netsim::linkl::ethernet_frame::{mac_broadcast, EthernetFrame, MAC_BROADCAST_VALUE};
use netsim::netwl::arp::ARP;
use netsim::netwl::ip::{IpPayload, IP};
use netsim::netwl::ip_addr::{IpAddr, NetworkPart, SubnetMask};
use netsim::output::{is_byte_level, is_frame_level, is_transport_level, Level};
use netsim::tranl::tcp::{classify, TcpContent, TCP};
use netsim::types::{Error, Mac, Port, TPort, UpdateContext};
use netsim::utils::{
    append_bytes, append_u16, append_u32, copy_range, read_2bytes, read_4bytes, read_6bytes,
    split_2bytes, split_4bytes, split_6bytes,
};

const PREAMBLE: [u8; 8] = [0xAA, 0xAA, 0xAA, 0xAA, 0xAA, 0xAA, 0xAA, 0xAB];

fn header(dst: [u8; 6], src: [u8; 6], ethertype: [u8; 2]) -> Vec<u8> {
    let mut xs = PREAMBLE.to_vec();
    xs.extend_from_slice(&dst);
    xs.extend_from_slice(&src);
    xs.extend_from_slice(&ethertype);
    xs
}

#[test]
fn big_endian_reads() {
    assert_eq!(read_2bytes(&vec![0x12, 0x34, 0x56], 1), 0x3456);
    assert_eq!(read_4bytes(&vec![1, 2, 3, 4], 0), 0x0102_0304);
    assert_eq!(read_6bytes(&vec![0, 1, 2, 3, 4, 5, 6], 1), 0x0102_0304_0506);
    assert_eq!(read_6bytes(&vec![0xFF; 6], 0), 0xFFFF_FFFF_FFFF);
}

#[test]
fn big_endian_writes() {
    assert_eq!(split_2bytes(0xABCD), [0xAB, 0xCD]);
    assert_eq!(split_4bytes(0x0102_0304), [1, 2, 3, 4]);
    assert_eq!(split_6bytes(0xFF_0102_0304_0506), [1, 2, 3, 4, 5, 6]);
    let mut xs = vec![9u8];
    append_u16(&mut xs, 0x0800);
    append_u32(&mut xs, 0x0a00_0001);
    append_bytes(&mut xs, &vec![7, 7]);
    assert_eq!(xs, vec![9, 0x08, 0x00, 0x0a, 0, 0, 1, 7, 7]);
    assert_eq!(copy_range(&vec![1, 2, 3, 4], 1, 3), vec![2, 3]);
    assert_eq!(copy_range(&vec![1, 2, 3, 4], 2, 2), Vec::<u8>::new());
}

#[test]
fn primitive_constructors() {
    assert_eq!(Mac::new(7).value, 7);
    assert_eq!(Port::new(3).value, 3);
    assert_eq!(TPort::new(80).value, 80);
    assert_eq!(IpAddr::new(0x0a00_0001).value, 0x0a00_0001);
    assert_eq!(UpdateContext { t: 4 }.t, 4);
    assert_eq!(mac_broadcast().value, 0xFFFF_FFFF_FFFF);
    assert_eq!(MAC_BROADCAST_VALUE, 0xFFFF_FFFF_FFFF);
}

#[test]
fn trace_levels() {
    assert_eq!(Level::default(), Level::Byte);
    assert!(is_byte_level(Level::Byte));
    assert!(!is_byte_level(Level::Frame));
    assert!(is_frame_level(Level::Frame));
    assert!(!is_frame_level(Level::Transport));
    assert!(is_transport_level(Level::Transport));
    assert!(!is_transport_level(Level::Byte));
}

#[test]
fn ethernet_encode_gives_the_exact_bytes() {
    let frame = EthernetFrame::new(
        Mac::new(0x0102_0304_0506),
        Mac::new(0x0A0B_0C0D_0E0F),
        2,
        vec![9, 8],
    );
    let mut want = header([1, 2, 3, 4, 5, 6], [0x0A, 0x0B, 0x0C, 0x0D, 0x0E, 0x0F], [0, 2]);
    want.extend_from_slice(&[9, 8]);
    assert_eq!(EthernetFrame::encode(&frame), want);
}

#[test]
fn ethernet_decode_waits_for_the_header() {
    let xs = header([0; 6], [0; 6], [0, 0]);
    assert_eq!(EthernetFrame::decode(&xs).unwrap().payload, Vec::<u8>::new());
    let short = xs[..21].to_vec();
    assert!(matches!(EthernetFrame::decode(&short), Err(Error::NotEnoughBytes)));
    assert!(matches!(EthernetFrame::decode(&vec![]), Err(Error::NotEnoughBytes)));
}

#[test]
fn ethernet_decode_rejects_a_bad_preamble() {
    let mut xs = header([0; 6], [0; 6], [0, 0]);
    xs[0] = 0xAB;
    match EthernetFrame::decode(&xs) {
        Err(Error::InvalidBytes { msg }) => assert_eq!(msg, "bad preamble"),
        other => panic!("unexpected {:?}", other),
    }
    let mut xs = header([0; 6], [0; 6], [0, 0]);
    xs[7] = 0xAA;
    assert!(matches!(EthernetFrame::decode(&xs), Err(Error::InvalidBytes { .. })));
}

#[test]
fn ethernet_decode_classifies_the_type_field() {
    // a length of 1500 is the largest that is read as a length
    let mut xs = header([0; 6], [0; 6], [0x05, 0xDC]);
    assert!(matches!(EthernetFrame::decode(&xs), Err(Error::NotEnoughBytes)));
    xs.extend_from_slice(&vec![1u8; 1500]);
    let f = EthernetFrame::decode(&xs).unwrap();
    assert_eq!(f.ethertype, 0x05DC);
    assert_eq!(f.payload.len(), 1500);

    let xs = header([0; 6], [0; 6], [0x05, 0xDD]);
    match EthernetFrame::decode(&xs) {
        Err(Error::InvalidBytes { msg }) => assert_eq!(msg, "unsupported ethernet type"),
        other => panic!("unexpected {:?}", other),
    }
    let xs = header([0; 6], [0; 6], [0x08, 0x01]);
    assert!(matches!(EthernetFrame::decode(&xs), Err(Error::InvalidBytes { .. })));
}

#[test]
fn ethernet_decode_reads_the_length_of_a_datagram() {
    let mut xs = header([0, 0, 0, 0, 0, 1], [0, 0, 0, 0, 0, 2], [0x08, 0x00]);
    xs.extend_from_slice(&[0x45, 0, 0]);
    // the length field is not complete yet
    assert!(matches!(EthernetFrame::decode(&xs), Err(Error::NotEnoughBytes)));
    xs.push(6);
    // six bytes are announced and four are there
    assert!(matches!(EthernetFrame::decode(&xs), Err(Error::NotEnoughBytes)));
    xs.extend_from_slice(&[7, 8]);
    let f = EthernetFrame::decode(&xs).unwrap();
    assert_eq!(f, EthernetFrame::new(Mac::new(1), Mac::new(2), 0x0800, vec![0x45, 0, 0, 6, 7, 8]));
}

#[test]
fn ethernet_decode_takes_24_bytes_for_arp() {
    let mut xs = header([0xFF; 6], [0, 0, 0, 0, 0, 2], [0x08, 0x06]);
    xs.extend_from_slice(&[3u8; 23]);
    assert!(matches!(EthernetFrame::decode(&xs), Err(Error::NotEnoughBytes)));
    xs.push(3);
    let f = EthernetFrame::decode(&xs).unwrap();
    assert_eq!(f.payload, vec![3u8; 24]);
    assert!(f.is_bloadcast());
    assert_eq!(f.dst, mac_broadcast());
}

#[test]
fn ethernet_decode_ignores_what_follows_the_frame() {
    let mut xs = header([0, 0, 0, 0, 0, 1], [0, 0, 0, 0, 0, 2], [0, 1]);
    xs.extend_from_slice(&[5, 6, 7]);
    let f = EthernetFrame::decode(&xs).unwrap();
    assert_eq!(f, EthernetFrame::new(Mac::new(1), Mac::new(2), 1, vec![5]));
    assert!(!f.is_bloadcast());
}

#[test]
fn decoded_frame_round_trips() {
    let mut xs = header([1, 2, 3, 4, 5, 6], [6, 5, 4, 3, 2, 1], [0, 3]);
    xs.extend_from_slice(&[11, 12, 13]);
    let f = EthernetFrame::decode(&xs).unwrap();
    let again = EthernetFrame::decode(&EthernetFrame::encode(&f)).unwrap();
    assert_eq!(f, again);
}

#[test]
fn datagram_frame_shorter_than_its_length_field_does_not_round_trip() {
    // the length field announces no bytes, so the payload of the frame is empty
    let mut xs = header([0, 0, 0, 0, 0, 1], [0, 0, 0, 0, 0, 2], [0x08, 0x00]);
    xs.extend_from_slice(&[0x45, 0, 0, 0]);
    let f = EthernetFrame::decode(&xs).unwrap();
    assert_eq!(f.payload, Vec::<u8>::new());
    let ys = EthernetFrame::encode(&f);
    assert_eq!(ys.len(), 22);
    assert!(matches!(EthernetFrame::decode(&ys), Err(Error::NotEnoughBytes)));
}

#[test]
fn subnet_masks() {
    assert_eq!(SubnetMask::new(0).value, 0);
    assert_eq!(SubnetMask::new(1).value, 0x8000_0000);
    assert_eq!(SubnetMask::new(8).value, 0xFF00_0000);
    assert_eq!(SubnetMask::new(24).value, 0xFFFF_FF00);
    assert_eq!(SubnetMask::new(32).value, 0xFFFF_FFFF);
    assert_eq!(SubnetMask::new(32).prefix, 32);
}

#[test]
fn network_part_depends_on_the_masked_address_and_the_prefix() {
    let mask = SubnetMask::new(24);
    let a = NetworkPart::new(IpAddr::new(0x0a01_0001), mask);
    let b = NetworkPart::new(IpAddr::new(0x0a01_00FE), mask);
    let c = NetworkPart::new(IpAddr::new(0x0a02_0001), mask);
    assert_eq!(a, b);
    assert_ne!(a, c);
    assert_eq!(a, NetworkPart { value: 0x0a01_0000, prefix: 24 });
    assert_eq!(IpAddr::new(0x0a01_0001).nw(mask), a);
    // the same masked address under another prefix is another network
    let wide = NetworkPart::new(IpAddr::new(0x0a01_0000), SubnetMask::new(16));
    assert_eq!(wide.value, a.value);
    assert_ne!(wide, a);
}

#[test]
fn datagram_constructors() {
    let src = IpAddr::new(0x0a00_0001);
    let dst = IpAddr::new(0x0a00_0002);
    let ip = IP::new_byte(src, dst, vec![1, 2, 3]);
    assert_eq!(ip.version_ihl, 0x45);
    assert_eq!(ip.total_length, 23);
    assert_eq!(ip.ttl, 64);
    assert_eq!(ip.protocol, 0);
    assert_eq!(ip.checksum, 0);
    assert_eq!(ip.src, src);
    assert_eq!(ip.dst, dst);
    assert_eq!(ip.payload, IpPayload::Bytes(vec![1, 2, 3]));
    let icmp = IP::new_icmp(src, dst, 3, 1);
    assert_eq!(icmp.total_length, 22);
    assert_eq!(icmp.protocol, 1);
    assert_eq!(icmp.payload, IpPayload::ICMP { ty: 3, code: 1 });
    assert_eq!(icmp, IP::new(src, dst, IpPayload::ICMP { ty: 3, code: 1 }));
    assert_eq!(IpPayload::Bytes(vec![1, 2, 3]).len(), 3);
    assert_eq!(IpPayload::ICMP { ty: 3, code: 1 }.len(), 2);
    assert_eq!(IpPayload::ICMP { ty: 3, code: 1 }.to_bytes(), vec![3, 1]);
}

#[test]
fn datagram_encode_gives_the_exact_bytes() {
    let ip = IP::new_byte(IpAddr::new(0x0a00_0001), IpAddr::new(0x0a00_0002), vec![1, 2, 3]);
    assert_eq!(
        ip.encode(),
        vec![0x45, 0, 0, 23, 0, 0, 0, 0, 64, 0, 0, 0, 10, 0, 0, 1, 10, 0, 0, 2, 1, 2, 3]
    );
    let icmp = IP::new_icmp(IpAddr::new(1), IpAddr::new(2), 3, 1);
    assert_eq!(
        icmp.encode(),
        vec![0x45, 0, 0, 22, 0, 0, 0, 0, 64, 1, 0, 0, 0, 0, 0, 1, 0, 0, 0, 2, 3, 1]
    );
}

#[test]
fn datagram_decode_waits_for_the_header() {
    let ip = IP::new_byte(IpAddr::new(1), IpAddr::new(2), vec![]);
    let xs = ip.encode();
    assert_eq!(xs.len(), 20);
    assert_eq!(IP::decode(&xs).unwrap(), ip);
    assert!(matches!(IP::decode(&xs[..19].to_vec()), Err(Error::NotEnoughBytes)));
    let icmp = IP::new_icmp(IpAddr::new(1), IpAddr::new(2), 3, 1).encode();
    assert!(matches!(IP::decode(&icmp[..21].to_vec()), Err(Error::NotEnoughBytes)));
}

#[test]
fn arp_request_and_reply() {
    let req = ARP::new_request(Mac::new(5), IpAddr::new(0x0a00_0001), IpAddr::new(0x0a00_0003));
    assert_eq!(req.hardware_type, 1);
    assert_eq!(req.protocol_type, 0x0800);
    assert_eq!(req.hardware_size, 6);
    assert_eq!(req.protocol_size, 4);
    assert_eq!(req.opcode, 1);
    assert_eq!(req.target_mac, Mac::new(0));
    let rep = req.reply(Mac::new(9));
    assert_eq!(rep.opcode, 2);
    assert_eq!(rep.sender_mac, Mac::new(9));
    assert_eq!(rep.sender_ipaddr, IpAddr::new(0x0a00_0003));
    assert_eq!(rep.target_mac, Mac::new(5));
    assert_eq!(rep.target_ipaddr, IpAddr::new(0x0a00_0001));
}

#[test]
fn arp_encode_gives_the_exact_bytes() {
    let req = ARP::new_request(Mac::new(5), IpAddr::new(0x0a00_0001), IpAddr::new(0x0a00_0003));
    assert_eq!(
        req.encode(),
        vec![0, 1, 8, 0, 6, 4, 0, 1, 0, 0, 0, 5, 10, 0, 0, 1, 0, 0, 0, 0, 10, 0, 0, 3]
    );
    assert!(matches!(ARP::decode(&req.encode()[..23].to_vec()), Err(Error::NotEnoughBytes)));
}

#[test]
fn arp_carries_the_low_32_bits_of_a_hardware_address() {
    let req = ARP::new_request(Mac::new(0x1_0000_0005), IpAddr::new(1), IpAddr::new(2));
    let back = ARP::decode(&req.encode()).unwrap();
    assert_eq!(back.sender_mac, Mac::new(5));
    assert_eq!(ARP::decode(&back.encode()).unwrap(), back);
}

#[test]
fn segment_flags() {
    assert_eq!(classify(0x02), TcpContent::Syn);
    assert_eq!(classify(0x12), TcpContent::SynAck);
    assert_eq!(classify(0x10), TcpContent::Ack);
    assert_eq!(classify(0x01), TcpContent::Fin);
    assert_eq!(classify(0x11), TcpContent::FinAck);
    assert_eq!(classify(0x00), TcpContent::Data);
    assert_eq!(classify(0x18), TcpContent::Data);
    assert_eq!(classify(0xFF), TcpContent::Data);
}

#[test]
fn segment_constructors_round_trip() {
    let a = TPort::new(1);
    let b = TPort::new(2);
    let segments = vec![
        (TCP::new_syn(a, b, 5), TcpContent::Syn, 0x02),
        (TCP::new_synack(a, b, 5), TcpContent::SynAck, 0x12),
        (TCP::new_ack(a, b, 5, 6), TcpContent::Ack, 0x10),
        (TCP::new_fin(a, b, 5, 6), TcpContent::Fin, 0x01),
        (TCP::new_finack(a, b, 5, 6), TcpContent::FinAck, 0x11),
        (TCP::new_data(a, b, 5, 6, 0, vec![1, 2]), TcpContent::Data, 0x00),
    ];
    for (tcp, content, flags) in segments {
        assert_eq!(tcp.content, content);
        assert_eq!(tcp.flags, flags);
        assert_eq!(tcp.src, a);
        assert_eq!(tcp.dst, b);
        assert_eq!(tcp.seq, 5);
        let back = TCP::decode(&tcp.encode()).unwrap();
        assert_eq!(back, tcp);
    }
}

#[test]
fn segment_encode_gives_the_exact_bytes() {
    let mut tcp = TCP::new_data(TPort::new(0x0102), TPort::new(0x0304), 0x0A0B_0C0D, 1, 0x18, vec![9]);
    tcp.data_offset = 5;
    tcp.window = 0x0708;
    assert_eq!(
        tcp.encode(),
        vec![1, 2, 3, 4, 0x0A, 0x0B, 0x0C, 0x0D, 0, 0, 0, 1, 0x50, 0x18, 7, 8, 0, 0, 0, 0, 9]
    );
    let back = TCP::decode(&tcp.encode()).unwrap();
    assert_eq!(back.data_offset, 5);
    assert_eq!(back, tcp);
    assert!(matches!(TCP::decode(&tcp.encode()[..19].to_vec()), Err(Error::NotEnoughBytes)));
}
