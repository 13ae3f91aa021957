use netsim::linkl::ethernet_frame::EthernetFrame;
use netsim::netwl::arp::ARP;
use netsim::netwl::ip::{IpPayload, IP};
use netsim::netwl::ip_addr::{IpAddr, NetworkPart, SubnetMask};
use netsim::tranl::tcp::TCP;
use netsim::types::{Mac, TPort};

#[test]
fn test_ethernet_frame() {
    let ip = IP::new_byte(IpAddr::new(180), IpAddr::new(240), vec![1, 2, 3]);
    let ip_byte: Vec<u8> = ip.encode();
    let frame = EthernetFrame::new(Mac::new(1), Mac::new(2), 0x0800, ip_byte);
    let xs = EthernetFrame::encode(&frame);
    let frame2 = EthernetFrame::decode(&xs).unwrap();
    println!("frame: {:?}", frame);
    assert_eq!(frame, frame2);
}

#[test]
fn arp_test_arp() {
    let arp = ARP {
        hardware_type: 1,
        protocol_type: 0x0800,
        hardware_size: 6,
        protocol_size: 4,
        opcode: 1,
        sender_mac: Mac::new(0x01020304),
        sender_ipaddr: IpAddr::new(0x0a000001),
        target_mac: Mac::new(0x03040506),
        target_ipaddr: IpAddr::new(0x0a000002),
    };
    let xs = arp.encode();
    let arp2 = ARP::decode(&xs).unwrap();
    assert_eq!(arp, arp2);
}

#[test]
fn ip_test_ip() {
    let ips = vec![
        IP::new_byte(IpAddr::new(0x0a000001), IpAddr::new(0x0a000002), vec![0x01, 0x02, 0x03]),
        IP::new(IpAddr::new(0x0a000001), IpAddr::new(0x0a000002), IpPayload::ICMP { ty: 2, code: 3 }),
    ];
    for ip in ips {
        let xs = ip.encode();
        let ip2 = IP::decode(&xs).unwrap();
        assert_eq!(ip, ip2);
    }
}

#[test]
fn test_ip_addr() {
    let ip_addr = IpAddr::new(0b11000000_10101000_00000001_00000010);
    let subnet_mask = SubnetMask::new(24);
    let network_part = NetworkPart::new(ip_addr, subnet_mask);
    assert_eq!(subnet_mask.prefix, 24);
    assert_eq!(subnet_mask.value, 0b11111111_11111111_11111111_00000000);
    assert_eq!(network_part.value, 0b11000000_10101000_00000001_00000000);
}

#[test]
fn test_tcp() {
    let tcps = vec![
        TCP::new_data(TPort::new(1), TPort::new(2), 0, 0, 0, vec![1, 2, 3]),
        TCP::new_ack(TPort::new(1), TPort::new(2), 0, 0),
    ];
    for tcp in tcps {
        let bytes = tcp.encode();
        let tcp2 = TCP::decode(&bytes).unwrap();
        assert_eq!(tcp, tcp2);
    }
}

#[test]
fn test_arp() {
    let arp = ARP {
        hardware_type: 1,
        protocol_type: 0x0800,
        hardware_size: 6,
        protocol_size: 4,
        opcode: 1,
        sender_mac: Mac::new(0x01020304),
        sender_ipaddr: IpAddr::new(0x0a000001),
        target_mac: Mac::new(0x03040506),
        target_ipaddr: IpAddr::new(0x0a000002),
    };
    let xs = arp.encode();
    let arp2 = ARP::decode(&xs).unwrap();
    assert_eq!(arp, arp2);
}

#[test]
fn test_ip() {
    let ips = vec![
        IP::new_byte(IpAddr::new(0x0a000001), IpAddr::new(0x0a000002), vec![0x01, 0x02, 0x03]),
        IP::new(IpAddr::new(0x0a000001), IpAddr::new(0x0a000002), IpPayload::ICMP { ty: 2, code: 3 }),
    ];
    for ip in ips {
        let xs = ip.encode();
        let ip2 = IP::decode(&xs).unwrap();
        assert_eq!(ip, ip2);
    }
}
