use netsim::linkl::ethernet_frame::EthernetFrame;
use netsim::netwl::ip::{IpPayload, IP};
use netsim::netwl::ip_addr::IpAddr;
use netsim::netwl::network_protocol::NetworkProtocol;
use netsim::physl::byte_host::ByteLog;
use netsim::tranl::tcp::TcpContent;
use netsim::types::{Error, Mac, Port};

#[test]
fn physl_test_2byte_host() {
    let log = netsim::physl::run_sample().unwrap();
    assert_eq!(log[0], ByteLog::new(2, Port::new(0), 0x01));
    assert_eq!(log[2], ByteLog::new(4, Port::new(0), 0x03));
}

#[test]
fn repeater_delivers_each_byte_two_ticks_after_it_was_sent() {
    let log = netsim::physl::run_sample().unwrap();
    assert_eq!(
        log,
        vec![
            ByteLog::new(2, Port::new(0), 0x01),
            ByteLog::new(3, Port::new(0), 0x02),
            ByteLog::new(4, Port::new(0), 0x03),
            ByteLog::new(5, Port::new(0), 0x04),
        ]
    );
}

#[test]
fn linkl_test_2host_1bridge() {
    let log = netsim::linkl::run_sample().unwrap()[0].clone();
    let mac0 = Mac::new(23);
    let mac1 = Mac::new(24);
    let frame = EthernetFrame::new(mac1, mac0, 3, vec![11, 12, 13]);
    assert_eq!(frame, log.frame);
}

#[test]
fn bridge_delivers_the_frame_exactly_once() {
    let logs = netsim::linkl::run_sample().unwrap();
    assert_eq!(logs.len(), 1);
    assert_eq!(logs[0].frame.dst, Mac::new(24));
    assert_eq!(logs[0].frame.src, Mac::new(23));
    assert_eq!(logs[0].frame.payload, vec![11, 12, 13]);
}

#[test]
fn linkl_test_4host_1switch() {
    let log = netsim::linkl::run_sample_3host().unwrap()[0].clone();
    let mac0 = Mac::new(21);
    let mac1 = Mac::new(22);
    let frame = EthernetFrame::new(mac0, mac1, 3, vec![11, 12, 13]);
    assert_eq!(frame, log.frame);
}

#[test]
fn netwl_test_host_host() {
    let rlog = netsim::netwl::run_host_host().unwrap();
    assert_eq!(1, rlog.len());
    let ip = match rlog[0].p.clone() {
        NetworkProtocol::IP(p) => p,
        _ => panic!(""),
    };
    assert_eq!(IpAddr::new(0x0a00_0001), ip.dst);
    assert_eq!(IpAddr::new(0x0a00_0002), ip.src);
    assert_eq!(ip.payload, IpPayload::Bytes(vec![0x01, 0x02]));
}

#[test]
fn test_2host_1router() {
    let rlog = netsim::netwl::run_2host_1router().unwrap();
    assert_eq!(1, rlog.len());
    let ip = match rlog[0].p.clone() {
        NetworkProtocol::IP(p) => p,
        _ => panic!(""),
    };
    assert_eq!(IpAddr::new(0x0a00_0001), ip.dst);
}

fn check_2router() {
    let rlogs = netsim::netwl::run_2router().unwrap();
    assert_eq!(1, rlogs.len());
    let plog: &IP = match rlogs[0].p {
        NetworkProtocol::IP(ref p) => p,
        _ => panic!(""),
    };
    assert_eq!(plog.dst, IpAddr::new(0x0a01_0001));
    assert_eq!(plog.src, IpAddr::new(0x0a03_0002));
}

#[test]
fn netwl_test_2router() {
    check_2router();
}

#[test]
fn test_2router() {
    check_2router();
}

#[test]
fn netwl_test_unreachable() {
    let nw = netsim::netwl::run_unreachable();
    match nw {
        Err(Error::IpUnreashcable { code, msg: _msg }) => assert_eq!(1, code),
        _ => assert!(false),
    }
}

fn check_router_arp() {
    let arp_table = netsim::netwl::run_test_router_arp().unwrap();
    assert_eq!(1, arp_table.len());
    let (ipaddr, mac) = arp_table.iter().next().unwrap();
    assert_eq!(IpAddr::new(0x0a00_0003), *ipaddr);
    assert_eq!(Mac::new(764), *mac);
}

#[test]
fn test_router_arp() {
    check_router_arp();
}

#[test]
fn netwl_test_arp() {
    check_router_arp();
}

#[test]
fn test_tcp_nw() {
    let rlog = netsim::tranl::run_test_tcp_nw().unwrap();
    assert_eq!(3, rlog.len());
}

#[test]
fn tcp_round_trip_receives_synack_ack_finack() {
    let rlog = netsim::tranl::run_test_tcp_nw().unwrap();
    let contents: Vec<TcpContent> = rlog.iter().map(|s| s.content).collect();
    assert_eq!(contents, vec![TcpContent::SynAck, TcpContent::Ack, TcpContent::FinAck]);
}
