use netsim::linkl::ethernet_frame::{mac_broadcast, EthernetFrame};
use netsim::netwl::arp::ARP;
use netsim::netwl::ip::{IpPayload, IP};
use netsim::netwl::ip_addr::{IpAddr, NetworkPart, SubnetMask};
use netsim::netwl::ip_device::{BaseIpDevice, IpDevice, IpHandler, IpRole};
use netsim::netwl::ip_host::IpHost;
use netsim::netwl::network_protocol::NetworkProtocol;
use netsim::netwl::router::Router;
use netsim::netwl::table::{arp_find, arp_put, route_find, route_put};
use netsim::physl::device::Device;
use netsim::types::{Error, Mac, Port, UpdateContext};

const OWN_MAC: u64 = 700;
const OWN_IP: u32 = 0x0a01_0001;

fn device() -> BaseIpDevice {
    BaseIpDevice::new(Mac::new(OWN_MAC), "dev", vec![IpAddr::new(OWN_IP)], SubnetMask::new(24))
}

fn two_interfaces() -> BaseIpDevice {
    BaseIpDevice::new(
        Mac::new(OWN_MAC),
        "router",
        vec![IpAddr::new(0x0a01_0003), IpAddr::new(0x0a02_0001)],
        SubnetMask::new(24),
    )
}

fn drain(d: &mut BaseIpDevice) -> Vec<u8> {
    let mut out = vec![];
    while let Some((_, x)) = d.pop_send() {
        out.push(x);
    }
    out
}

fn feed(d: &mut BaseIpDevice, port: u32, frame: &EthernetFrame) {
    for b in EthernetFrame::encode(frame) {
        d.push_recv(Port::new(port), b);
    }
}

#[test]
fn tables_keep_the_newest_value_of_a_key() {
    let mut arp: Vec<(IpAddr, Mac)> = vec![];
    assert_eq!(arp_find(&arp, IpAddr::new(1)), None);
    arp_put(&mut arp, IpAddr::new(1), Mac::new(10));
    arp_put(&mut arp, IpAddr::new(2), Mac::new(20));
    arp_put(&mut arp, IpAddr::new(1), Mac::new(11));
    assert_eq!(arp, vec![(IpAddr::new(1), Mac::new(11)), (IpAddr::new(2), Mac::new(20))]);
    assert_eq!(arp_find(&arp, IpAddr::new(1)), Some(Mac::new(11)));
    assert_eq!(arp_find(&arp, IpAddr::new(2)), Some(Mac::new(20)));
    assert_eq!(arp_find(&arp, IpAddr::new(3)), None);

    let mut routes: Vec<(NetworkPart, IpAddr)> = vec![];
    let n1 = NetworkPart { value: 0x0a01_0000, prefix: 24 };
    let n2 = NetworkPart { value: 0x0a01_0000, prefix: 16 };
    route_put(&mut routes, n1, IpAddr::new(5));
    route_put(&mut routes, n2, IpAddr::new(6));
    route_put(&mut routes, n1, IpAddr::new(7));
    assert_eq!(routes, vec![(n1, IpAddr::new(7)), (n2, IpAddr::new(6))]);
    assert_eq!(route_find(&routes, n1), Some(IpAddr::new(7)));
    assert_eq!(route_find(&routes, n2), Some(IpAddr::new(6)));
    assert_eq!(route_find(&routes, NetworkPart { value: 0, prefix: 24 }), None);
}

#[test]
fn interfaces_take_the_ports_in_order() {
    let d = two_interfaces();
    assert_eq!(d.get_num_ports(), 2);
    assert_eq!(d.get_mac(), Mac::new(OWN_MAC));
    assert_eq!(d.get_name(), "router");
    assert_eq!(d.get_ip_addr(Port::new(0)), Some(IpAddr::new(0x0a01_0003)));
    assert_eq!(d.get_ip_addr(Port::new(1)), Some(IpAddr::new(0x0a02_0001)));
    assert_eq!(d.get_ip_addr(Port::new(2)), None);
    assert!(d.is_for_me(&IpAddr::new(0x0a02_0001)));
    assert!(!d.is_for_me(&IpAddr::new(0x0a02_0002)));
    assert_eq!(d.find_port(&NetworkPart { value: 0x0a02_0000, prefix: 24 }), Some(Port::new(1)));
    assert_eq!(d.find_port(&NetworkPart { value: 0x0a03_0000, prefix: 24 }), None);
    assert_eq!(d.find_port(&NetworkPart { value: 0x0a02_0000, prefix: 16 }), None);
}

#[test]
fn next_hop_of_a_neighbour_is_the_neighbour() {
    let mut d = device();
    let neighbour = IpAddr::new(0x0a01_0002);
    assert!(matches!(d.find_next_mac(neighbour), Err(Error::MacNotFailed)));
    d.add_arp_entry(neighbour, Mac::new(701)).unwrap();
    assert_eq!(d.find_next_mac(neighbour).unwrap(), Mac::new(701));
    assert_eq!(d.get_arp_table(), &vec![(neighbour, Mac::new(701))]);
}

#[test]
fn next_hop_of_a_far_address_comes_from_the_routing_table() {
    let mut d = device();
    let far = IpAddr::new(0x0a03_0002);
    let gateway = IpAddr::new(0x0a01_0003);
    assert!(matches!(d.find_next_mac(far), Err(Error::MacNotFailed)));
    d.add_route_entry(far.nw(SubnetMask::new(24)), gateway).unwrap();
    // the gateway is not in the ARP table yet
    assert!(matches!(d.find_next_mac(far), Err(Error::MacNotFailed)));
    d.add_arp_entry(gateway, Mac::new(765)).unwrap();
    assert_eq!(d.find_next_mac(far).unwrap(), Mac::new(765));
    // an entry for the far address itself is not used
    d.add_arp_entry(far, Mac::new(999)).unwrap();
    assert_eq!(d.find_next_mac(far).unwrap(), Mac::new(765));
}

#[test]
fn frame_for_another_station_is_not_delivered() {
    let d = device();
    let ip = IP::new_byte(IpAddr::new(0x0a01_0002), IpAddr::new(OWN_IP), vec![1]);
    let foreign = EthernetFrame::new(Mac::new(OWN_MAC + 1), Mac::new(1), 0x0800, ip.encode());
    assert_eq!(d.decode(&foreign).unwrap(), None);
    // not even if its payload is no datagram at all
    let junk = EthernetFrame::new(Mac::new(OWN_MAC + 1), Mac::new(1), 0x1234, vec![1]);
    assert_eq!(d.decode(&junk).unwrap(), None);
    let own = EthernetFrame::new(Mac::new(OWN_MAC), Mac::new(1), 0x0800, ip.encode());
    assert_eq!(d.decode(&own).unwrap(), Some(NetworkProtocol::IP(ip.clone())));
    let all = EthernetFrame::new(mac_broadcast(), Mac::new(1), 0x0800, ip.encode());
    assert_eq!(d.decode(&all).unwrap(), Some(NetworkProtocol::IP(ip)));
}

#[test]
fn frame_for_another_station_leaves_no_trace_in_the_logs() {
    let mut d = device();
    let ip = IP::new_byte(IpAddr::new(0x0a01_0002), IpAddr::new(OWN_IP), vec![1]);
    let foreign = EthernetFrame::new(Mac::new(OWN_MAC + 1), Mac::new(1), 0x0800, ip.encode());
    feed(&mut d, 0, &foreign);
    d.base_update(IpRole::Host(IpHandler::Echo), &UpdateContext { t: 0 }).unwrap();
    assert_eq!(d.get_rlog().len(), 0);
    assert_eq!(d.get_slog().len(), 0);
    assert_eq!(drain(&mut d), vec![]);
}

#[test]
fn ingress_dispatches_by_the_type_of_the_frame() {
    let d = device();
    let arp = ARP::new_request(Mac::new(1), IpAddr::new(2), IpAddr::new(OWN_IP));
    let f = EthernetFrame::new(mac_broadcast(), Mac::new(1), 0x0806, arp.encode());
    assert_eq!(d.decode(&f).unwrap(), Some(NetworkProtocol::ARP(arp)));
    let f = EthernetFrame::new(Mac::new(OWN_MAC), Mac::new(1), 3, vec![1, 2, 3]);
    match d.decode(&f) {
        Err(Error::InvalidBytes { msg }) => assert_eq!(msg, "neither IPv4 nor ARP"),
        other => panic!("unexpected {:?}", other),
    }
    let f = EthernetFrame::new(Mac::new(OWN_MAC), Mac::new(1), 0x0800, vec![1, 2, 3]);
    assert!(matches!(d.decode(&f), Err(Error::NotEnoughBytes)));
    let f = EthernetFrame::new(Mac::new(OWN_MAC), Mac::new(1), 0x0806, vec![1, 2, 3]);
    assert!(matches!(d.decode(&f), Err(Error::NotEnoughBytes)));
}

#[test]
fn egress_frames() {
    let mut d = device();
    let neighbour = IpAddr::new(0x0a01_0002);
    d.add_arp_entry(neighbour, Mac::new(701)).unwrap();
    let ip = NetworkProtocol::IP(IP::new_byte(IpAddr::new(OWN_IP), neighbour, vec![1]));
    assert_eq!(
        d.encode(&ip).unwrap(),
        EthernetFrame::new(Mac::new(701), Mac::new(OWN_MAC), 0x0800, ip.encode())
    );
    let req = ARP::new_request(Mac::new(OWN_MAC), IpAddr::new(OWN_IP), neighbour);
    let p = NetworkProtocol::ARP(req);
    assert_eq!(
        d.encode(&p).unwrap(),
        EthernetFrame::new(mac_broadcast(), Mac::new(OWN_MAC), 0x0806, p.encode())
    );
    let rep = NetworkProtocol::ARP(req.reply(Mac::new(701)));
    assert_eq!(
        d.encode(&rep).unwrap(),
        EthernetFrame::new(Mac::new(OWN_MAC), Mac::new(OWN_MAC), 0x0806, rep.encode())
    );
    let far = NetworkProtocol::IP(IP::new_byte(IpAddr::new(OWN_IP), IpAddr::new(0x0b00_0001), vec![1]));
    assert!(matches!(d.encode(&far), Err(Error::MacNotFailed)));
}

#[test]
fn arp_request_for_an_own_address_is_answered() {
    let mut d = device();
    let req = ARP::new_request(Mac::new(5), IpAddr::new(0x0a01_0002), IpAddr::new(OWN_IP));
    assert_eq!(
        d.handle_arp(&req).unwrap(),
        Some(NetworkProtocol::ARP(req.reply(Mac::new(OWN_MAC))))
    );
    assert_eq!(d.get_arp_table().len(), 0);
    let other = ARP::new_request(Mac::new(5), IpAddr::new(0x0a01_0002), IpAddr::new(0x0a01_0009));
    assert_eq!(d.handle_arp(&other).unwrap(), None);
}

#[test]
fn arp_reply_for_an_own_address_fills_the_table() {
    let mut d = device();
    let req = ARP::new_request(Mac::new(OWN_MAC), IpAddr::new(OWN_IP), IpAddr::new(0x0a01_0002));
    let rep = req.reply(Mac::new(701));
    assert_eq!(d.handle_arp(&rep).unwrap(), None);
    assert_eq!(d.get_arp_table(), &vec![(IpAddr::new(0x0a01_0002), Mac::new(701))]);
    // a reply to another station changes nothing
    let mut foreign = rep;
    foreign.target_ipaddr = IpAddr::new(0x0a01_0009);
    foreign.sender_ipaddr = IpAddr::new(0x0a01_0008);
    assert_eq!(d.handle_arp(&foreign).unwrap(), None);
    assert_eq!(d.get_arp_table().len(), 1);
}

#[test]
fn arp_with_an_unknown_opcode_is_an_error() {
    let mut d = device();
    let mut arp = ARP::new_request(Mac::new(5), IpAddr::new(0x0a01_0002), IpAddr::new(OWN_IP));
    arp.opcode = 3;
    match d.handle_arp(&arp) {
        Err(Error::InvalidBytes { msg }) => assert_eq!(msg, "unsupported opcode"),
        other => panic!("unexpected {:?}", other),
    }
    arp.target_ipaddr = IpAddr::new(0x0a01_0009);
    assert!(matches!(d.handle_arp(&arp), Err(Error::InvalidBytes { .. })));
}

#[test]
fn host_answers_bytes_and_drops_what_is_for_others() {
    let d = device();
    let from = IpAddr::new(0x0a01_0002);
    let ip = IP::new_byte(from, IpAddr::new(OWN_IP), vec![1, 2]);
    assert_eq!(
        d.handle_ip(&ip, IpRole::Host(IpHandler::Echo)).unwrap(),
        Some(NetworkProtocol::IP(IP::new_byte(IpAddr::new(OWN_IP), from, vec![1, 2])))
    );
    assert_eq!(d.handle_ip(&ip, IpRole::Host(IpHandler::Consume)).unwrap(), None);
    let other = IP::new_byte(from, IpAddr::new(0x0a01_0009), vec![1, 2]);
    assert_eq!(d.handle_ip(&other, IpRole::Host(IpHandler::Echo)).unwrap(), None);
    assert_eq!(IpHandler::Echo.reply(&vec![4]), Some(vec![4]));
    assert_eq!(IpHandler::Consume.reply(&vec![4]), None);
}

#[test]
fn router_forwards_bytes_and_is_no_endpoint() {
    let d = two_interfaces();
    let from = IpAddr::new(0x0a01_0001);
    let through = IP::new_byte(from, IpAddr::new(0x0a03_0002), vec![1, 2]);
    assert_eq!(
        d.handle_ip(&through, IpRole::Router).unwrap(),
        Some(NetworkProtocol::IP(through.clone()))
    );
    let to_router = IP::new_byte(from, IpAddr::new(0x0a02_0001), vec![1, 2]);
    match d.handle_ip(&to_router, IpRole::Router) {
        Err(Error::InvalidBytes { msg }) => assert_eq!(msg, "a router is no endpoint"),
        other => panic!("unexpected {:?}", other),
    }
    // messages for other stations are not forwarded
    let icmp = IP::new_icmp(from, IpAddr::new(0x0a03_0002), 3, 1);
    assert_eq!(d.handle_ip(&icmp, IpRole::Router).unwrap(), None);
}

#[test]
fn unreachable_message_is_an_error_with_its_code() {
    let d = device();
    let icmp = IP::new_icmp(IpAddr::new(0x0a01_0003), IpAddr::new(OWN_IP), 3, 1);
    match d.handle_ip(&icmp, IpRole::Host(IpHandler::Echo)) {
        Err(Error::IpUnreashcable { code, msg }) => {
            assert_eq!(code, 1);
            assert_eq!(msg, "");
        }
        other => panic!("unexpected {:?}", other),
    }
    let icmp = IP::new_icmp(IpAddr::new(0x0a01_0003), IpAddr::new(OWN_IP), 3, 7);
    assert!(matches!(
        d.handle_ip(&icmp, IpRole::Host(IpHandler::Echo)),
        Err(Error::IpUnreashcable { code: 7, .. })
    ));
    // another kind of message is dropped
    let echo = IP::new_icmp(IpAddr::new(0x0a01_0003), IpAddr::new(OWN_IP), 8, 0);
    assert_eq!(d.handle_ip(&echo, IpRole::Host(IpHandler::Echo)).unwrap(), None);
}

#[test]
fn datagram_without_a_next_hop_is_answered_with_an_unreachable_message() {
    let ctx = UpdateContext { t: 4 };
    let mut d = two_interfaces();
    let source = IpAddr::new(0x0a01_0001);
    d.add_arp_entry(source, Mac::new(761)).unwrap();
    let lost = IP::new_byte(source, IpAddr::new(0x0a03_0002), vec![1, 2]);
    d.send(NetworkProtocol::IP(lost), &ctx).unwrap();
    let notice = IP::new_icmp(IpAddr::new(0x0a01_0003), source, 3, 1);
    assert_eq!(d.get_slog().len(), 1);
    assert_eq!(d.get_slog()[0].t, 4);
    assert_eq!(d.get_slog()[0].p, NetworkProtocol::IP(notice.clone()));
    let frame = EthernetFrame::new(Mac::new(761), Mac::new(OWN_MAC), 0x0800, notice.encode());
    let bytes = EthernetFrame::encode(&frame);
    // nothing is known of the stations yet, so the frame goes to both ports
    let mut want = bytes.clone();
    want.extend(bytes);
    assert_eq!(drain(&mut d), want);
    assert_eq!(d.unreachable(&IP::new_byte(source, source, vec![])), Some(notice));
}

#[test]
fn datagram_without_a_next_hop_and_without_a_way_back_is_dropped() {
    let ctx = UpdateContext { t: 0 };
    let mut d = device();
    let lost = IP::new_byte(IpAddr::new(0x0b00_0001), IpAddr::new(0x0c00_0001), vec![1]);
    d.send(NetworkProtocol::IP(lost), &ctx).unwrap();
    assert_eq!(d.get_slog().len(), 0);
    assert_eq!(drain(&mut d), vec![]);
}

#[test]
fn unreachable_message_may_reach_the_device_itself() {
    // the source is unknown too, so the message about the message goes to the
    // device's own address, which stands in its ARP table here
    let ctx = UpdateContext { t: 0 };
    let mut d = device();
    d.add_arp_entry(IpAddr::new(OWN_IP), Mac::new(OWN_MAC)).unwrap();
    let lost = IP::new_byte(IpAddr::new(0x0b00_0001), IpAddr::new(0x0c00_0001), vec![1]);
    d.send(NetworkProtocol::IP(lost), &ctx).unwrap();
    assert_eq!(d.get_slog().len(), 1);
    assert_eq!(
        d.get_slog()[0].p,
        NetworkProtocol::IP(IP::new_icmp(IpAddr::new(OWN_IP), IpAddr::new(OWN_IP), 3, 1))
    );
}

#[test]
fn forwarding_table_follows_the_arp_table() {
    let ctx = UpdateContext { t: 0 };
    let mut d = two_interfaces();
    d.add_arp_entry(IpAddr::new(0x0a02_0002), Mac::new(766)).unwrap();
    d.add_arp_entry(IpAddr::new(0x0a01_0001), Mac::new(761)).unwrap();
    d.add_arp_entry(IpAddr::new(0x0a09_0001), Mac::new(799)).unwrap();
    d.update_table().unwrap();
    let to_a = NetworkProtocol::IP(IP::new_byte(IpAddr::new(0x0a02_0002), IpAddr::new(0x0a01_0001), vec![]));
    let frame = d.encode(&to_a).unwrap();
    d.send(to_a, &ctx).unwrap();
    let mut ports = vec![];
    let mut bytes = vec![];
    while let Some((p, x)) = d.pop_send() {
        ports.push(p);
        bytes.push(x);
    }
    assert_eq!(bytes, EthernetFrame::encode(&frame));
    assert!(ports.iter().all(|p| *p == Port::new(0)));
    let to_s = NetworkProtocol::IP(IP::new_byte(IpAddr::new(0x0a01_0001), IpAddr::new(0x0a02_0002), vec![]));
    d.send(to_s, &ctx).unwrap();
    let mut ports = vec![];
    while let Some((p, _)) = d.pop_send() {
        ports.push(p);
    }
    assert!(!ports.is_empty());
    assert!(ports.iter().all(|p| *p == Port::new(1)));
}

#[test]
fn receive_takes_one_frame_and_logs_what_it_holds() {
    let ctx = UpdateContext { t: 3 };
    let mut d = device();
    let ip = IP::new_byte(IpAddr::new(0x0a01_0002), IpAddr::new(OWN_IP), vec![1]);
    let own = EthernetFrame::new(Mac::new(OWN_MAC), Mac::new(1), 0x0800, ip.encode());
    feed(&mut d, 0, &own);
    feed(&mut d, 0, &own);
    assert_eq!(d.recv(&ctx).unwrap(), Some(NetworkProtocol::IP(ip.clone())));
    assert_eq!(d.get_rbuf_len(), 1);
    assert_eq!(d.recv(&ctx).unwrap(), Some(NetworkProtocol::IP(ip.clone())));
    assert_eq!(d.recv(&ctx).unwrap(), None);
    assert_eq!(d.get_rlog().len(), 2);
    assert_eq!(d.get_rlog()[1].t, 3);
    assert_eq!(d.get_rlog()[1].p, NetworkProtocol::IP(ip));
}

#[test]
fn ip_host_answers_within_the_tick_of_the_last_byte() {
    let mut h = IpHost::build_echo(Mac::new(OWN_MAC), "h", IpAddr::new(OWN_IP), SubnetMask::new(24));
    let from = IpAddr::new(0x0a01_0002);
    h.add_arp_entry(from, Mac::new(701)).unwrap();
    let ip = IP::new_byte(from, IpAddr::new(OWN_IP), vec![5, 6]);
    let frame = EthernetFrame::new(Mac::new(OWN_MAC), Mac::new(701), 0x0800, ip.encode());
    for b in EthernetFrame::encode(&frame) {
        h.push_recv(Port::new(0), b);
    }
    h.update(&UpdateContext { t: 8 }).unwrap();
    assert_eq!(h.get_rlog().len(), 1);
    assert_eq!(h.get_slog().len(), 1);
    assert_eq!(h.get_slog()[0].t, 8);
    assert_eq!(
        h.get_slog()[0].p,
        NetworkProtocol::IP(IP::new_byte(IpAddr::new(OWN_IP), from, vec![5, 6]))
    );
    assert_eq!(h.get_ip_addr(Port::new(0)), Some(IpAddr::new(OWN_IP)));
    assert_eq!(h.get_arp_table().len(), 1);
    let quiet = IpHost::build_consumer(Mac::new(1), "q", IpAddr::new(1), SubnetMask::new(24));
    assert_eq!(quiet.get_rlog().len(), 0);
}

#[test]
fn ip_host_sends_every_entry_of_its_schedule_that_is_due() {
    let mut h = IpHost::build_echo(Mac::new(OWN_MAC), "h", IpAddr::new(OWN_IP), SubnetMask::new(24));
    let to = IpAddr::new(0x0a01_0002);
    h.add_arp_entry(to, Mac::new(701)).unwrap();
    h.add_schedule(2, NetworkProtocol::IP(IP::new_byte(IpAddr::new(OWN_IP), to, vec![1])));
    h.add_schedule(1, NetworkProtocol::IP(IP::new_byte(IpAddr::new(OWN_IP), to, vec![2])));
    h.add_schedule(2, NetworkProtocol::IP(IP::new_byte(IpAddr::new(OWN_IP), to, vec![3])));
    h.update(&UpdateContext { t: 2 }).unwrap();
    let sent: Vec<IpPayload> = h
        .get_slog()
        .iter()
        .map(|l| match &l.p {
            NetworkProtocol::IP(ip) => ip.payload.clone(),
            _ => panic!("no datagram"),
        })
        .collect();
    assert_eq!(sent, vec![IpPayload::Bytes(vec![1]), IpPayload::Bytes(vec![3])]);
}

#[test]
fn router_stops_on_bytes_addressed_to_it() {
    let mut r = Router::build(
        Mac::new(OWN_MAC),
        "r",
        vec![IpAddr::new(0x0a01_0003), IpAddr::new(0x0a02_0001)],
        SubnetMask::new(24),
    );
    r.add_arp_entry(IpAddr::new(0x0a01_0001), Mac::new(761)).unwrap();
    r.add_route_entry(NetworkPart { value: 0x0a03_0000, prefix: 24 }, IpAddr::new(0x0a02_0002)).unwrap();
    assert_eq!(r.get_ip_addr(Port::new(1)), Some(IpAddr::new(0x0a02_0001)));
    assert_eq!(r.get_arp_table().len(), 1);
    let ip = IP::new_byte(IpAddr::new(0x0a01_0001), IpAddr::new(0x0a01_0003), vec![5]);
    let frame = EthernetFrame::new(Mac::new(OWN_MAC), Mac::new(761), 0x0800, ip.encode());
    for b in EthernetFrame::encode(&frame) {
        r.push_recv(Port::new(0), b);
    }
    assert!(matches!(r.update(&UpdateContext { t: 0 }), Err(Error::InvalidBytes { .. })));
    assert_eq!(r.get_rlog().len(), 1);
    assert_eq!(r.get_slog().len(), 0);
}

#[test]
fn hosts_and_routers_offer_the_ip_layer_of_their_device() {
    let ctx = UpdateContext { t: 1 };
    let mut h = IpHost::build_echo(Mac::new(OWN_MAC), "h", IpAddr::new(OWN_IP), SubnetMask::new(24));
    let peer = IpAddr::new(0x0a01_0002);
    IpDevice::add_arp_entry(&mut h, peer, Mac::new(701)).unwrap();
    assert_eq!(IpDevice::get_arp_table(&h), &vec![(peer, Mac::new(701))]);
    assert_eq!(IpDevice::get_ip_addr(&h, Port::new(0)), Some(IpAddr::new(OWN_IP)));
    let p = NetworkProtocol::IP(IP::new_byte(IpAddr::new(OWN_IP), peer, vec![1]));
    IpDevice::send(&mut h, p.clone(), &ctx).unwrap();
    assert_eq!(h.get_slog()[0].p, p);
    let req = ARP::new_request(Mac::new(701), peer, IpAddr::new(OWN_IP));
    assert_eq!(
        IpDevice::base_handle_arp(&mut h, &req).unwrap(),
        Some(NetworkProtocol::ARP(req.reply(Mac::new(OWN_MAC))))
    );
    let frame = EthernetFrame::new(mac_broadcast(), Mac::new(701), 0x0806, req.encode());
    for b in EthernetFrame::encode(&frame) {
        h.push_recv(Port::new(0), b);
    }
    assert_eq!(IpDevice::recv(&mut h, &ctx).unwrap(), Some(NetworkProtocol::ARP(req)));
    assert_eq!(IpDevice::get_rlog(&h).len(), 1);

    let mut r = Router::build(Mac::new(1), "r", vec![IpAddr::new(OWN_IP)], SubnetMask::new(24));
    let far = NetworkPart { value: 0x0a03_0000, prefix: 24 };
    IpDevice::add_route_entry(&mut r, far, peer).unwrap();
    IpDevice::add_arp_entry(&mut r, peer, Mac::new(701)).unwrap();
    let through = NetworkProtocol::IP(IP::new_byte(peer, IpAddr::new(0x0a03_0009), vec![1]));
    IpDevice::send(&mut r, through.clone(), &ctx).unwrap();
    assert_eq!(r.get_slog()[0].p, through);
}
