use netsim::linkl::ethernet_switch::EthernetSwitch;
use netsim::physl::byte_host::{ByteHost, ByteLog};
use netsim::physl::device::Device;
use netsim::physl::network::{Connection, Network};
use netsim::physl::node::Node;
use netsim::physl::repeater::Repeater;
use netsim::types::{Error, Mac, Port};

fn two_hosts() -> Network {
    let a = ByteHost::new(Mac::new(1), "a", vec![ByteLog::new(0, Port::new(0), 0x11)]);
    let b = ByteHost::new(Mac::new(2), "b", vec![]);
    Network::new(vec![Node::ByteHost(a), Node::ByteHost(b)], vec![])
}

fn received(nw: &Network, mac: u64) -> Vec<ByteLog> {
    nw.get_device(Mac::new(mac)).unwrap().as_byte_host().unwrap().get_rlogs().clone()
}

#[test]
fn connect_refuses_an_unknown_device() {
    let mut nw = two_hosts();
    match nw.connect(Mac::new(9), Port::new(0), Mac::new(2), Port::new(0)) {
        Err(Error::DeviceNotFound { mac }) => assert_eq!(mac, Mac::new(9)),
        other => panic!("unexpected {:?}", other),
    }
}

#[test]
fn connect_refuses_a_port_that_the_device_lacks() {
    let mut nw = two_hosts();
    match nw.connect(Mac::new(1), Port::new(1), Mac::new(2), Port::new(0)) {
        Err(Error::NetworkConnectFailed { mac0, mac1, msg }) => {
            assert_eq!(mac0, Mac::new(1));
            assert_eq!(mac1, Mac::new(2));
            assert_eq!(msg, "port exceeds the number of ports");
        }
        other => panic!("unexpected {:?}", other),
    }
}

#[test]
fn connect_refuses_a_second_link_from_a_port() {
    let mut nw = two_hosts();
    nw.connect(Mac::new(1), Port::new(0), Mac::new(2), Port::new(0)).unwrap();
    match nw.connect(Mac::new(1), Port::new(0), Mac::new(2), Port::new(0)) {
        Err(Error::NetworkConnectFailed { mac0, mac1, msg }) => {
            assert_eq!(mac0, Mac::new(1));
            assert_eq!(mac1, Mac::new(2));
            assert_eq!(msg, "port already connected");
        }
        other => panic!("unexpected {:?}", other),
    }
}

#[test]
fn connect_refuses_a_link_of_a_device_to_itself() {
    let mut nw = two_hosts();
    match nw.connect(Mac::new(1), Port::new(0), Mac::new(1), Port::new(0)) {
        Err(Error::NetworkConnectFailed { mac0, mac1, msg }) => {
            assert_eq!(mac0, Mac::new(1));
            assert_eq!(mac1, Mac::new(1));
            assert_eq!(msg, "same mac address");
        }
        other => panic!("unexpected {:?}", other),
    }
    assert!(nw.connect_both(Mac::new(1), Port::new(0), Mac::new(1), Port::new(0)).is_err());
}

#[test]
fn connect_both_installs_both_directions() {
    let mut nw = two_hosts();
    nw.connect_both(Mac::new(1), Port::new(0), Mac::new(2), Port::new(0)).unwrap();
    assert_eq!(nw.find_connection(Mac::new(1), Port::new(0)).unwrap(), (Mac::new(2), Port::new(0)));
    assert_eq!(nw.find_connection(Mac::new(2), Port::new(0)).unwrap(), (Mac::new(1), Port::new(0)));
    assert_eq!(nw.len(), 2);
}

#[test]
fn connect_both_leaves_the_network_unchanged_if_one_half_is_refused() {
    let mut nw = two_hosts();
    // the first half is fine, the second starts at a port that the host lacks
    assert!(nw.connect_both(Mac::new(1), Port::new(0), Mac::new(2), Port::new(5)).is_err());
    assert!(matches!(
        nw.find_connection(Mac::new(1), Port::new(0)),
        Err(Error::ConnectionNotFound { .. })
    ));
    nw.connect_both(Mac::new(1), Port::new(0), Mac::new(2), Port::new(0)).unwrap();
}

#[test]
fn a_byte_takes_one_tick_for_each_hop() {
    let mut nw = two_hosts();
    nw.connect_both(Mac::new(1), Port::new(0), Mac::new(2), Port::new(0)).unwrap();
    nw.run(1).unwrap();
    assert_eq!(received(&nw, 2), vec![]);
    nw.update(1).unwrap();
    assert_eq!(received(&nw, 2), vec![ByteLog::new(1, Port::new(0), 0x11)]);
}

#[test]
fn run_fails_on_a_byte_without_a_link() {
    let mut nw = two_hosts();
    match nw.run(5) {
        Err(Error::ConnectionNotFound { mac, port }) => {
            assert_eq!(mac, Mac::new(1));
            assert_eq!(port, Port::new(0));
        }
        other => panic!("unexpected {:?}", other),
    }
}

#[test]
fn run_fails_on_a_link_to_an_unknown_device() {
    let mut nw = two_hosts();
    nw.connect(Mac::new(1), Port::new(0), Mac::new(9), Port::new(0)).unwrap();
    match nw.run(5) {
        Err(Error::DeviceNotFound { mac }) => assert_eq!(mac, Mac::new(9)),
        other => panic!("unexpected {:?}", other),
    }
}

#[test]
fn run_fails_on_a_link_to_a_port_that_the_far_device_lacks() {
    let mut nw = two_hosts();
    nw.connect(Mac::new(1), Port::new(0), Mac::new(2), Port::new(3)).unwrap();
    match nw.run(5) {
        Err(Error::ConnectionNotFound { mac, port }) => {
            assert_eq!(mac, Mac::new(2));
            assert_eq!(port, Port::new(3));
        }
        other => panic!("unexpected {:?}", other),
    }
}

#[test]
fn network_keeps_the_links_it_is_made_with() {
    let a = ByteHost::new(Mac::new(1), "a", vec![ByteLog::new(0, Port::new(0), 0x11)]);
    let b = ByteHost::new(Mac::new(2), "b", vec![]);
    let link = Connection { mac0: Mac::new(1), port0: Port::new(0), mac1: Mac::new(2), port1: Port::new(0) };
    let mut nw = Network::new(vec![Node::ByteHost(a), Node::ByteHost(b)], vec![link]);
    nw.run(2).unwrap();
    assert_eq!(received(&nw, 2), vec![ByteLog::new(1, Port::new(0), 0x11)]);
}

#[test]
fn get_device_finds_the_first_device_with_the_address() {
    let r = Repeater::new(Mac::new(5), "first");
    let s = EthernetSwitch::build_switch(Mac::new(5), "second", 4);
    let nw = Network::new(vec![Node::Repeater(r), Node::EthernetSwitch(s)], vec![]);
    let d = nw.get_device(Mac::new(5)).unwrap();
    assert_eq!(d.get_name(), "first");
    assert_eq!(d.get_num_ports(), 2);
    assert_eq!(d.get_mac(), Mac::new(5));
    assert!(d.as_byte_host().is_none());
    assert!(d.as_ethernet_switch().is_none());
    assert!(matches!(nw.get_device(Mac::new(6)), Err(Error::DeviceNotFound { .. })));
}

#[test]
fn queued_ports_stay_below_the_number_of_ports() {
    // a repeater between two hosts: whatever it queues is for port 0 or 1,
    // and it puts one byte on the wire per tick, whatever the port
    let a = ByteHost::new(
        Mac::new(1),
        "a",
        vec![ByteLog::new(0, Port::new(0), 1), ByteLog::new(1, Port::new(0), 2)],
    );
    let b = ByteHost::new(Mac::new(2), "b", vec![ByteLog::new(0, Port::new(0), 3)]);
    let r = Repeater::new(Mac::new(3), "r");
    let mut nw = Network::new(vec![Node::ByteHost(a), Node::ByteHost(b), Node::Repeater(r)], vec![]);
    nw.connect_both(Mac::new(3), Port::new(0), Mac::new(1), Port::new(0)).unwrap();
    nw.connect_both(Mac::new(3), Port::new(1), Mac::new(2), Port::new(0)).unwrap();
    nw.run(6).unwrap();
    for log in received(&nw, 1).iter().chain(received(&nw, 2).iter()) {
        assert!(log.port.value < 1);
    }
    assert_eq!(
        received(&nw, 2),
        vec![ByteLog::new(2, Port::new(0), 1), ByteLog::new(4, Port::new(0), 2)]
    );
    assert_eq!(received(&nw, 1), vec![ByteLog::new(3, Port::new(0), 3)]);
}

#[test]
fn connect_all_installs_the_links_in_order_and_stops_at_a_refusal() {
    let mut nw = two_hosts();
    let good = netsim::physl::link(1, 0, 2, 0);
    assert_eq!(
        good,
        Connection { mac0: Mac::new(1), port0: Port::new(0), mac1: Mac::new(2), port1: Port::new(0) }
    );
    nw.connect_all(&vec![good]).unwrap();
    assert_eq!(nw.find_connection(Mac::new(2), Port::new(0)).unwrap(), (Mac::new(1), Port::new(0)));
    let mut nw = two_hosts();
    let bad = netsim::physl::link(1, 0, 9, 0);
    assert!(matches!(nw.connect_all(&vec![bad, good]), Err(Error::DeviceNotFound { .. })));
    assert!(nw.find_connection(Mac::new(2), Port::new(0)).is_err());
}

#[test]
fn registry_gives_a_device_by_its_kind() {
    let r = Repeater::new(Mac::new(5), "r");
    let s = EthernetSwitch::build_switch(Mac::new(6), "s", 4);
    let h = ByteHost::new(Mac::new(7), "h", vec![]);
    let nw = Network::new(
        vec![Node::Repeater(r), Node::EthernetSwitch(s), Node::ByteHost(h)],
        vec![],
    );
    assert_eq!(nw.get_byte_host(Mac::new(7)).unwrap().get_name(), "h");
    assert_eq!(nw.get_ethernet_switch(Mac::new(6)).unwrap().get_num_ports(), 4);
    assert!(matches!(nw.get_byte_host(Mac::new(6)), Err(Error::DeviceNotFound { .. })));
    assert!(matches!(nw.get_ethernet_host(Mac::new(6)), Err(Error::DeviceNotFound { .. })));
    assert!(matches!(nw.get_ip_host(Mac::new(5)), Err(Error::DeviceNotFound { .. })));
    assert!(matches!(nw.get_router(Mac::new(5)), Err(Error::DeviceNotFound { .. })));
    assert!(matches!(nw.get_tcp_host(Mac::new(9)), Err(Error::DeviceNotFound { .. })));
}
