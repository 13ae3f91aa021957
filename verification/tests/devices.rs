use netsim::linkl::ethernet_device::{BaseEthernetDevice, EthernetDevice};
use netsim::linkl::ethernet_frame::EthernetFrame;
use netsim::linkl::ethernet_host::{EthernetHost, FrameHandler};
use netsim::linkl::ethernet_switch::EthernetSwitch;
use netsim::physl::byte_host::{ByteHost, ByteLog};
use netsim::physl::device::{BaseDevice, Device};
use netsim::physl::repeater::Repeater;
use netsim::types::{Error, Mac, Port, UpdateContext};

fn drain<D: Device>(d: &mut D) -> Vec<(Port, u8)> {
    let mut out = vec![];
    while let Some(x) = d.pop_send() {
        out.push(x);
    }
    out
}

fn drain_framer(d: &mut BaseEthernetDevice) -> Vec<(Port, u8)> {
    let mut out = vec![];
    while let Some(x) = d.pop_send() {
        out.push(x);
    }
    out
}

fn on_port(port: u32, bytes: &[u8]) -> Vec<(Port, u8)> {
    bytes.iter().map(|b| (Port::new(port), *b)).collect()
}

fn feed(d: &mut BaseEthernetDevice, port: u32, bytes: &[u8]) {
    for b in bytes {
        d.push_recv(Port::new(port), *b);
    }
}

#[test]
fn base_device_queues_are_first_in_first_out() {
    let mut d = BaseDevice::new(Mac::new(7), "dev", 2);
    assert_eq!(d.get_mac(), Mac::new(7));
    assert_eq!(d.get_name(), "dev");
    assert_eq!(d.get_num_ports(), 2);
    assert_eq!(d.recv(), None);
    assert_eq!(d.pop_send(), None);
    d.push_recv(Port::new(0), 1);
    d.push_recv(Port::new(1), 2);
    assert_eq!(d.recv(), Some((Port::new(0), 1)));
    assert_eq!(d.recv(), Some((Port::new(1), 2)));
    assert_eq!(d.recv(), None);
    d.send((Port::new(1), 3));
    d.send((Port::new(0), 4));
    assert_eq!(d.pop_send(), Some((Port::new(1), 3)));
    assert_eq!(d.pop_send(), Some((Port::new(0), 4)));
    assert_eq!(d.pop_send(), None);
}

#[test]
fn repeater_crosses_the_ports() {
    let mut r = Repeater::new(Mac::new(1), "rep");
    assert_eq!(r.get_num_ports(), 2);
    assert_eq!(r.get_mac(), Mac::new(1));
    assert_eq!(r.get_name(), "rep");
    r.push_recv(Port::new(0), 10);
    r.push_recv(Port::new(1), 11);
    r.push_recv(Port::new(0), 12);
    r.update(&UpdateContext { t: 0 }).unwrap();
    assert_eq!(
        drain(&mut r),
        vec![(Port::new(1), 10), (Port::new(0), 11), (Port::new(1), 12)]
    );
    r.update(&UpdateContext { t: 1 }).unwrap();
    assert_eq!(drain(&mut r), vec![]);
}

#[test]
fn byte_host_logs_and_sends_by_schedule() {
    let schedules = vec![
        ByteLog::new(1, Port::new(0), 0x0A),
        ByteLog::new(0, Port::new(0), 0x0B),
        ByteLog::new(1, Port::new(0), 0x0C),
    ];
    let mut h = ByteHost::new(Mac::new(3), "host", schedules);
    assert_eq!(h.get_num_ports(), 1);
    h.push_recv(Port::new(0), 0x55);
    h.update(&UpdateContext { t: 0 }).unwrap();
    assert_eq!(h.get_rlogs(), &vec![ByteLog::new(0, Port::new(0), 0x55)]);
    assert_eq!(drain(&mut h), vec![(Port::new(0), 0x0B)]);
    h.push_recv(Port::new(0), 0x56);
    h.update(&UpdateContext { t: 1 }).unwrap();
    assert_eq!(
        h.get_rlogs(),
        &vec![ByteLog::new(0, Port::new(0), 0x55), ByteLog::new(1, Port::new(0), 0x56)]
    );
    assert_eq!(drain(&mut h), vec![(Port::new(0), 0x0A), (Port::new(0), 0x0C)]);
    h.update(&UpdateContext { t: 2 }).unwrap();
    assert_eq!(drain(&mut h), vec![]);
}

#[test]
fn byte_host_has_no_link_for_a_port_it_lacks() {
    let schedules = vec![ByteLog::new(0, Port::new(0), 1), ByteLog::new(1, Port::new(2), 2)];
    let mut h = ByteHost::new(Mac::new(3), "host", schedules);
    h.update(&UpdateContext { t: 0 }).unwrap();
    match h.update(&UpdateContext { t: 1 }) {
        Err(Error::ConnectionNotFound { mac, port }) => {
            assert_eq!(mac, Mac::new(3));
            assert_eq!(port, Port::new(2));
        }
        other => panic!("unexpected {:?}", other),
    }
    // no byte for the missing port was queued
    assert_eq!(drain(&mut h), vec![(Port::new(0), 1)]);
}

#[test]
fn framer_gathers_the_bytes_of_each_port() {
    let ctx = UpdateContext { t: 5 };
    let mut d = BaseEthernetDevice::new(Mac::new(100), "sw", 2);
    let f0 = EthernetFrame::new(Mac::new(1), Mac::new(2), 2, vec![7, 8]);
    let f1 = EthernetFrame::new(Mac::new(3), Mac::new(4), 1, vec![9]);
    let b0 = EthernetFrame::encode(&f0);
    let b1 = EthernetFrame::encode(&f1);
    // the bytes of the two ports arrive interleaved
    for i in 0..b0.len().max(b1.len()) {
        if i < b0.len() {
            d.push_recv(Port::new(0), b0[i]);
        }
        if i < b1.len() {
            d.push_recv(Port::new(1), b1[i]);
        }
    }
    assert_eq!(d.pop_rbuf(&ctx), Some(f1.clone()));
    assert_eq!(d.pop_rbuf(&ctx), Some(f0.clone()));
    assert_eq!(d.pop_rbuf(&ctx), None);
    assert_eq!(d.get_rlog().len(), 2);
    assert_eq!(d.get_rlog()[0].t, 5);
    assert_eq!(d.get_rlog()[0].frame, f1);
    assert_eq!(d.get_rlog()[1].frame, f0);
}

#[test]
fn framer_keeps_an_unfinished_frame() {
    let mut d = BaseEthernetDevice::new(Mac::new(100), "sw", 1);
    let f = EthernetFrame::new(Mac::new(1), Mac::new(2), 3, vec![7, 8, 9]);
    let bytes = EthernetFrame::encode(&f);
    feed(&mut d, 0, &bytes[..24]);
    assert_eq!(d.pop_rbuf(&UpdateContext { t: 0 }), None);
    feed(&mut d, 0, &bytes[24..]);
    assert_eq!(d.pop_rbuf(&UpdateContext { t: 1 }), Some(f));
    assert_eq!(d.get_rlog()[0].t, 1);
}

#[test]
fn framer_throws_away_bytes_that_start_no_frame() {
    let ctx = UpdateContext { t: 0 };
    let mut d = BaseEthernetDevice::new(Mac::new(100), "sw", 1);
    // 22 bytes without a preamble are thrown away when the last arrives
    feed(&mut d, 0, &[0u8; 22]);
    assert_eq!(d.pop_rbuf(&ctx), None);
    let f = EthernetFrame::new(Mac::new(1), Mac::new(2), 1, vec![7]);
    feed(&mut d, 0, &EthernetFrame::encode(&f));
    assert_eq!(d.pop_rbuf(&ctx), Some(f));
}

#[test]
fn framer_floods_a_frame_of_unknown_stations() {
    let ctx = UpdateContext { t: 2 };
    let mut d = BaseEthernetDevice::new(Mac::new(100), "sw", 3);
    let f = EthernetFrame::new(Mac::new(1), Mac::new(2), 1, vec![7]);
    let bytes = EthernetFrame::encode(&f);
    assert_eq!(d.egress(&f), vec![Port::new(0), Port::new(1), Port::new(2)]);
    d.push_sbuf(f.clone(), &ctx);
    let mut want = on_port(0, &bytes);
    want.extend(on_port(1, &bytes));
    want.extend(on_port(2, &bytes));
    assert_eq!(drain_framer(&mut d), want);
    assert_eq!(d.get_slog().len(), 1);
    assert_eq!(d.get_slog()[0].t, 2);
    assert_eq!(d.get_slog()[0].frame, f);
}

#[test]
fn framer_floods_to_all_ports_but_that_of_the_sender() {
    let ctx = UpdateContext { t: 0 };
    let mut d = BaseEthernetDevice::new(Mac::new(100), "sw", 3);
    d.add_forwarding_table(Mac::new(2), Port::new(1));
    let f = EthernetFrame::new(Mac::new(1), Mac::new(2), 1, vec![7]);
    assert_eq!(d.egress(&f), vec![Port::new(0), Port::new(2)]);
    let bytes = EthernetFrame::encode(&f);
    d.push_sbuf(f, &ctx);
    let mut want = on_port(0, &bytes);
    want.extend(on_port(2, &bytes));
    assert_eq!(drain_framer(&mut d), want);
}

#[test]
fn framer_sends_to_the_port_of_a_known_destination() {
    let ctx = UpdateContext { t: 0 };
    let mut d = BaseEthernetDevice::new(Mac::new(100), "sw", 3);
    d.add_forwarding_table(Mac::new(1), Port::new(2));
    d.add_forwarding_table(Mac::new(2), Port::new(1));
    let f = EthernetFrame::new(Mac::new(1), Mac::new(2), 1, vec![7]);
    assert_eq!(d.egress(&f), vec![Port::new(2)]);
    let bytes = EthernetFrame::encode(&f);
    d.push_sbuf(f, &ctx);
    assert_eq!(drain_framer(&mut d), on_port(2, &bytes));
}

#[test]
fn framer_learns_the_port_of_a_sender_and_the_newest_entry_wins() {
    let ctx = UpdateContext { t: 0 };
    let mut d = BaseEthernetDevice::new(Mac::new(100), "sw", 3);
    let from_2 = EthernetFrame::new(Mac::new(9), Mac::new(2), 1, vec![7]);
    feed(&mut d, 1, &EthernetFrame::encode(&from_2));
    assert_eq!(d.pop_rbuf(&ctx), Some(from_2.clone()));
    let to_2 = EthernetFrame::new(Mac::new(2), Mac::new(5), 1, vec![8]);
    assert_eq!(d.egress(&to_2), vec![Port::new(1)]);
    // the same sender is seen behind another port
    feed(&mut d, 2, &EthernetFrame::encode(&from_2));
    assert_eq!(d.pop_rbuf(&ctx), Some(from_2));
    assert_eq!(d.egress(&to_2), vec![Port::new(2)]);
    d.add_forwarding_table(Mac::new(2), Port::new(0));
    assert_eq!(d.egress(&to_2), vec![Port::new(0)]);
}

#[test]
fn ethernet_host_echoes_what_is_addressed_to_it() {
    let mut h = EthernetHost::build_echo(Mac::new(24), "b");
    let f = EthernetFrame::new(Mac::new(24), Mac::new(23), 3, vec![11, 12, 13]);
    for b in EthernetFrame::encode(&f) {
        h.push_recv(Port::new(0), b);
    }
    h.update(&UpdateContext { t: 9 }).unwrap();
    let answer = EthernetFrame::new(Mac::new(23), Mac::new(24), 3, vec![11, 12, 13]);
    assert_eq!(drain(&mut h), on_port(0, &EthernetFrame::encode(&answer)));
    assert_eq!(h.get_rlog().len(), 1);
    assert_eq!(h.get_rlog()[0].frame, f);
    assert_eq!(h.get_slog().len(), 1);
    assert_eq!(h.get_slog()[0].frame, answer);
    assert_eq!(h.get_slog()[0].t, 9);
}

#[test]
fn ethernet_host_drops_what_is_for_another_station() {
    let mut h = EthernetHost::build_echo(Mac::new(24), "b");
    let f = EthernetFrame::new(Mac::new(25), Mac::new(23), 1, vec![11]);
    for b in EthernetFrame::encode(&f) {
        h.push_recv(Port::new(0), b);
    }
    h.update(&UpdateContext { t: 0 }).unwrap();
    assert_eq!(drain(&mut h), vec![]);
    assert_eq!(h.get_rlog().len(), 1);
    assert_eq!(h.get_slog().len(), 0);
}

#[test]
fn ethernet_consumer_answers_nothing() {
    let mut h = EthernetHost::build_consumer(Mac::new(24), "b");
    let f = EthernetFrame::new(Mac::new(24), Mac::new(23), 1, vec![11]);
    for b in EthernetFrame::encode(&f) {
        h.push_recv(Port::new(0), b);
    }
    h.update(&UpdateContext { t: 0 }).unwrap();
    assert_eq!(drain(&mut h), vec![]);
    assert_eq!(FrameHandler::Consume.reply(&vec![1]), None);
    assert_eq!(FrameHandler::Echo.reply(&vec![1]), Some(vec![1]));
}

#[test]
fn ethernet_host_sends_the_head_of_its_schedule_when_it_is_due() {
    let mut h = EthernetHost::build_consumer(Mac::new(1), "a");
    let f0 = EthernetFrame::new(Mac::new(2), Mac::new(1), 1, vec![1]);
    let f1 = EthernetFrame::new(Mac::new(2), Mac::new(1), 1, vec![2]);
    h.add_schedule(1, f0.clone());
    h.add_schedule(1, f1.clone());
    h.update(&UpdateContext { t: 0 }).unwrap();
    assert_eq!(drain(&mut h), vec![]);
    h.update(&UpdateContext { t: 1 }).unwrap();
    assert_eq!(drain(&mut h), on_port(0, &EthernetFrame::encode(&f0)));
    // one frame of the schedule leaves per tick, and only at its own tick
    h.update(&UpdateContext { t: 1 }).unwrap();
    assert_eq!(drain(&mut h), on_port(0, &EthernetFrame::encode(&f1)));
    h.update(&UpdateContext { t: 1 }).unwrap();
    assert_eq!(drain(&mut h), vec![]);
}

#[test]
fn switch_passes_every_frame_on() {
    let mut s = EthernetSwitch::build_switch(Mac::new(30), "switch", 3);
    assert_eq!(s.get_num_ports(), 3);
    let f = EthernetFrame::new(Mac::new(2), Mac::new(1), 1, vec![5]);
    let bytes = EthernetFrame::encode(&f);
    for b in &bytes {
        s.push_recv(Port::new(1), *b);
    }
    s.update(&UpdateContext { t: 0 }).unwrap();
    // the sender was learned behind port 1, the destination is unknown
    let mut want = on_port(0, &bytes);
    want.extend(on_port(2, &bytes));
    assert_eq!(drain(&mut s), want);
    assert_eq!(s.get_rlog().len(), 1);
    assert_eq!(s.get_slog().len(), 1);
    // the answer goes to port 1 only
    let back = EthernetFrame::new(Mac::new(1), Mac::new(2), 1, vec![6]);
    let back_bytes = EthernetFrame::encode(&back);
    for b in &back_bytes {
        s.push_recv(Port::new(2), *b);
    }
    s.update(&UpdateContext { t: 1 }).unwrap();
    assert_eq!(drain(&mut s), on_port(1, &back_bytes));
}

#[test]
fn bridge_has_two_ports_and_host_switch_answers_with_the_length_as_type() {
    let b = EthernetSwitch::build_bridge(Mac::new(1), "bridge");
    assert_eq!(b.get_num_ports(), 2);
    let quiet = EthernetSwitch::build_host(Mac::new(1), "quiet");
    assert_eq!(quiet.get_num_ports(), 1);
    let mut h = EthernetSwitch::build_echo_host(Mac::new(24), "echo");
    let mut payload = vec![0x45, 0, 0, 5];
    payload.push(9);
    let f = EthernetFrame::new(Mac::new(24), Mac::new(23), 0x0800, payload.clone());
    for x in EthernetFrame::encode(&f) {
        h.push_recv(Port::new(0), x);
    }
    h.update(&UpdateContext { t: 0 }).unwrap();
    let answer = EthernetFrame::new(Mac::new(23), Mac::new(24), 5, payload);
    assert_eq!(drain(&mut h), on_port(0, &EthernetFrame::encode(&answer)));
}

#[test]
fn hosts_offer_the_link_layer_of_their_framer() {
    let ctx = UpdateContext { t: 6 };
    let mut h = EthernetHost::build_consumer(Mac::new(24), "b");
    let f = EthernetFrame::new(Mac::new(23), Mac::new(24), 1, vec![1]);
    EthernetDevice::push_sbuf(&mut h, f.clone(), &ctx);
    assert_eq!(EthernetDevice::get_slog(&h).len(), 1);
    assert_eq!(drain(&mut h), on_port(0, &EthernetFrame::encode(&f)));
    let g = EthernetFrame::new(Mac::new(24), Mac::new(23), 1, vec![2]);
    for b in EthernetFrame::encode(&g) {
        h.push_recv(Port::new(0), b);
    }
    assert_eq!(EthernetDevice::pop_rbuf(&mut h, &ctx), Some(g.clone()));
    assert_eq!(EthernetDevice::pop_rbuf(&mut h, &ctx), None);
    assert_eq!(EthernetDevice::get_rlog(&h)[0].frame, g);
    let mut s = EthernetSwitch::build_switch(Mac::new(30), "switch", 3);
    EthernetDevice::add_forwarding_table(&mut s, Mac::new(23), Port::new(2));
    EthernetDevice::push_sbuf(&mut s, f.clone(), &ctx);
    assert_eq!(drain(&mut s), on_port(2, &EthernetFrame::encode(&f)));
}
