use netsim::device::{Device, DeviceErrorKind, Host, Hub, Res};
use netsim::network::{Network, NetworkErrorKind};
use std::collections::VecDeque;

#[test]
fn test_device() -> Res<()> {
    let mut host_a = Device::new_host(0, "HostA");
    let mut host_b = Device::new_host(0, "HostB");
    let mut hub = Device::new_hub(1, "Hub", 2, 2);
    host_a.push_to_send(0, &[1, 2, 3, 4])?;
    for t in 0..4 {
        let x = host_a.send(0)?;
        let x = x.unwrap();
        println!("t:{}, Sent: {}", t, x);
        hub.receive(0, x)?;
        hub.update()?;
    }
    for t in 0..4 {
        let x = hub.send(1)?;
        let x = x.unwrap();
        host_b.receive(0, x)?;
        println!("t:{}, Received: {}", t, x);
        assert_eq!(t + 1, x);
    }
    Ok(())
}

#[test]
fn test_device_2() -> Res<()> {
    let mut host_a = Device::new_host(0, "HostA");
    let mut host_b = Device::new_host(0, "HostB");
    let mut hub = Device::new_hub(1, "Hub", 2, 2);
    host_a.push_to_send(0, &[1, 2, 3, 4])?;
    for t in 0..6 {
        host_a.update()?;
        host_b.update()?;
        hub.update()?;

        if let Some(a) = host_a.send(0)? {
            hub.receive(0, a)?;
        }
        if let Some(b) = host_b.send(0)? {
            hub.receive(1, b)?;
        }
        if let Some(c) = hub.send(0)? {
            host_a.receive(0, c)?;
        }
        if let Some(d) = hub.send(1)? {
            println!("t: {}, host b received: {}", t, d);
            host_b.receive(0, d)?;
        }
    }
    assert_eq!(0, host_a.get_send_buf(0)?.len());
    assert_eq!(0, hub.get_receive_buf(0)?.len());
    assert_eq!(0, hub.get_receive_buf(1)?.len());
    assert_eq!(4, host_b.get_receive_buf(0)?.len());

    Ok(())
}

#[test]
fn test_hub_nw() {
    let rbuf = netsim::network::run_1hub_2host().unwrap();
    assert_eq!(rbuf, b"Hell");
    netsim::network::run_main().unwrap();
}

#[test]
fn hub_keeps_bytes_until_the_store_is_full() {
    let mut hub = Device::new_hub(1, "Hub", 3, 2);
    hub.receive(0, 7).unwrap();
    hub.update().unwrap();
    assert_eq!(hub.get_receive_buf(0).unwrap().len(), 1);
    assert_eq!(hub.get_send_buf(1).unwrap().len(), 0);
    hub.receive(0, 8).unwrap();
    hub.update().unwrap();
    assert_eq!(hub.get_receive_buf(0).unwrap().len(), 0);
    assert_eq!(hub.get_send_buf(0).unwrap().len(), 0);
    assert_eq!(hub.get_send_buf(1).unwrap(), &VecDeque::from(vec![7u8, 8u8]));
    assert_eq!(hub.get_send_buf(2).unwrap(), &VecDeque::from(vec![7u8, 8u8]));
}

#[test]
fn host_keeps_what_it_receives() {
    let mut host = Device::new_host(5, "Host");
    host.receive(0, 1).unwrap();
    host.receive(0, 2).unwrap();
    host.update().unwrap();
    assert_eq!(host.get_receive_buf(0).unwrap(), &VecDeque::from(vec![1u8, 2u8]));
    assert_eq!(host.send(0).unwrap(), None);
}

#[test]
fn device_rejects_a_port_it_does_not_have() {
    let mut host = Device::new_host(5, "Host");
    let e = host.receive(1, 9).unwrap_err();
    assert_eq!(e.mac, 5);
    assert_eq!(e.name, "Host");
    assert_eq!(e.kind, DeviceErrorKind::InvalidPort { port: 1 });
    assert!(host.send(3).is_err());
    assert!(host.push_to_send(1, &[1]).is_err());
    assert!(host.get_receive_buf(1).is_err());
    assert_eq!(host.get_mac(), 5);
}

#[test]
fn hub_network_reports_an_unknown_device() {
    let mut nw = Network::new();
    nw.add_device(Host::new(1, "A"));
    let e = nw.connect(1, 0, 2, 0).unwrap_err();
    assert!(matches!(e.kind, NetworkErrorKind::DeviceNotFound { mac: 2 }));
    let e = nw.get_receive_buf(9, 0).unwrap_err();
    assert!(matches!(e.kind, NetworkErrorKind::DeviceNotFound { mac: 9 }));
}

#[test]
fn hub_network_reports_a_medium_on_a_missing_port() {
    let mut nw = Network::new();
    nw.add_device(Host::new(1, "A"));
    nw.add_device(Host::new(2, "B"));
    nw.connect(1, 0, 2, 4).unwrap();
    let e = nw.start(1).unwrap_err();
    match e.kind {
        NetworkErrorKind::DeviceError(d) => {
            assert_eq!(d.mac, 2);
            assert_eq!(d.kind, DeviceErrorKind::InvalidPort { port: 4 });
        }
        _ => panic!("expected a device error"),
    }
}
