use onestep::link::{
    get_interface, interface_request_name, link_binding, one_step_request, HardwareType,
    InterfaceEntry, InterfaceLookup, RxTimestampFilter, TxTimestampMode,
};
use onestep::packet::{build_sync_frame, ptp_peer_multicast, MacAddress};
use onestep::run::{Action, Command, Event, RunError, Session, Stage};

fn entries() -> Vec<InterfaceEntry> {
    vec![
        InterfaceEntry { name: b"lo".to_vec(), mac: None },
        InterfaceEntry { name: b"eth0".to_vec(), mac: Some(MacAddress([2, 0, 0, 0, 0, 1])) },
        InterfaceEntry { name: b"eth0".to_vec(), mac: Some(MacAddress([9; 6])) },
    ]
}

#[test]
fn lookup_finds_first_interface_by_name() {
    let list = entries();
    assert_eq!(
        get_interface(&list, &b"eth0".to_vec()),
        InterfaceLookup::Found(MacAddress([2, 0, 0, 0, 0, 1]))
    );
    assert_eq!(get_interface(&list, &b"lo".to_vec()), InterfaceLookup::NoHardwareAddress);
    assert_eq!(get_interface(&list, &b"eth".to_vec()), InterfaceLookup::Missing);
    assert_eq!(get_interface(&Vec::new(), &b"eth0".to_vec()), InterfaceLookup::Missing);
}

#[test]
fn request_name_is_truncated_and_padded() {
    assert_eq!(
        interface_request_name(&b"eth0".to_vec()),
        vec![b'e', b't', b'h', b'0', 0, 0, 0, 0, 0, 0, 0, 0, 0, 0, 0, 0]
    );
    let long = b"abcdefghijklmnopqrst".to_vec();
    let r = interface_request_name(&long);
    assert_eq!(r.len(), 16);
    assert_eq!(&r[..15], &long[..15]);
    assert_eq!(r[15], 0);
}

#[test]
fn binding_names_interface_and_ptp_ethertype() {
    let b = link_binding(7);
    assert_eq!(b.ifindex, 7);
    assert_eq!(b.protocol, 0x88f7);
    assert_eq!(b.hardware_address_len, 6);
    assert_eq!(b.hardware_type, HardwareType::Ieee802);
}

#[test]
fn one_step_request_fields() {
    let r = one_step_request(&b"eth1".to_vec());
    assert_eq!(&r.interface_name[..5], b"eth1\0");
    assert_eq!(r.tx_type, TxTimestampMode::OneStepSync);
    assert_eq!(r.rx_filter, RxTimestampFilter::PtpV2L2Event);
    assert!(r.raw_hardware && r.rx_hardware && r.tx_hardware);
}

fn session(command: Command) -> Session {
    Session::new(command, b"eth0".to_vec(), 23, -3, 0)
}

fn step(s: &mut Session, e: Event) -> Action {
    assert!(s.accepts(&e));
    s.step(e)
}

#[test]
fn missing_interface_ends_before_socket() {
    let mut s = session(Command::Tx);
    assert_eq!(step(&mut s, Event::Interface(InterfaceLookup::Missing)), Action::Fail(RunError::InterfaceNotFound));
    assert_eq!(s.stage, Stage::Done);

    let mut s = session(Command::Tx);
    let mac = MacAddress([2, 0, 0, 0, 0, 1]);
    assert_eq!(step(&mut s, Event::Interface(InterfaceLookup::Found(mac))), Action::ResolveIndex);
    assert_eq!(step(&mut s, Event::Index(None)), Action::Fail(RunError::InterfaceNotFound));
    assert_eq!(s.stage, Stage::Done);
    assert!(!s.accepts(&Event::SocketCreated(true)));
}

#[test]
fn missing_hardware_address_fails() {
    let mut s = session(Command::Tx);
    assert_eq!(
        step(&mut s, Event::Interface(InterfaceLookup::NoHardwareAddress)),
        Action::Fail(RunError::MissingHardwareAddress)
    );
}

fn run_to_configure(s: &mut Session) {
    let mac = MacAddress([2, 0, 0, 0, 0, 1]);
    assert_eq!(step(s, Event::Interface(InterfaceLookup::Found(mac))), Action::ResolveIndex);
    assert_eq!(s.frame, build_sync_frame(mac, ptp_peer_multicast(), 23, -3, 0));
    assert_eq!(step(s, Event::Index(Some(4))), Action::CreateSocket);
    assert_eq!(step(s, Event::SocketCreated(true)), Action::Bind(link_binding(4)));
    assert_eq!(step(s, Event::Bound(true)), Action::ConfigureTimestamping);
}

#[test]
fn timestamping_failure_still_sends() {
    let mut s = session(Command::Tx);
    run_to_configure(&mut s);
    assert_eq!(step(&mut s, Event::TimestampingConfigured(false)), Action::Send);
    assert_eq!(step(&mut s, Event::Sent(true)), Action::Finish);
    assert_eq!(s.stage, Stage::Done);
}

#[test]
fn send_failure_is_reported() {
    let mut s = session(Command::Tx);
    run_to_configure(&mut s);
    assert_eq!(step(&mut s, Event::TimestampingConfigured(true)), Action::Send);
    assert_eq!(step(&mut s, Event::Sent(false)), Action::Fail(RunError::SendFailed));
}

#[test]
fn receive_is_not_supported() {
    let mut s = session(Command::Rx);
    run_to_configure(&mut s);
    assert_eq!(step(&mut s, Event::TimestampingConfigured(true)), Action::Fail(RunError::NotSupported));
}

#[test]
fn socket_and_bind_failures() {
    let mut s = session(Command::Tx);
    step(&mut s, Event::Interface(InterfaceLookup::Found(MacAddress([1; 6]))));
    step(&mut s, Event::Index(Some(1)));
    assert_eq!(step(&mut s, Event::SocketCreated(false)), Action::Fail(RunError::SocketCreationFailed));

    let mut s = session(Command::Tx);
    step(&mut s, Event::Interface(InterfaceLookup::Found(MacAddress([1; 6]))));
    step(&mut s, Event::Index(Some(1)));
    step(&mut s, Event::SocketCreated(true));
    assert_eq!(step(&mut s, Event::Bound(false)), Action::Fail(RunError::BindFailed));
}

#[test]
fn timestamping_request_uses_session_interface() {
    let s = session(Command::Tx);
    assert_eq!(&s.timestamping_request().interface_name[..5], b"eth0\0");
}
