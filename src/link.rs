use vstd::prelude::*;
use crate::packet::MacAddress;

verus! {

/// One network interface as the system lists it.
#[derive(Debug)]
pub struct InterfaceEntry {
    pub name: Vec<u8>,
    pub mac: Option<MacAddress>,
}

/// What looking an interface up by name found.
#[derive(Clone, Copy, Debug, PartialEq, Eq)]
pub enum InterfaceLookup {
    Missing,
    NoHardwareAddress,
    Found(MacAddress),
}

pub open spec fn lookup_of(mac: Option<MacAddress>) -> InterfaceLookup {
    match mac {
        Some(m) => InterfaceLookup::Found(m),
        None => InterfaceLookup::NoHardwareAddress,
    }
}

/// `k` is the first entry named `name`.
pub open spec fn first_named(entries: Seq<InterfaceEntry>, name: Seq<u8>, k: int) -> bool {
    &&& 0 <= k < entries.len()
    &&& entries[k].name@ == name
    &&& forall|j: int| 0 <= j < k ==> entries[j].name@ != name
}

pub fn bytes_equal(a: &Vec<u8>, b: &Vec<u8>) -> (r: bool)
    ensures
        r == (a@ == b@),
{
    if a.len() != b.len() {
        return false;
    }
    let mut i: usize = 0;
    while i < a.len()
        invariant
            a@.len() == b@.len(),
            i <= a@.len(),
            forall|j: int| 0 <= j < i ==> a@[j] == b@[j],
        decreases a@.len() - i,
    {
        if a[i] != b[i] {
            return false;
        }
        i = i + 1;
    }
    assert(a@ =~= b@);
    true
}

/// Finds the first interface named `ifname` and its hardware address.
pub fn get_interface(interfaces: &Vec<InterfaceEntry>, ifname: &Vec<u8>) -> (r: InterfaceLookup)
    ensures
        r == InterfaceLookup::Missing <==> forall|k: int|
            0 <= k < interfaces@.len() ==> interfaces@[k].name@ != ifname@,
        r != InterfaceLookup::Missing ==> exists|k: int|
            first_named(interfaces@, ifname@, k) && r == lookup_of(interfaces@[k].mac),
{
    let mut i: usize = 0;
    while i < interfaces.len()
        invariant
            i <= interfaces@.len(),
            forall|j: int| 0 <= j < i ==> interfaces@[j].name@ != ifname@,
        decreases interfaces@.len() - i,
    {
        if bytes_equal(&interfaces[i].name, ifname) {
            assert(first_named(interfaces@, ifname@, i as int));
            return match interfaces[i].mac {
                Some(m) => InterfaceLookup::Found(m),
                None => InterfaceLookup::NoHardwareAddress,
            };
        }
        i = i + 1;
    }
    InterfaceLookup::Missing
}

/// The link-layer hardware type that a bound address names.
#[derive(Clone, Copy, Debug, PartialEq, Eq)]
pub enum HardwareType {
    Ieee802,
}

/// The link-layer address that a raw socket is bound to: one interface and
/// one EtherType.
#[derive(Clone, Copy, Debug, PartialEq, Eq)]
pub struct LinkBinding {
    pub ifindex: u32,
    /// The EtherType filter, as a host integer.
    pub protocol: u16,
    pub hardware_address_len: u8,
    pub hardware_type: HardwareType,
}

pub open spec fn link_binding_spec(ifindex: u32) -> LinkBinding {
    LinkBinding {
        ifindex,
        protocol: crate::packet::ETHERTYPE_PTP,
        hardware_address_len: 6,
        hardware_type: HardwareType::Ieee802,
    }
}

/// The address that restricts a socket to PTP traffic on interface `ifindex`.
pub fn link_binding(ifindex: u32) -> (r: LinkBinding)
    ensures
        r == link_binding_spec(ifindex),
{
    LinkBinding {
        ifindex,
        protocol: crate::packet::ETHERTYPE_PTP,
        hardware_address_len: 6,
        hardware_type: HardwareType::Ieee802,
    }
}

/// Size of an interface name field in a driver request, its terminating
/// zero included.
pub const INTERFACE_NAME_SIZE: usize = 16;

/// The interface name field of a driver request: at most 15 bytes of the
/// name, then zeros.
pub open spec fn request_name_spec(name: Seq<u8>) -> Seq<u8> {
    Seq::new(
        INTERFACE_NAME_SIZE as nat,
        |i: int|
            if i < INTERFACE_NAME_SIZE - 1 && i < name.len() {
                name[i]
            } else {
                0u8
            },
    )
}

pub fn interface_request_name(name: &Vec<u8>) -> (r: Vec<u8>)
    ensures
        r@ == request_name_spec(name@),
{
    let mut r: Vec<u8> = Vec::new();
    let mut i: usize = 0;
    while i < INTERFACE_NAME_SIZE
        invariant
            i <= INTERFACE_NAME_SIZE,
            r@ == request_name_spec(name@).take(i as int),
        decreases INTERFACE_NAME_SIZE - i,
    {
        if i < INTERFACE_NAME_SIZE - 1 && i < name.len() {
            r.push(name[i]);
        } else {
            r.push(0);
        }
        i = i + 1;
        assert(r@ =~= request_name_spec(name@).take(i as int));
    }
    assert(r@ =~= request_name_spec(name@));
    r
}

/// How the hardware stamps outgoing frames.
#[derive(Clone, Copy, Debug, PartialEq, Eq)]
pub enum TxTimestampMode {
    Off,
    /// The hardware writes the transmit time into the outgoing Sync itself.
    OneStepSync,
}

/// Which incoming frames the hardware stamps.
#[derive(Clone, Copy, Debug, PartialEq, Eq)]
pub enum RxTimestampFilter {
    Off,
    PtpV2L2Event,
}

/// The driver request and socket option that turn on one-step hardware
/// timestamping.
#[derive(Debug)]
pub struct TimestampingRequest {
    pub interface_name: Vec<u8>,
    pub tx_type: TxTimestampMode,
    pub rx_filter: RxTimestampFilter,
    pub raw_hardware: bool,
    pub rx_hardware: bool,
    pub tx_hardware: bool,
}

pub fn one_step_request(ifname: &Vec<u8>) -> (r: TimestampingRequest)
    ensures
        r.interface_name@ == request_name_spec(ifname@),
        r.tx_type == TxTimestampMode::OneStepSync,
        r.rx_filter == RxTimestampFilter::PtpV2L2Event,
        r.raw_hardware && r.rx_hardware && r.tx_hardware,
{
    TimestampingRequest {
        interface_name: interface_request_name(ifname),
        tx_type: TxTimestampMode::OneStepSync,
        rx_filter: RxTimestampFilter::PtpV2L2Event,
        raw_hardware: true,
        rx_hardware: true,
        tx_hardware: true,
    }
}

#[derive(Clone, Copy, Debug, PartialEq, Eq)]
pub enum TimestampError {
    /// The driver or the socket refused the timestamping configuration.
    TimestampConfigFailed,
}

} // verus!
