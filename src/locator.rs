use crate::error::Error;
use vstd::prelude::*;

verus! {

/// USB vendor identifier of the display.
pub const VENDOR_ID: u16 = 0x1008;

/// USB product identifier of the display.
pub const PRODUCT_ID: u16 = 0x1004;

/// The transfer type of an endpoint.
#[derive(Clone, Copy, Debug, PartialEq, Eq, Structural)]
pub enum TransferKind {
    Control,
    Isochronous,
    Bulk,
    Interrupt,
}

/// The direction of an endpoint, seen from the host.
#[derive(Clone, Copy, Debug, PartialEq, Eq, Structural)]
pub enum Direction {
    In,
    Out,
}

/// What discovery reads of a connected device's descriptor.
#[derive(Clone, Copy, Debug, PartialEq, Eq, Structural)]
pub struct DeviceIds {
    pub vendor_id: u16,
    pub product_id: u16,
}

/// What endpoint selection reads of an endpoint descriptor.
#[derive(Clone, Copy, Debug, PartialEq, Eq, Structural)]
pub struct EndpointInfo {
    pub address: u8,
    pub transfer: TransferKind,
    pub direction: Direction,
}

/// One interface descriptor of the active configuration, with its endpoints
/// in descriptor order.
#[derive(Clone, Debug)]
pub struct InterfaceInfo {
    pub number: u8,
    pub endpoints: Vec<EndpointInfo>,
}

/// The interface to claim and the bulk endpoint pair to talk through.
#[derive(Clone, Copy, Debug, PartialEq, Eq, Structural)]
pub struct EndpointBinding {
    pub interface_number: u8,
    pub endpoint_out: u8,
    pub endpoint_in: u8,
}

/// Whether a device whose descriptor reads `ids` is the display.
pub open spec fn is_display(ids: DeviceIds) -> bool {
    ids.vendor_id == VENDOR_ID && ids.product_id == PRODUCT_ID
}

/// Whether an enumerated device is the display; `None` stands for a device
/// whose descriptor could not be read, which never matches.
pub open spec fn is_display_entry(entry: Option<DeviceIds>) -> bool {
    entry matches Some(ids) && is_display(ids)
}

/// Tells whether the identifiers are the display's vendor and product pair.
pub fn is_vf60_device(ids: &DeviceIds) -> (r: bool)
    ensures
        r == is_display(*ids),
{
    ids.vendor_id == VENDOR_ID && ids.product_id == PRODUCT_ID
}

/// Picks the first enumerated device that is the display, by its position.
pub fn find_vf60_device(devices: &Vec<Option<DeviceIds>>) -> (r: Result<usize, Error>)
    ensures
        r is Err <==> forall|j: int| 0 <= j < devices@.len() ==> !is_display_entry(devices@[j]),
        r is Err ==> r matches Err(Error::DeviceNotDetected),
        r matches Ok(i) ==> i < devices@.len() && is_display_entry(devices@[i as int]) && forall|
            j: int,
        | 0 <= j < i ==> !is_display_entry(devices@[j]),
{
    let mut i: usize = 0;
    while i < devices.len()
        invariant
            i <= devices@.len(),
            forall|j: int| 0 <= j < i ==> !is_display_entry(devices@[j]),
        decreases devices@.len() - i,
    {
        match &devices[i] {
            Some(ids) => {
                if is_vf60_device(ids) {
                    return Ok(i);
                }
            },
            None => {},
        }
        i = i + 1;
    }
    Err(Error::DeviceNotDetected)
}

/// Whether an endpoint is a bulk endpoint in the given direction.
pub open spec fn is_bulk(ep: EndpointInfo, direction: Direction) -> bool {
    ep.transfer == TransferKind::Bulk && ep.direction == direction
}

/// Whether some endpoint of `eps` is a bulk endpoint in `direction`.
pub open spec fn has_bulk(eps: Seq<EndpointInfo>, direction: Direction) -> bool {
    exists|i: int| 0 <= i < eps.len() && is_bulk(eps[i], direction)
}

/// Whether `i` is the position of the first bulk endpoint in `direction`.
pub open spec fn is_first_bulk(eps: Seq<EndpointInfo>, direction: Direction, i: int) -> bool {
    &&& 0 <= i < eps.len()
    &&& is_bulk(eps[i], direction)
    &&& forall|j: int| 0 <= j < i ==> !is_bulk(eps[j], direction)
}

/// Finds the first bulk endpoint in `direction`, by its position.
pub fn find_bulk_endpoint(eps: &Vec<EndpointInfo>, direction: Direction) -> (r: Option<usize>)
    ensures
        r is None <==> !has_bulk(eps@, direction),
        r matches Some(i) ==> is_first_bulk(eps@, direction, i as int),
{
    let mut i: usize = 0;
    while i < eps.len()
        invariant
            i <= eps@.len(),
            forall|j: int| 0 <= j < i ==> !is_bulk(eps@[j], direction),
        decreases eps@.len() - i,
    {
        let ep = eps[i];
        if ep.transfer == TransferKind::Bulk && ep.direction == direction {
            return Some(i);
        }
        i = i + 1;
    }
    None
}

/// Binds the first interface descriptor: its number, and the addresses of its
/// first bulk endpoint out and its first bulk endpoint in.
pub open spec fn binds(interfaces: Seq<InterfaceInfo>, b: EndpointBinding) -> bool {
    let eps = interfaces[0].endpoints@;
    &&& b.interface_number == interfaces[0].number
    &&& exists|i: int| is_first_bulk(eps, Direction::Out, i) && b.endpoint_out == eps[i].address
    &&& exists|i: int| is_first_bulk(eps, Direction::In, i) && b.endpoint_in == eps[i].address
}

/// Chooses the interface and bulk endpoints to use from the interface
/// descriptors of the device's active configuration, in descriptor order.
pub fn select_endpoints(interfaces: &Vec<InterfaceInfo>) -> (r: Result<EndpointBinding, Error>)
    ensures
        interfaces@.len() == 0 <==> (r matches Err(Error::InterfaceNotDetected)),
        interfaces@.len() > 0 ==> {
            let eps = interfaces@[0].endpoints@;
            &&& !has_bulk(eps, Direction::Out) <==> (r matches Err(Error::MissingOutEndpoint))
            &&& (has_bulk(eps, Direction::Out) && !has_bulk(eps, Direction::In)) <==> (r matches Err(
                Error::MissingInEndpoint,
            ))
            &&& (has_bulk(eps, Direction::Out) && has_bulk(eps, Direction::In)) <==> r is Ok
        },
        r matches Ok(b) ==> binds(interfaces@, b),
{
    if interfaces.len() == 0 {
        return Err(Error::InterfaceNotDetected);
    }
    let first = &interfaces[0];
    let out = match find_bulk_endpoint(&first.endpoints, Direction::Out) {
        Some(i) => i,
        None => {
            return Err(Error::MissingOutEndpoint);
        },
    };
    let inp = match find_bulk_endpoint(&first.endpoints, Direction::In) {
        Some(i) => i,
        None => {
            return Err(Error::MissingInEndpoint);
        },
    };
    let b = EndpointBinding {
        interface_number: first.number,
        endpoint_out: first.endpoints[out].address,
        endpoint_in: first.endpoints[inp].address,
    };
    assert(is_first_bulk(interfaces@[0].endpoints@, Direction::Out, out as int));
    assert(is_first_bulk(interfaces@[0].endpoints@, Direction::In, inp as int));
    Ok(b)
}

} // verus!
