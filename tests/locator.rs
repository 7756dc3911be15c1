use vf60::locator::{
    find_bulk_endpoint, find_vf60_device, is_vf60_device, select_endpoints, PRODUCT_ID, VENDOR_ID,
};
use vf60::{DeviceIds, Direction, EndpointInfo, Error, InterfaceInfo, TransferKind};

fn ids(vendor_id: u16, product_id: u16) -> Option<DeviceIds> {
    Some(DeviceIds { vendor_id, product_id })
}

fn ep(address: u8, transfer: TransferKind, direction: Direction) -> EndpointInfo {
    EndpointInfo { address, transfer, direction }
}

#[test]
fn display_identifiers() {
    assert_eq!(VENDOR_ID, 0x1008);
    assert_eq!(PRODUCT_ID, 0x1004);
    assert!(is_vf60_device(&DeviceIds { vendor_id: 0x1008, product_id: 0x1004 }));
    assert!(!is_vf60_device(&DeviceIds { vendor_id: 0x1008, product_id: 0x1005 }));
    assert!(!is_vf60_device(&DeviceIds { vendor_id: 0x1004, product_id: 0x1008 }));
}

#[test]
fn no_devices_is_not_detected() {
    assert!(matches!(find_vf60_device(&vec![]), Err(Error::DeviceNotDetected)));
}

#[test]
fn no_matching_device_is_not_detected() {
    let devices = vec![ids(0x046d, 0xc52b), None, ids(0x1008, 0x1005), ids(0x2008, 0x1004)];
    assert!(matches!(find_vf60_device(&devices), Err(Error::DeviceNotDetected)));
}

#[test]
fn first_matching_device_is_chosen() {
    let devices = vec![None, ids(0x046d, 0xc52b), ids(0x1008, 0x1004), ids(0x1008, 0x1004)];
    assert_eq!(find_vf60_device(&devices).unwrap(), 2);
}

#[test]
fn no_interface_is_not_detected() {
    assert!(matches!(select_endpoints(&vec![]), Err(Error::InterfaceNotDetected)));
}

#[test]
fn missing_out_endpoint() {
    let interfaces = vec![InterfaceInfo {
        number: 0,
        endpoints: vec![
            ep(0x81, TransferKind::Bulk, Direction::In),
            ep(0x02, TransferKind::Interrupt, Direction::Out),
            ep(0x03, TransferKind::Isochronous, Direction::Out),
        ],
    }];
    assert!(matches!(select_endpoints(&interfaces), Err(Error::MissingOutEndpoint)));
}

#[test]
fn missing_in_endpoint() {
    let interfaces = vec![InterfaceInfo {
        number: 0,
        endpoints: vec![
            ep(0x82, TransferKind::Interrupt, Direction::In),
            ep(0x01, TransferKind::Bulk, Direction::Out),
        ],
    }];
    assert!(matches!(select_endpoints(&interfaces), Err(Error::MissingInEndpoint)));
}

#[test]
fn missing_both_reports_out_first() {
    let interfaces = vec![InterfaceInfo { number: 0, endpoints: vec![] }];
    assert!(matches!(select_endpoints(&interfaces), Err(Error::MissingOutEndpoint)));
}

#[test]
fn only_first_interface_counts() {
    let interfaces = vec![
        InterfaceInfo { number: 0, endpoints: vec![ep(0x01, TransferKind::Bulk, Direction::Out)] },
        InterfaceInfo { number: 1, endpoints: vec![ep(0x81, TransferKind::Bulk, Direction::In)] },
    ];
    assert!(matches!(select_endpoints(&interfaces), Err(Error::MissingInEndpoint)));
}

#[test]
fn first_bulk_endpoints_are_bound() {
    let interfaces = vec![
        InterfaceInfo {
            number: 3,
            endpoints: vec![
                ep(0x83, TransferKind::Interrupt, Direction::In),
                ep(0x81, TransferKind::Bulk, Direction::In),
                ep(0x02, TransferKind::Bulk, Direction::Out),
                ep(0x84, TransferKind::Bulk, Direction::In),
                ep(0x05, TransferKind::Bulk, Direction::Out),
            ],
        },
        InterfaceInfo { number: 4, endpoints: vec![] },
    ];
    let binding = select_endpoints(&interfaces).unwrap();
    assert_eq!(binding.interface_number, 3);
    assert_eq!(binding.endpoint_out, 0x02);
    assert_eq!(binding.endpoint_in, 0x81);
}

#[test]
fn find_bulk_endpoint_by_direction() {
    let eps = vec![
        ep(0x00, TransferKind::Control, Direction::Out),
        ep(0x81, TransferKind::Bulk, Direction::In),
        ep(0x01, TransferKind::Bulk, Direction::Out),
    ];
    assert_eq!(find_bulk_endpoint(&eps, Direction::Out), Some(2));
    assert_eq!(find_bulk_endpoint(&eps, Direction::In), Some(1));
    assert_eq!(find_bulk_endpoint(&eps[..1].to_vec(), Direction::In), None);
}
