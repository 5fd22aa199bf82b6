use edifier::error::EdifierError;
use edifier::locator::{
    find_device_address, has_spp_service, DeviceInfo, RadioDevices, SPP_SERVICE_UUID,
};

#[test]
fn test_match_on_second_radio_is_found() {
    // the first radio reports no matching device; only the second one does
    let radios = vec![
        RadioDevices {
            devices: vec![DeviceInfo { address: 0x1111, services: vec![0xABCD] }],
        },
        RadioDevices {
            devices: vec![
                DeviceInfo { address: 0x2222, services: vec![] },
                DeviceInfo { address: 0x3333, services: vec![0xABCD, SPP_SERVICE_UUID] },
            ],
        },
    ];
    assert_eq!(find_device_address(&radios, SPP_SERVICE_UUID), Ok(0x3333));
}

#[test]
fn test_no_radio_available() {
    let radios: Vec<RadioDevices> = vec![];
    assert_eq!(
        find_device_address(&radios, SPP_SERVICE_UUID),
        Err(EdifierError::NoRadioAvailable)
    );
}

#[test]
fn test_service_not_found() {
    let radios = vec![
        RadioDevices { devices: vec![] },
        RadioDevices {
            devices: vec![DeviceInfo { address: 0x1111, services: vec![0xABCD] }],
        },
    ];
    assert_eq!(
        find_device_address(&radios, SPP_SERVICE_UUID),
        Err(EdifierError::ServiceNotFound)
    );
}

#[test]
fn test_first_match_wins_across_radios() {
    // several devices advertise the service; the first reported one is taken
    let radios = vec![
        RadioDevices {
            devices: vec![
                DeviceInfo { address: 0x0A0A, services: vec![SPP_SERVICE_UUID] },
                DeviceInfo { address: 0x0B0B, services: vec![SPP_SERVICE_UUID] },
            ],
        },
        RadioDevices {
            devices: vec![DeviceInfo { address: 0x0C0C, services: vec![SPP_SERVICE_UUID] }],
        },
    ];
    assert_eq!(find_device_address(&radios, SPP_SERVICE_UUID), Ok(0x0A0A));
}

#[test]
fn test_has_spp_service_checks_membership() {
    let device = DeviceInfo { address: 1, services: vec![1, 2, SPP_SERVICE_UUID] };
    assert!(has_spp_service(&device, SPP_SERVICE_UUID));
    assert!(!has_spp_service(&device, 0xFEED));
    let bare = DeviceInfo { address: 2, services: vec![] };
    assert!(!has_spp_service(&bare, SPP_SERVICE_UUID));
}
