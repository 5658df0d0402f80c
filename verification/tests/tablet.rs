use stu::{
    list_devices, teardown, Call, Capability, ClientError, Connector, Error, Information, InkingMode,
    NativeCapability, ReportIds, StatusCodes, Tablet, UsbDevice,
};

fn codes() -> StatusCodes {
    StatusCodes {
        success: 0,
        unspecified: 1,
        invalid_handle: 2,
        invalid_parameter: 3,
        invalid_parameter_null_pointer: 4,
        unsupported: 5,
        error: 6,
        error_sizeof: 7,
        exception_unknown: 8,
        exception_std: 9,
        exception_system_error: 10,
        exception_not_connected: 11,
        exception_device_removed: 12,
        exception_write_not_supported: 13,
        exception_io: 14,
        exception_timeout: 15,
        exception_set: 16,
        exception_report_handler: 17,
        exception_encryption_handler: 18,
    }
}

fn ids() -> ReportIds {
    ReportIds { capability: 9, clear_screen: 32, inking_mode: 33 }
}

fn table(supported: &[usize]) -> Vec<u16> {
    let mut list = vec![0u16; 256];
    for id in supported {
        list[*id] = 1 + *id as u16;
    }
    list
}

fn tablet(supported: &[usize]) -> Tablet {
    Tablet::wrap(&codes(), ids(), 0, &table(supported)).unwrap()
}

fn unsupported(report_id: u32) -> Error {
    Error::ClientError(ClientError::UnsupportedReportId { report_id })
}

fn device(id_vendor: u16, id_product: u16, bcd_device: u16) -> UsbDevice {
    UsbDevice { id_vendor, id_product, bcd_device }
}

fn information(id_vendor: u16, id_product: u16, bcd_device: u16) -> Information {
    let found = vec![device(id_vendor, id_product, bcd_device)];
    list_devices(&codes(), 0, found).next().unwrap().info()
}

#[test]
fn check_support_accepts_every_report_in_the_table() {
    let supported = [1usize, 9, 33, 200, 255];
    let tablet = tablet(&supported);
    for id in supported {
        assert_eq!(tablet.check_support(id as u32), Ok(()));
    }
}

#[test]
fn check_support_rejects_every_report_not_in_the_table() {
    let supported = [1usize, 9, 33, 200, 255];
    let tablet = tablet(&supported);
    for id in 0..300u32 {
        if !supported.contains(&(id as usize)) {
            assert_eq!(tablet.check_support(id), Err(unsupported(id)));
        }
    }
    assert_eq!(tablet.check_support(u32::MAX), Err(unsupported(u32::MAX)));
}

#[test]
fn wrap_reads_any_entry_other_than_zero_as_supported() {
    let tablet = Tablet::wrap(&codes(), ids(), 0, &vec![0, 1, 0, 65535, 7]).unwrap();
    assert_eq!(tablet.check_support(0), Err(unsupported(0)));
    assert_eq!(tablet.check_support(1), Ok(()));
    assert_eq!(tablet.check_support(2), Err(unsupported(2)));
    assert_eq!(tablet.check_support(3), Ok(()));
    assert_eq!(tablet.check_support(4), Ok(()));
    assert_eq!(tablet.check_support(5), Err(unsupported(5)));
}

#[test]
fn wrap_with_an_empty_table_supports_nothing() {
    let tablet = Tablet::wrap(&codes(), ids(), 0, &vec![]).unwrap();
    for id in 0..256 {
        assert_eq!(tablet.check_support(id), Err(unsupported(id)));
    }
    assert_eq!(tablet.clear(), Err(unsupported(32)));
}

#[test]
fn wrap_connects_without_the_table() {
    for status in [5, 8, 10, 11, 12, 13, 14, 15] {
        let tablet = Tablet::wrap(&codes(), ids(), status, &table(&[9, 32, 33])).unwrap();
        for id in 0..256 {
            assert_eq!(tablet.check_support(id), Err(unsupported(id)));
        }
        assert_eq!(tablet.capability(), Err(unsupported(9)));
    }
}

#[test]
fn clear_is_refused_before_any_call_and_inking_issues_one() {
    let tablet = tablet(&[9, 33]);
    assert_eq!(tablet.clear(), Err(unsupported(32)));
    assert_eq!(tablet.inking(true), Ok(Call::SetInkingMode(InkingMode::On)));
}

#[test]
fn operations_issue_their_call_where_supported() {
    let tablet = tablet(&[9, 32, 33]);
    assert_eq!(tablet.clear(), Ok(Call::SetClearScreen));
    assert_eq!(tablet.inking(true), Ok(Call::SetInkingMode(InkingMode::On)));
    assert_eq!(tablet.inking(false), Ok(Call::SetInkingMode(InkingMode::Off)));
    assert_eq!(tablet.capability(), Ok(Call::GetCapability));
    assert_eq!(tablet.queue(), Ok(Call::GetCapability));
}

#[test]
fn operations_are_refused_where_not_supported() {
    let tablet = tablet(&[1]);
    assert_eq!(tablet.clear(), Err(unsupported(32)));
    assert_eq!(tablet.inking(true), Err(unsupported(33)));
    assert_eq!(tablet.inking(false), Err(unsupported(33)));
    assert_eq!(tablet.capability(), Err(unsupported(9)));
    assert_eq!(tablet.queue(), Err(unsupported(9)));
}

#[test]
fn operations_follow_the_identifiers_given() {
    let ids = ReportIds { capability: 2, clear_screen: 3, inking_mode: 4 };
    let tablet = Tablet::wrap(&codes(), ids, 0, &vec![0, 0, 1, 0, 1]).unwrap();
    assert_eq!(tablet.capability(), Ok(Call::GetCapability));
    assert_eq!(tablet.clear(), Err(unsupported(3)));
    assert_eq!(tablet.inking(true), Ok(Call::SetInkingMode(InkingMode::On)));
}

#[test]
fn teardown_disconnects_and_then_frees() {
    assert_eq!(teardown(), (Call::Disconnect, Call::Free));
}

#[test]
fn capability_surfaces_the_native_values() {
    let native = NativeCapability {
        tablet_max_x: 20000,
        tablet_max_y: 12000,
        tablet_max_pressure: 2047,
        screen_width: 800,
        screen_height: 480,
    };
    let capability = Capability::from_native(&native);
    assert_eq!(capability.width(), 800);
    assert_eq!(capability.height(), 480);
    assert_eq!(capability.input_grid_width(), 20000);
    assert_eq!(capability.input_grid_height(), 12000);
    assert_eq!(capability.input_grid_pressure(), 2047);
}

#[test]
fn capability_keeps_the_extremes() {
    let native = NativeCapability {
        tablet_max_x: u16::MAX,
        tablet_max_y: 0,
        tablet_max_pressure: 1,
        screen_width: 0,
        screen_height: u16::MAX,
    };
    let capability = Capability::from_native(&native);
    assert_eq!(capability.width(), 0);
    assert_eq!(capability.height(), 65535);
    assert_eq!(capability.input_grid_width(), 65535);
    assert_eq!(capability.input_grid_height(), 0);
    assert_eq!(capability.input_grid_pressure(), 1);
    assert_eq!(capability, Capability::from_native(&native));
}

#[test]
fn information_is_that_of_the_device() {
    let info = information(0x056a, 0x00a8, 0x0100);
    assert_eq!(info.vendor(), 0x056a);
    assert_eq!(info.product(), 0x00a8);
    assert_eq!(info.device(), 0x0100);
    assert_eq!(info, information(0x056a, 0x00a8, 0x0100));
    assert_ne!(info, information(0x056a, 0x00a9, 0x0100));
}

#[test]
fn info_can_be_asked_for_again() {
    let found = vec![device(1, 2, 3)];
    let connector: Connector = list_devices(&codes(), 0, found).next().unwrap();
    assert_eq!(connector.info(), connector.info());
    assert_eq!(connector.info().product(), 2);
}

#[test]
fn connectors_come_in_the_order_of_the_enumeration() {
    let found = vec![device(1, 10, 100), device(2, 20, 200), device(3, 30, 300)];
    let mut connectors = list_devices(&codes(), 0, found);
    assert_eq!(connectors.len(), 3);
    let first = connectors.next().unwrap();
    assert_eq!(first.info().vendor(), 1);
    assert_eq!(connectors.len(), 2);
    let second = connectors.next().unwrap();
    assert_eq!(second.info().product(), 20);
    let third = connectors.next().unwrap();
    assert_eq!(third.info().device(), 300);
    assert_eq!(connectors.len(), 0);
    assert!(connectors.next().is_none());
    assert!(connectors.next().is_none());
    assert_eq!(connectors.len(), 0);
}

#[test]
fn no_device_is_no_error() {
    let mut connectors = list_devices(&codes(), 0, vec![]);
    assert_eq!(connectors.len(), 0);
    assert!(connectors.next().is_none());
}

#[test]
fn connect_creates_the_interface_to_its_own_device() {
    let found = vec![device(1, 10, 100), device(2, 20, 200)];
    let mut connectors = list_devices(&codes(), 0, found);
    let first = connectors.next().unwrap();
    let second = connectors.next().unwrap();
    assert_eq!(second.connect(), Call::CreateInterface { device: 1, exclusive_lock: true });
    assert_eq!(first.connect(), Call::CreateInterface { device: 0, exclusive_lock: true });
}
