use stu::window::{label, pick_tablet, DeviceSelection, ManagementWindowDisconnected, NoTabletConnector};
use stu::{list_devices, Information, StatusCodes, UsbDevice};

fn codes() -> StatusCodes {
    StatusCodes {
        success: 0,
        unspecified: 1,
        invalid_handle: 2,
        invalid_parameter: 3,
        invalid_parameter_null_pointer: 4,
        unsupported: 5,
        error: 6,
        error_sizeof: 7,
        exception_unknown: 8,
        exception_std: 9,
        exception_system_error: 10,
        exception_not_connected: 11,
        exception_device_removed: 12,
        exception_write_not_supported: 13,
        exception_io: 14,
        exception_timeout: 15,
        exception_set: 16,
        exception_report_handler: 17,
        exception_encryption_handler: 18,
    }
}

fn information(id_vendor: u16, id_product: u16) -> Information {
    let found = vec![UsbDevice { id_vendor, id_product, bcd_device: 0x0100 }];
    list_devices(&codes(), 0, found).next().unwrap().info()
}

fn dialog() -> DeviceSelection {
    let devices = vec![information(1, 10), information(2, 20), information(3, 30)];
    pick_tablet(devices).unwrap()
}

#[test]
fn label_writes_vendor_and_product_in_hexadecimal() {
    assert_eq!(label(&information(0x056a, 0x00a8)), "056a:00a8");
    assert_eq!(label(&information(0, 0)), "0000:0000");
    assert_eq!(label(&information(0xffff, 0xabcd)), "ffff:abcd");
    assert_eq!(label(&information(0x1234, 0x9ef0)), "1234:9ef0");
    assert_eq!(label(&information(1, 0x10)), "0001:0010");
}

#[test]
fn pick_tablet_without_devices_has_nothing_to_offer() {
    assert_eq!(pick_tablet(vec![]).unwrap_err(), NoTabletConnector::NoDevicesAvailable);
}

#[test]
fn closing_the_dialog_cancels() {
    assert_eq!(dialog().answer(), Err(NoTabletConnector::Cancelled));
    let mut moved = dialog();
    moved.select(2);
    assert_eq!(moved.answer(), Err(NoTabletConnector::Cancelled));
}

#[test]
fn accepting_takes_the_first_device_unless_another_is_selected() {
    let mut dialog = dialog();
    dialog.on_accept();
    assert_eq!(dialog.answer(), Ok(information(1, 10)));
}

#[test]
fn accepting_takes_the_selected_device() {
    let mut second = dialog();
    second.select(1);
    second.on_accept();
    assert_eq!(second.answer(), Ok(information(2, 20)));
    let mut third = dialog();
    third.select(1);
    third.select(2);
    third.on_accept();
    assert_eq!(third.answer(), Ok(information(3, 30)));
}

#[test]
fn selecting_a_place_without_a_device_changes_nothing() {
    let mut dialog = dialog();
    dialog.select(1);
    dialog.select(3);
    dialog.select(usize::MAX);
    dialog.on_accept();
    assert_eq!(dialog.answer(), Ok(information(2, 20)));
}

#[test]
fn the_first_accepted_device_stays() {
    let mut dialog = dialog();
    dialog.on_accept();
    dialog.select(1);
    dialog.on_accept();
    assert_eq!(dialog.answer(), Ok(information(1, 10)));
}

#[test]
fn a_single_device_can_be_accepted() {
    let mut dialog = DeviceSelection::new(vec![information(7, 70)]);
    dialog.on_accept();
    dialog.on_accept();
    assert_eq!(dialog.answer(), Ok(information(7, 70)));
}

#[test]
fn window_error_descriptions() {
    assert_eq!(
        NoTabletConnector::NoDevicesAvailable.description(),
        "there are no available tablet devices"
    );
    assert_eq!(NoTabletConnector::Cancelled.description(), "the operation was cancelled");
    assert_eq!(
        ManagementWindowDisconnected.description(),
        "the management window has been closed"
    );
}
