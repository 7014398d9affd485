use pybadge_high::usb::{UsbBuilder, UsbIdentity, DEFAULT_USB_PID, DEFAULT_USB_VID};

#[test]
fn default_identity() {
    let (id, hw) = UsbBuilder::new("handles").build();
    assert_eq!(hw, "handles");
    assert_eq!(
        id,
        UsbIdentity {
            usb_vid: 0x16c0,
            usb_pid: 0x27dd,
            manufacturer: "Fake company",
            product: "Serial port",
            serial_number: "Test",
        }
    );
    assert_eq!(DEFAULT_USB_VID, 0x16c0);
    assert_eq!(DEFAULT_USB_PID, 0x27dd);
}

#[test]
fn builder_sets_each_field() {
    let b = UsbBuilder::new(42u32)
        .usb_vid(0x1209)
        .usb_pid(0x0001)
        .manufacturer("Acme")
        .product("Badge")
        .serial_number("0007");
    assert_eq!(b.current_identity().usb_vid, 0x1209);
    let (id, hw) = b.build();
    assert_eq!(hw, 42);
    assert_eq!(
        id,
        UsbIdentity {
            usb_vid: 0x1209,
            usb_pid: 0x0001,
            manufacturer: "Acme",
            product: "Badge",
            serial_number: "0007",
        }
    );
}

#[test]
fn later_setting_wins_and_others_stay() {
    let (id, _) = UsbBuilder::new(()).product("one").product("two").build();
    assert_eq!(id.product, "two");
    assert_eq!(id.manufacturer, "Fake company");
    assert_eq!(id.usb_vid, 0x16c0);
}
