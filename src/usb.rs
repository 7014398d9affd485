//! Identity of the USB serial device, fixed by a builder before the device
//! is brought up.
//!
//! The builder also carries the not-yet-activated hardware handles `H`;
//! `build` consumes it, so neither the handles nor the builder can be used
//! twice.
use vstd::prelude::*;

verus! {

/// Vendor id used unless the builder is told otherwise.
pub const DEFAULT_USB_VID: u16 = 0x16c0;

/// Product id used unless the builder is told otherwise.
pub const DEFAULT_USB_PID: u16 = 0x27dd;

/// Vendor and product id and the descriptor strings of the device.
#[derive(Clone, Copy, Debug, PartialEq, Eq)]
pub struct UsbIdentity {
    pub usb_vid: u16,
    pub usb_pid: u16,
    pub manufacturer: &'static str,
    pub product: &'static str,
    pub serial_number: &'static str,
}

/// Staged set-up of the USB serial device.
pub struct UsbBuilder<H> {
    identity: UsbIdentity,
    hardware: H,
}

impl<H> UsbBuilder<H> {
    /// The identity the device will get.
    pub closed spec fn identity(&self) -> UsbIdentity {
        self.identity
    }

    /// The hardware handles the device will be built from.
    pub closed spec fn hardware(&self) -> H {
        self.hardware
    }

    /// A builder with the default identity: ids 0x16c0:0x27dd, manufacturer
    /// "Fake company", product "Serial port", serial number "Test".
    pub fn new(hardware: H) -> (r: UsbBuilder<H>)
        ensures
            r.identity().usb_vid == DEFAULT_USB_VID,
            r.identity().usb_pid == DEFAULT_USB_PID,
            r.identity().manufacturer == "Fake company",
            r.identity().product == "Serial port",
            r.identity().serial_number == "Test",
            r.hardware() == hardware,
    {
        UsbBuilder {
            identity: UsbIdentity {
                usb_vid: DEFAULT_USB_VID,
                usb_pid: DEFAULT_USB_PID,
                manufacturer: "Fake company",
                product: "Serial port",
                serial_number: "Test",
            },
            hardware,
        }
    }

    /// Sets the vendor id.
    pub fn usb_vid(self, usb_vid: u16) -> (r: UsbBuilder<H>)
        ensures
            r.identity() == (UsbIdentity { usb_vid, ..self.identity() }),
            r.hardware() == self.hardware(),
    {
        UsbBuilder { identity: UsbIdentity { usb_vid, ..self.identity }, hardware: self.hardware }
    }

    /// Sets the product id.
    pub fn usb_pid(self, usb_pid: u16) -> (r: UsbBuilder<H>)
        ensures
            r.identity() == (UsbIdentity { usb_pid, ..self.identity() }),
            r.hardware() == self.hardware(),
    {
        UsbBuilder { identity: UsbIdentity { usb_pid, ..self.identity }, hardware: self.hardware }
    }

    /// Sets the manufacturer string.
    pub fn manufacturer(self, manufacturer: &'static str) -> (r: UsbBuilder<H>)
        ensures
            r.identity() == (UsbIdentity { manufacturer, ..self.identity() }),
            r.hardware() == self.hardware(),
    {
        UsbBuilder {
            identity: UsbIdentity { manufacturer, ..self.identity },
            hardware: self.hardware,
        }
    }

    /// Sets the product string.
    pub fn product(self, product: &'static str) -> (r: UsbBuilder<H>)
        ensures
            r.identity() == (UsbIdentity { product, ..self.identity() }),
            r.hardware() == self.hardware(),
    {
        UsbBuilder { identity: UsbIdentity { product, ..self.identity }, hardware: self.hardware }
    }

    /// Sets the serial number string.
    pub fn serial_number(self, serial_number: &'static str) -> (r: UsbBuilder<H>)
        ensures
            r.identity() == (UsbIdentity { serial_number, ..self.identity() }),
            r.hardware() == self.hardware(),
    {
        UsbBuilder {
            identity: UsbIdentity { serial_number, ..self.identity },
            hardware: self.hardware,
        }
    }

    /// The identity set so far.
    pub fn current_identity(&self) -> (r: UsbIdentity)
        ensures
            r == self.identity(),
    {
        self.identity
    }

    /// Ends the set-up: hands over the final identity and the hardware
    /// handles to bring the device up with. The builder is consumed.
    pub fn build(self) -> (r: (UsbIdentity, H))
        ensures
            r.0 == self.identity(),
            r.1 == self.hardware(),
    {
        (self.identity, self.hardware)
    }
}

} // verus!
