//! Driver core for a handheld board: button shift register, piezo tone,
//! uptime counter, quad-SPI NOR flash protocol and USB serial identity.
//!
//! Every item here is pure logic over plain values. The register and pin
//! accesses that drive the hardware are performed by the caller, which hands
//! the library what it sampled and carries out the actions it is given.
pub mod buttons;
pub mod flash;
pub mod guard;
pub mod scan;
pub mod sound;
pub mod text;
pub mod time;
pub mod usb;
