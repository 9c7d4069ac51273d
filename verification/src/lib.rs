//! Battery status of wireless peripherals read straight from their HID
//! reports: the protocol decoders for each supported device family, the
//! settings file, the device registry and the text and pixels the widget
//! and tray icon show.

pub mod text;
pub mod config;
pub mod device;
pub mod hid;
pub mod devices;
pub mod tray;
pub mod ui;
pub mod log;
pub mod session;
pub mod worker;
