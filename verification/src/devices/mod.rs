//! The supported device families and their HID protocols.

pub mod battery;
pub mod corsair;
pub mod hyperx;
pub mod playstation;
pub mod steelseries;
pub mod logitech_headsets;
pub mod logitech;
