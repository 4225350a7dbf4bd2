//! The HID Generic Desktop usage page.

pub mod usage_id;
