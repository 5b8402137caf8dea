//! A single-port serial session manager: exclusive ownership of one open
//! device handle, and the decisions of a background listener that polls it.

pub mod device;
pub mod session;
pub mod listener;
pub mod ports;
pub mod config;
