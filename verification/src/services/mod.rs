//! The service managers that can run an application.

pub mod systemd;
