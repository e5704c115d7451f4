//! The log systems that keep an application's output.

pub mod journald;
