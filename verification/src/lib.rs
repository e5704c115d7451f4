//! Building blocks of a per-user supervisor for interactive console
//! applications: names and paths, the control protocol, the supervisor's
//! event handling, log tailing and the attach session's state.

pub mod application;
pub mod commands;
pub mod crescent;
pub mod directory;
pub mod error;
pub mod logger;
pub mod loggers;
pub mod process;
pub mod profile;
pub mod service;
pub mod services;
pub mod snapshot;
pub mod subprocess;
pub mod tail;
pub mod text;
pub mod util;
pub mod wire;
