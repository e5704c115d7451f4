//! What each command decides, apart from the input and output around it.

pub mod attach;
pub mod edit;
pub mod enable;
pub mod kill;
pub mod list;
pub mod log;
pub mod plan;
pub mod profile;
pub mod reload;
pub mod restart;
pub mod save;
pub mod send;
pub mod signals;
pub mod start;
pub mod status;
pub mod stop;
