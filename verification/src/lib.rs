//! Body-controller logic over a vehicle signal bus: actuator arbitration, the
//! central-lock queue, key search, and the features built on them.

pub mod arbiter;
pub mod clock;
pub mod config;
pub mod features;
pub mod history;
pub mod ipc_message;
pub mod path_map;
pub mod signal_bus;
pub mod zone;
