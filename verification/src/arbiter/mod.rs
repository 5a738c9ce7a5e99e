//! Arbiters: one per actuator domain, and one for the door locks.

pub mod arbiter_history;
pub mod domain;
pub mod domain_laws;
pub mod door_lock;
pub mod door_lock_laws;
pub mod table_laws;
pub mod tables;
