//! Failure kinds shared by the storage subsystems: lock and retry failures,
//! relational-store failures, and the aggregate application failure.

pub mod lock;
pub mod database;
pub mod application;
