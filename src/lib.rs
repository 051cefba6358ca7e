//! A bike-share registry: a fixed fleet of bikes, each available, in use by
//! one account, or under inspection by one account, with the token payments
//! that gate use and reward inspections planned as plain values.
pub mod bike;
pub mod contract;
pub mod decimal;
pub mod laws;
pub mod settlement;
