//! Host resource monitoring: sampling arithmetic, process ranking and
//! rate-limited threshold alerts, all on fixed-point integers.
//!
//! Percentages are carried in hundredths of a percent, throughput in
//! hundredths of a megabit per second, sizes in bytes and time in
//! milliseconds, so that every rule of the monitor is exact.

pub mod alert;
pub mod alert_laws;
pub mod dispatch;
pub mod display;
pub mod monitor;
pub mod network;
pub mod notice;
pub mod ranking;
pub mod report;
pub mod snapshot;
pub mod text;
pub mod timefmt;
pub mod units;
