//! Start-up of a managed remote-support client.
//!
//! The client checks the licence of its device, runs with the servers that the
//! licence names and with the password of the day, and stops when it has no
//! licence. This library decides: it takes what came back from outside as plain
//! values, and returns the steps to take.
pub mod action;
pub mod alert;
pub mod alert_laws;
pub mod calendar;
pub mod clock;
pub mod clock_laws;
pub mod laws;
pub mod license;
pub mod license_laws;
pub mod password;
pub mod password_laws;
pub mod settings;
pub mod startup;
pub mod startup_laws;
pub mod text;
pub mod text_laws;
pub mod view_laws;
