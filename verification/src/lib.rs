//! Verified core of the duty-engineer tray application: the rotation of the
//! engineer on duty, the configuration it lives in, and the preparation of the
//! Asterisk call to that engineer.

pub mod text;
pub mod phone;
pub mod models;
pub mod rotation;
pub mod config;
pub mod asterisk;
