//! A chat bot's core: turning command text into query parameters for a
//! campus-information service, and records that come back into display
//! payloads.

pub mod text;
pub mod params;
pub mod payload;
pub mod clock;
pub mod records;
pub mod command;
pub mod config;
