//! Verified core of the Excel value-paste tray utility: version numbers,
//! release-feed reading, update decisions and the key-remap rules.

pub mod text;
pub mod version;
pub mod update_logic;
pub mod atom_feed;
pub mod laws;
pub mod config;
pub mod keyboard;
pub mod tray;
pub mod http;
pub mod update;
pub mod guard;
pub mod update_run;
