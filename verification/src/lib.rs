//! State, rules and texts of a Bluetooth status viewer.

pub mod address;
pub mod advertisement;
pub mod bt;
pub mod clock;
pub mod config;
pub mod cursor;
pub mod devices;
pub mod effect;
pub mod fonts;
pub mod found;
pub mod inquiry;
pub mod labels;
pub mod laws;
pub mod nearby;
pub mod order;
pub mod supervisor;
pub mod text;
pub mod theme;
pub mod ui;
