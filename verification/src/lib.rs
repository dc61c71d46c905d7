//! Screen-region-to-GIF recording for Wayland: the parsing, planning and
//! decision logic, verified.
pub mod error;
pub mod region;
pub mod text;
pub mod output;
pub mod converter;
pub mod backend;
pub mod options;
pub mod overlay;
