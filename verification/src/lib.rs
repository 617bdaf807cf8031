//! Logic of a tabbed terminal-emulator window: edge-proximity detection for
//! border resizing, the theme table, the settings record, tab-lifecycle rules,
//! and the small string computations the window chrome needs.

pub mod config;
pub mod resize;
pub mod session;
pub mod theme;
pub mod window;
