//! Terminal splash engine: animation timeline, cell-grid compositor and the
//! terminal protocol logic around them.

pub mod animate;
pub mod ansi;
pub mod background;
pub mod boot;
pub mod border;
pub mod cache;
pub mod canvas;
pub mod celestial;
pub mod color;
pub mod config;
pub mod dsr;
pub mod image_proto;
pub mod installer;
pub mod layout;
pub mod logo;
pub mod mode;
pub mod paths;
pub mod progress;
pub mod render;
pub mod report;
pub mod resolve;
pub mod rng;
pub mod scene;
pub mod starfield;
pub mod status;
pub mod sysinfo;
pub mod terminal;
pub mod text;
pub mod timeline;
