//! Embeds an application window into the desktop background layer and takes
//! it back out, with the monitor inventory. The library decides; the caller
//! reads the window system and applies what it is handed.

pub mod error;
pub mod geometry;
pub mod shell;
pub mod engine;
pub mod laws;

pub use error::WallpaperError;
pub use geometry::{get_all_monitors, MonitorInfo, Placement, Rect};
pub use shell::{find_progman, find_worker_w, locate_background_host, ShellWindow};
pub use engine::{
    is_wallpaper_mode, restore_window, set_as_wallpaper, strip_chrome_style,
    strip_edge_ex_style, Embedding, WallpaperState, WindowConfig, WindowUpdate,
};
