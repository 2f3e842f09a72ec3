use vstd::prelude::*;

verus! {

/// Why an embedding operation did not take place.
#[derive(Clone, Debug, PartialEq, Eq)]
pub enum WallpaperError {
    /// The shell's program-manager window does not exist.
    ProgmanNotFound,
    /// No background host follows the window that holds the desktop icons.
    WorkerWNotFound,
    /// The window could not be reparented.
    SetParentFailed,
    /// The target handle is null, or one of the shell's own windows.
    InvalidWindowHandle,
    /// A window is embedded already.
    AlreadyWallpaperMode,
    /// No window is embedded.
    NotWallpaperMode,
    /// A platform call failed, with its message.
    WindowsApi(String),
    /// This platform has no desktop background layer to embed into.
    PlatformUnsupported,
}

impl WallpaperError {
    /// Whether the shell's expected window tree was missing.
    pub open spec fn is_shell_topology(&self) -> bool {
        self is ProgmanNotFound || self is WorkerWNotFound
    }
}

} // verus!
