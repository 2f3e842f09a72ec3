use vstd::prelude::*;
use crate::error::WallpaperError;
use crate::geometry::{rect_placement, Placement, Rect};
use crate::shell::{locate_background_host, locate_spec, ShellWindow};

verus! {

/// Title bar (border and caption).
pub const WS_CAPTION: i32 = 0x00C0_0000;

/// Sizing border.
pub const WS_THICKFRAME: i32 = 0x0004_0000;

/// Minimize button.
pub const WS_MINIMIZEBOX: i32 = 0x0002_0000;

/// Maximize button.
pub const WS_MAXIMIZEBOX: i32 = 0x0001_0000;

/// Window menu.
pub const WS_SYSMENU: i32 = 0x0008_0000;

/// Double border of a dialog.
pub const WS_EX_DLGMODALFRAME: i32 = 0x0000_0001;

/// Sunken client edge.
pub const WS_EX_CLIENTEDGE: i32 = 0x0000_0200;

/// Three-dimensional border for items that take no input.
pub const WS_EX_STATICEDGE: i32 = 0x0002_0000;

/// Every chrome bit of the style that an embedded window loses.
pub const CHROME_STYLE: i32 = WS_CAPTION | WS_THICKFRAME | WS_MINIMIZEBOX | WS_MAXIMIZEBOX
    | WS_SYSMENU;

/// Every edge bit of the extended style that an embedded window loses.
pub const EDGE_EX_STYLE: i32 = WS_EX_DLGMODALFRAME | WS_EX_CLIENTEDGE | WS_EX_STATICEDGE;

/// A window's configuration as read before embedding. `parent` is 0 for a
/// top-level window.
#[derive(Clone, Copy, Debug, PartialEq, Eq, Structural)]
pub struct WindowConfig {
    pub parent: isize,
    pub style: i32,
    pub ex_style: i32,
    pub rect: Rect,
}

/// The configuration to apply to the target window: parent (0 for none),
/// style, extended style, then position and size, with a redraw and show.
#[derive(Clone, Copy, Debug, PartialEq, Eq, Structural)]
pub struct WindowUpdate {
    pub parent: isize,
    pub style: i32,
    pub ex_style: i32,
    pub placement: Placement,
}

/// What an embedded session remembers: the window's prior configuration and
/// the background host it was reparented to.
#[derive(Clone, Copy, Debug, PartialEq, Eq, Structural)]
pub struct Embedding {
    pub original: WindowConfig,
    pub worker_w: isize,
}

/// The embedding lifecycle of one target window: `Normal` while `embedding`
/// is `None`, `Embedded` with its snapshot otherwise. A snapshot exists
/// exactly while a window is embedded.
#[derive(Clone, Copy, Debug, PartialEq, Eq, Structural)]
pub struct WallpaperState {
    pub embedding: Option<Embedding>,
}

impl WallpaperState {
    /// The initial, `Normal` state.
    pub fn new() -> (r: Self)
        ensures
            r.embedding is None,
    {
        WallpaperState { embedding: None }
    }
}

impl Default for WallpaperState {
    fn default() -> (r: Self)
        ensures
            r.embedding is None,
    {
        WallpaperState::new()
    }
}

/// Style with the chrome bits cleared.
pub open spec fn chrome_stripped(style: i32) -> i32 {
    style & !CHROME_STYLE
}

/// Extended style with the edge bits cleared.
pub open spec fn edges_stripped(ex_style: i32) -> i32 {
    ex_style & !EDGE_EX_STYLE
}

/// Clears caption, sizing border, minimize and maximize boxes and window menu.
pub fn strip_chrome_style(style: i32) -> (r: i32)
    ensures
        r == chrome_stripped(style),
{
    style & !CHROME_STYLE
}

/// Clears the dialog frame, client edge and static edge.
pub fn strip_edge_ex_style(ex_style: i32) -> (r: i32)
    ensures
        r == edges_stripped(ex_style),
{
    ex_style & !EDGE_EX_STYLE
}

/// Whether `hwnd` is the program manager or one of the worker windows.
pub open spec fn is_shell_window(hwnd: isize, progman: isize, ws: Seq<ShellWindow>) -> bool {
    hwnd == progman || exists|k: int| 0 <= k < ws.len() && ws[k].handle == hwnd
}

/// Embedding from `s`: the state after it and what the caller is to apply.
/// The state check comes first, the host is located before anything changes,
/// and a failure leaves the state as it was.
pub open spec fn embed_spec(
    s: WallpaperState,
    hwnd: isize,
    progman: isize,
    ws: Seq<ShellWindow>,
    current: WindowConfig,
    screen: Placement,
) -> (WallpaperState, Result<WindowUpdate, WallpaperError>) {
    if s.embedding is Some {
        (s, Err(WallpaperError::AlreadyWallpaperMode))
    } else if hwnd == 0 {
        (s, Err(WallpaperError::InvalidWindowHandle))
    } else {
        match locate_spec(progman, ws) {
            Err(e) => (s, Err(e)),
            Ok(host) => if is_shell_window(hwnd, progman, ws) {
                (s, Err(WallpaperError::InvalidWindowHandle))
            } else {
                (
                    WallpaperState {
                        embedding: Some(Embedding { original: current, worker_w: host }),
                    },
                    Ok(
                        WindowUpdate {
                            parent: host,
                            style: chrome_stripped(current.style),
                            ex_style: edges_stripped(current.ex_style),
                            placement: screen,
                        },
                    ),
                )
            },
        }
    }
}

/// Restoring from `s`: the state after it and what the caller is to apply.
pub open spec fn restore_spec(s: WallpaperState, hwnd: isize) -> (
    WallpaperState,
    Result<WindowUpdate, WallpaperError>,
) {
    match s.embedding {
        None => (s, Err(WallpaperError::NotWallpaperMode)),
        Some(e) => if hwnd == 0 {
            (s, Err(WallpaperError::InvalidWindowHandle))
        } else {
            (
                WallpaperState { embedding: None },
                Ok(
                    WindowUpdate {
                        parent: 0,
                        style: e.original.style,
                        ex_style: e.original.ex_style,
                        placement: rect_placement(e.original.rect),
                    },
                ),
            )
        },
    }
}

/// Embeds window `hwnd` into the desktop background layer.
///
/// `progman` is the program manager's handle (0 where it was not found),
/// `windows` the worker windows in enumeration order after the spawn message,
/// `current` the window's configuration now and `screen` the virtual screen's
/// bounds. On success the state holds the snapshot and the result is the
/// configuration to apply: parent the background host, chrome and edges
/// stripped, the whole virtual screen covered.
pub fn set_as_wallpaper(
    state: &mut WallpaperState,
    hwnd: isize,
    progman: isize,
    windows: &Vec<ShellWindow>,
    current: WindowConfig,
    screen: Placement,
) -> (r: Result<WindowUpdate, WallpaperError>)
    ensures
        (*final(state), r) == embed_spec(*old(state), hwnd, progman, windows@, current, screen),
{
    if state.embedding.is_some() {
        return Err(WallpaperError::AlreadyWallpaperMode);
    }
    if hwnd == 0 {
        return Err(WallpaperError::InvalidWindowHandle);
    }
    let host = match locate_background_host(progman, windows) {
        Err(e) => return Err(e),
        Ok(h) => h,
    };
    if hwnd == progman {
        return Err(WallpaperError::InvalidWindowHandle);
    }
    let mut k: usize = 0;
    while k < windows.len()
        invariant
            k <= windows@.len(),
            *state == *old(state),
            state.embedding is None,
            hwnd != 0,
            hwnd != progman,
            locate_spec(progman, windows@) == Ok::<isize, WallpaperError>(host),
            forall|m: int| 0 <= m < k ==> windows@[m].handle != hwnd,
        decreases windows@.len() - k,
    {
        if windows[k].handle == hwnd {
            assert(is_shell_window(hwnd, progman, windows@));
            return Err(WallpaperError::InvalidWindowHandle);
        }
        k = k + 1;
    }
    let update = WindowUpdate {
        parent: host,
        style: strip_chrome_style(current.style),
        ex_style: strip_edge_ex_style(current.ex_style),
        placement: screen,
    };
    state.embedding = Some(Embedding { original: current, worker_w: host });
    Ok(update)
}

/// Takes the embedded window `hwnd` back out of the background layer. On
/// success the snapshot is cleared and the result is the configuration to
/// apply: no parent, the original styles and the original rectangle.
pub fn restore_window(state: &mut WallpaperState, hwnd: isize) -> (r: Result<
    WindowUpdate,
    WallpaperError,
>)
    ensures
        (*final(state), r) == restore_spec(*old(state), hwnd),
{
    match state.embedding {
        None => Err(WallpaperError::NotWallpaperMode),
        Some(e) => {
            if hwnd == 0 {
                return Err(WallpaperError::InvalidWindowHandle);
            }
            let update = WindowUpdate {
                parent: 0,
                style: e.original.style,
                ex_style: e.original.ex_style,
                placement: e.original.rect.placement(),
            };
            state.embedding = None;
            Ok(update)
        },
    }
}

/// Whether a window is embedded. It reads the state alone, so asking again
/// with no transition between gives the same answer.
pub fn is_wallpaper_mode(state: &WallpaperState) -> (r: bool)
    ensures
        r == state.embedding is Some,
{
    state.embedding.is_some()
}

} // verus!
