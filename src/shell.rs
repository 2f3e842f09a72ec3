use vstd::prelude::*;
use crate::error::WallpaperError;

verus! {

/// Message that asks the program manager to create its background worker window.
pub const SPAWN_WORKER_MESSAGE: u32 = 0x052C;

/// `wParam` of the spawn message.
pub const SPAWN_WORKER_WPARAM: usize = 0xD;

/// `lParam` of the spawn message.
pub const SPAWN_WORKER_LPARAM: isize = 0x1;

/// Upper bound, in milliseconds, on how long the spawn message may block.
pub const SPAWN_WORKER_TIMEOUT_MS: u32 = 1000;

/// Pause, in milliseconds, that lets the shell create the worker window.
pub const SPAWN_WORKER_SETTLE_MS: u64 = 100;

/// A top-level window of the shell's worker class, as enumeration meets it.
#[derive(Clone, Copy, Debug, PartialEq, Eq, Structural)]
pub struct ShellWindow {
    pub handle: isize,
    /// Whether it has a direct child of the desktop-icon view class.
    pub has_icon_view: bool,
}

/// A worker window that can serve as background host.
pub open spec fn is_host_candidate(w: ShellWindow) -> bool {
    !w.has_icon_view && w.handle != 0
}

/// The first host candidate of `ws`, if any.
pub open spec fn first_candidate(ws: Seq<ShellWindow>) -> Option<isize>
    decreases ws.len(),
{
    if ws.len() == 0 {
        None
    } else if is_host_candidate(ws[0]) {
        Some(ws[0].handle)
    } else {
        first_candidate(ws.drop_first())
    }
}

/// The background host among worker windows in enumeration order: the first
/// candidate after the first window that holds the desktop icons.
pub open spec fn background_host(ws: Seq<ShellWindow>) -> Option<isize>
    decreases ws.len(),
{
    if ws.len() == 0 {
        None
    } else if ws[0].has_icon_view {
        first_candidate(ws.drop_first())
    } else {
        background_host(ws.drop_first())
    }
}

/// What locating the background host yields, given the program manager's
/// handle (0 where it was not found) and the worker windows.
pub open spec fn locate_spec(progman: isize, ws: Seq<ShellWindow>) -> Result<isize, WallpaperError> {
    if progman == 0 {
        Err(WallpaperError::ProgmanNotFound)
    } else {
        match background_host(ws) {
            Some(h) => Ok(h),
            None => Err(WallpaperError::WorkerWNotFound),
        }
    }
}

/// Turns the result of looking the program manager up by class name (0 for
/// none) into its handle.
pub fn find_progman(lookup: isize) -> (r: Result<isize, WallpaperError>)
    ensures
        lookup == 0 ==> r == Err::<isize, WallpaperError>(WallpaperError::ProgmanNotFound),
        lookup != 0 ==> r == Ok::<isize, WallpaperError>(lookup),
{
    if lookup == 0 {
        Err(WallpaperError::ProgmanNotFound)
    } else {
        Ok(lookup)
    }
}

/// Picks the background host out of the worker windows in enumeration order:
/// the shell stacks the window holding the desktop icons just above it.
pub fn find_worker_w(windows: &Vec<ShellWindow>) -> (r: Result<isize, WallpaperError>)
    ensures
        r == match background_host(windows@) {
            Some(h) => Ok::<isize, WallpaperError>(h),
            None => Err(WallpaperError::WorkerWNotFound),
        },
        r matches Ok(h) ==> h != 0,
{
    let n = windows.len();
    let mut i: usize = 0;
    assert(windows@.subrange(0, n as int) =~= windows@);
    while i < n
        invariant
            i <= n,
            n == windows@.len(),
            background_host(windows@) == background_host(windows@.subrange(i as int, n as int)),
        decreases n - i,
    {
        let w = windows[i];
        proof {
            assert(windows@.subrange(i as int, n as int).drop_first() =~= windows@.subrange(
                i + 1,
                n as int,
            ));
        }
        if w.has_icon_view {
            let mut j: usize = i + 1;
            while j < n
                invariant
                    i < j <= n,
                    n == windows@.len(),
                    background_host(windows@) == first_candidate(
                        windows@.subrange(j as int, n as int),
                    ),
                decreases n - j,
            {
                let c = windows[j];
                proof {
                    assert(windows@.subrange(j as int, n as int).drop_first() =~= windows@.subrange(
                        j + 1,
                        n as int,
                    ));
                }
                if !c.has_icon_view && c.handle != 0 {
                    return Ok(c.handle);
                }
                j = j + 1;
            }
            return Err(WallpaperError::WorkerWNotFound);
        }
        i = i + 1;
    }
    Err(WallpaperError::WorkerWNotFound)
}

/// Locates the background host: the program manager must exist, and a
/// worker window must follow the one that holds the desktop icons.
pub fn locate_background_host(progman: isize, windows: &Vec<ShellWindow>) -> (r: Result<
    isize,
    WallpaperError,
>)
    ensures
        r == locate_spec(progman, windows@),
        r matches Ok(h) ==> h != 0,
{
    match find_progman(progman) {
        Err(e) => Err(e),
        Ok(_) => find_worker_w(windows),
    }
}

} // verus!
