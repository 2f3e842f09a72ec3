use vstd::prelude::*;
use crate::engine::{embed_spec, restore_spec, WallpaperState, WindowConfig, WindowUpdate};
use crate::error::WallpaperError;
use crate::geometry::{rect_placement, Placement};
use crate::shell::{locate_spec, ShellWindow};

verus! {

/// Embedding a window and then restoring it gives back exactly the style,
/// extended style and rectangle that it had before, moves it back to the top
/// level, and leaves the state `Normal` again.
pub proof fn lemma_embed_restore_round_trip(
    s: WallpaperState,
    hwnd: isize,
    progman: isize,
    ws: Seq<ShellWindow>,
    current: WindowConfig,
    screen: Placement,
)
    requires
        s.embedding is None,
        embed_spec(s, hwnd, progman, ws, current, screen).1 is Ok,
    ensures
        ({
            let embedded = embed_spec(s, hwnd, progman, ws, current, screen).0;
            let (after, r) = restore_spec(embedded, hwnd);
            &&& after.embedding is None
            &&& r is Ok
            &&& r->Ok_0.parent == 0
            &&& r->Ok_0.style == current.style
            &&& r->Ok_0.ex_style == current.ex_style
            &&& r->Ok_0.placement == rect_placement(current.rect)
        }),
{
}

/// Embedding while `Embedded` fails with `AlreadyWallpaperMode`, and
/// restoring while `Normal` fails with `NotWallpaperMode`; neither changes
/// the state or hands back anything to apply.
pub proof fn lemma_state_exclusivity(
    s: WallpaperState,
    hwnd: isize,
    progman: isize,
    ws: Seq<ShellWindow>,
    current: WindowConfig,
    screen: Placement,
)
    ensures
        s.embedding is Some ==> embed_spec(s, hwnd, progman, ws, current, screen) == (
            s,
            Err::<WindowUpdate, WallpaperError>(
                WallpaperError::AlreadyWallpaperMode,
            ),
        ),
        s.embedding is None ==> restore_spec(s, hwnd) == (
            s,
            Err::<WindowUpdate, WallpaperError>(WallpaperError::NotWallpaperMode),
        ),
{
}

/// Where the background host cannot be located, embedding fails with the
/// shell-topology error of the lookup and changes nothing: the state stays as
/// it was and the window receives no update.
pub proof fn lemma_locate_failure_changes_nothing(
    s: WallpaperState,
    hwnd: isize,
    progman: isize,
    ws: Seq<ShellWindow>,
    current: WindowConfig,
    screen: Placement,
)
    requires
        s.embedding is None,
        hwnd != 0,
        locate_spec(progman, ws) is Err,
    ensures
        embed_spec(s, hwnd, progman, ws, current, screen).0 == s,
        embed_spec(s, hwnd, progman, ws, current, screen).1 == Err::<
            WindowUpdate,
            WallpaperError,
        >(locate_spec(progman, ws)->Err_0),
        locate_spec(progman, ws)->Err_0.is_shell_topology(),
{
}

/// After a successful embed, a second embed, of any window, fails with
/// `AlreadyWallpaperMode` and leaves the state that the first one made.
pub proof fn lemma_second_embed_refused(
    s: WallpaperState,
    hwnd: isize,
    progman: isize,
    ws: Seq<ShellWindow>,
    current: WindowConfig,
    screen: Placement,
    hwnd2: isize,
    progman2: isize,
    ws2: Seq<ShellWindow>,
    current2: WindowConfig,
    screen2: Placement,
)
    requires
        embed_spec(s, hwnd, progman, ws, current, screen).1 is Ok,
    ensures
        ({
            let first = embed_spec(s, hwnd, progman, ws, current, screen).0;
            embed_spec(first, hwnd2, progman2, ws2, current2, screen2) == (
                first,
                Err::<WindowUpdate, WallpaperError>(
                    WallpaperError::AlreadyWallpaperMode,
                ),
            )
        }),
{
}

} // verus!
