use wallpaper::engine::{CHROME_STYLE, EDGE_EX_STYLE};
use wallpaper::{
    find_progman, find_worker_w, get_all_monitors, is_wallpaper_mode, locate_background_host,
    restore_window, set_as_wallpaper, strip_chrome_style, strip_edge_ex_style, Placement, Rect,
    ShellWindow, WallpaperError, WallpaperState, WindowConfig,
};

fn shell() -> Vec<ShellWindow> {
    vec![
        ShellWindow { handle: 0x10, has_icon_view: false },
        ShellWindow { handle: 0x20, has_icon_view: true },
        ShellWindow { handle: 0x30, has_icon_view: false },
        ShellWindow { handle: 0x40, has_icon_view: false },
    ]
}

fn screen() -> Placement {
    Placement { x: -1920, y: 0, width: 3840, height: 1080 }
}

fn window() -> WindowConfig {
    WindowConfig {
        parent: 0,
        style: 0x00CF_0000,
        ex_style: 0x0000_0300,
        rect: Rect { left: 100, top: 100, right: 900, bottom: 700 },
    }
}

#[test]
fn embed_then_restore_scenario() {
    let mut state = WallpaperState::new();
    let up = set_as_wallpaper(&mut state, 0x500, 0x99, &shell(), window(), screen()).unwrap();
    assert_eq!(up.parent, 0x30);
    assert_eq!(up.placement, screen());
    assert_eq!(up.style, 0);
    assert_eq!(up.style & CHROME_STYLE, 0);
    assert!(is_wallpaper_mode(&state));
    assert_eq!(state.embedding.unwrap().worker_w, 0x30);
    let back = restore_window(&mut state, 0x500).unwrap();
    assert_eq!(back.parent, 0);
    assert_eq!(back.style, 0x00CF_0000);
    assert_eq!(back.ex_style, 0x0000_0300);
    assert_eq!(back.placement, Placement { x: 100, y: 100, width: 800, height: 600 });
    assert!(!is_wallpaper_mode(&state));
    assert_eq!(state, WallpaperState::default());
}

#[test]
fn second_embed_is_refused() {
    let mut state = WallpaperState::new();
    assert!(set_as_wallpaper(&mut state, 0x500, 0x99, &shell(), window(), screen()).is_ok());
    let after_first = state;
    let r = set_as_wallpaper(&mut state, 0x600, 0x99, &shell(), window(), screen());
    assert_eq!(r, Err(WallpaperError::AlreadyWallpaperMode));
    assert_eq!(state, after_first);
}

#[test]
fn restore_while_normal_is_refused() {
    let mut state = WallpaperState::new();
    assert_eq!(restore_window(&mut state, 0x500), Err(WallpaperError::NotWallpaperMode));
    assert_eq!(state, WallpaperState::new());
}

#[test]
fn missing_progman_changes_nothing() {
    let mut state = WallpaperState::new();
    let r = set_as_wallpaper(&mut state, 0x500, 0, &shell(), window(), screen());
    assert_eq!(r, Err(WallpaperError::ProgmanNotFound));
    assert_eq!(state, WallpaperState::new());
}

#[test]
fn missing_worker_changes_nothing() {
    let mut state = WallpaperState::new();
    let only_icons = vec![
        ShellWindow { handle: 0x10, has_icon_view: false },
        ShellWindow { handle: 0x20, has_icon_view: true },
    ];
    let r = set_as_wallpaper(&mut state, 0x500, 0x99, &only_icons, window(), screen());
    assert_eq!(r, Err(WallpaperError::WorkerWNotFound));
    assert_eq!(state, WallpaperState::new());
}

#[test]
fn null_or_shell_handle_is_invalid() {
    let mut state = WallpaperState::new();
    let r = set_as_wallpaper(&mut state, 0, 0x99, &shell(), window(), screen());
    assert_eq!(r, Err(WallpaperError::InvalidWindowHandle));
    let r = set_as_wallpaper(&mut state, 0x99, 0x99, &shell(), window(), screen());
    assert_eq!(r, Err(WallpaperError::InvalidWindowHandle));
    let r = set_as_wallpaper(&mut state, 0x30, 0x99, &shell(), window(), screen());
    assert_eq!(r, Err(WallpaperError::InvalidWindowHandle));
    assert_eq!(state, WallpaperState::new());
    assert!(set_as_wallpaper(&mut state, 0x500, 0x99, &shell(), window(), screen()).is_ok());
    assert_eq!(restore_window(&mut state, 0), Err(WallpaperError::InvalidWindowHandle));
    assert!(is_wallpaper_mode(&state));
}

#[test]
fn query_is_stable() {
    let mut state = WallpaperState::new();
    for _ in 0..5 {
        assert!(!is_wallpaper_mode(&state));
    }
    set_as_wallpaper(&mut state, 0x500, 0x99, &shell(), window(), screen()).unwrap();
    for _ in 0..5 {
        assert!(is_wallpaper_mode(&state));
    }
}

#[test]
fn worker_after_icon_view_is_chosen() {
    assert_eq!(find_worker_w(&shell()), Ok(0x30));
    let skip = vec![
        ShellWindow { handle: 0x20, has_icon_view: true },
        ShellWindow { handle: 0x21, has_icon_view: true },
        ShellWindow { handle: 0x0, has_icon_view: false },
        ShellWindow { handle: 0x22, has_icon_view: false },
    ];
    assert_eq!(find_worker_w(&skip), Ok(0x22));
    assert_eq!(find_worker_w(&vec![]), Err(WallpaperError::WorkerWNotFound));
    let before_only = vec![ShellWindow { handle: 0x10, has_icon_view: false }];
    assert_eq!(find_worker_w(&before_only), Err(WallpaperError::WorkerWNotFound));
}

#[test]
fn progman_lookup() {
    assert_eq!(find_progman(0), Err(WallpaperError::ProgmanNotFound));
    assert_eq!(find_progman(0x99), Ok(0x99));
    assert_eq!(locate_background_host(0x99, &shell()), Ok(0x30));
    assert_eq!(locate_background_host(0, &shell()), Err(WallpaperError::ProgmanNotFound));
}

#[test]
fn style_bits_are_stripped() {
    assert_eq!(strip_chrome_style(0x00CF_0000), 0);
    assert_eq!(strip_chrome_style(0x16CF_0000), 0x1600_0000);
    assert_eq!(CHROME_STYLE, 0x00CF_0000);
    assert_eq!(strip_edge_ex_style(0x0002_0301), 0x100);
    assert_eq!(EDGE_EX_STYLE, 0x0002_0201);
    assert_eq!(strip_edge_ex_style(-1), !0x0002_0201);
}

#[test]
fn single_monitor_inventory() {
    let primary = Rect { left: 0, top: 0, right: 1920, bottom: 1080 };
    let m = get_all_monitors(Some(primary), Placement { x: 0, y: 0, width: 1920, height: 1080 });
    assert_eq!(m.len(), 1);
    assert_eq!((m[0].index, m[0].x, m[0].y, m[0].width, m[0].height), (0, 0, 0, 1920, 1080));
    assert!(m[0].is_primary);
}

#[test]
fn several_monitors_report_virtual_screen() {
    let primary = Rect { left: 0, top: 0, right: 1920, bottom: 1080 };
    let m = get_all_monitors(Some(primary), screen());
    assert_eq!(m.len(), 1);
    assert_eq!((m[0].x, m[0].y, m[0].width, m[0].height), (-1920, 0, 3840, 1080));
    assert!(m[0].is_primary);
    let taller = get_all_monitors(Some(primary), Placement { x: 0, y: 0, width: 1920, height: 2160 });
    assert_eq!(taller[0].height, 2160);
}

#[test]
fn unreadable_primary_gives_no_monitors() {
    assert!(get_all_monitors(None, screen()).is_empty());
}

#[test]
fn rect_placement_wraps_extent() {
    let r = Rect { left: 10, top: 20, right: 110, bottom: 70 };
    assert_eq!(r.placement(), Placement { x: 10, y: 20, width: 100, height: 50 });
    let wide = Rect { left: i32::MIN, top: 0, right: i32::MAX, bottom: 0 };
    assert_eq!(wide.placement().width, -1);
}
