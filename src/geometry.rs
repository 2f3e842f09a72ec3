use vstd::prelude::*;

verus! {

/// A screen rectangle in the Win32 sense: edges, with `right` and `bottom` exclusive.
#[derive(Clone, Copy, Debug, PartialEq, Eq, Structural)]
pub struct Rect {
    pub left: i32,
    pub top: i32,
    pub right: i32,
    pub bottom: i32,
}

/// Origin and size, the form in which a window is moved and resized.
#[derive(Clone, Copy, Debug, PartialEq, Eq, Structural)]
pub struct Placement {
    pub x: i32,
    pub y: i32,
    pub width: i32,
    pub height: i32,
}

/// One entry of the monitor inventory.
#[derive(Clone, Copy, Debug, PartialEq, Eq, Structural)]
pub struct MonitorInfo {
    pub index: usize,
    pub x: i32,
    pub y: i32,
    pub width: i32,
    pub height: i32,
    pub is_primary: bool,
}

/// Two's-complement reduction of an integer into `i32`, as 32-bit window
/// coordinates behave.
pub open spec fn wrap_i32(v: int) -> i32 {
    if v > i32::MAX {
        (v - 0x1_0000_0000) as i32
    } else if v < i32::MIN {
        (v + 0x1_0000_0000) as i32
    } else {
        v as i32
    }
}

/// The placement that a rectangle describes: its top-left corner and its extent.
pub open spec fn rect_placement(r: Rect) -> Placement {
    Placement {
        x: r.left,
        y: r.top,
        width: wrap_i32(r.right - r.left),
        height: wrap_i32(r.bottom - r.top),
    }
}

/// The difference of two coordinates, reduced into `i32`.
fn extent(low: i32, high: i32) -> (r: i32)
    ensures
        r == wrap_i32(high - low),
{
    let d: i64 = high as i64 - low as i64;
    if d > i32::MAX as i64 {
        (d - 0x1_0000_0000i64) as i32
    } else if d < i32::MIN as i64 {
        (d + 0x1_0000_0000i64) as i32
    } else {
        d as i32
    }
}

impl Rect {
    /// Origin and size of this rectangle.
    pub fn placement(&self) -> (r: Placement)
        ensures
            r == rect_placement(*self),
    {
        Placement {
            x: self.left,
            y: self.top,
            width: extent(self.left, self.right),
            height: extent(self.top, self.bottom),
        }
    }
}

/// The monitor entry for a primary display whose bounds are `p`.
pub open spec fn primary_entry(p: Placement) -> MonitorInfo {
    MonitorInfo { index: 0, x: p.x, y: p.y, width: p.width, height: p.height, is_primary: true }
}

/// Whether the virtual screen reaches beyond the primary display, which
/// means that more than one display is attached.
pub open spec fn spans_several_displays(primary: Placement, screen: Placement) -> bool {
    screen.width > primary.width || screen.height > primary.height || screen.x < 0 || screen.y
        < 0
}

/// The monitor inventory for the primary display's rectangle (absent when it
/// could not be read) and the virtual screen's bounds.
pub open spec fn monitors_spec(primary: Option<Rect>, screen: Placement) -> Seq<MonitorInfo> {
    match primary {
        None => Seq::empty(),
        Some(r) => if spans_several_displays(rect_placement(r), screen) {
            seq![primary_entry(screen)]
        } else {
            seq![primary_entry(rect_placement(r))]
        },
    }
}

/// Builds the monitor inventory. The primary display comes first, as index 0;
/// where the virtual screen shows that several displays are attached, the
/// virtual screen's bounds stand for them as the one entry.
pub fn get_all_monitors(primary: Option<Rect>, screen: Placement) -> (r: Vec<MonitorInfo>)
    ensures
        r@ == monitors_spec(primary, screen),
        primary is Some ==> r@.len() >= 1 && exists|i: int|
            0 <= i < r@.len() && r@[i].is_primary && forall|j: int|
                0 <= j < r@.len() && j != i ==> !r@[j].is_primary,
        primary is None ==> r@.len() == 0,
{
    let mut monitors: Vec<MonitorInfo> = Vec::new();
    if let Some(rect) = primary {
        let p = rect.placement();
        let entry = if screen.width > p.width || screen.height > p.height || screen.x < 0
            || screen.y < 0 {
            MonitorInfo {
                index: 0,
                x: screen.x,
                y: screen.y,
                width: screen.width,
                height: screen.height,
                is_primary: true,
            }
        } else {
            MonitorInfo {
                index: 0,
                x: p.x,
                y: p.y,
                width: p.width,
                height: p.height,
                is_primary: true,
            }
        };
        monitors.push(entry);
        assert(monitors@ =~= monitors_spec(primary, screen));
        assert(monitors@[0].is_primary);
    } else {
        assert(monitors@ =~= monitors_spec(primary, screen));
    }
    monitors
}

} // verus!
