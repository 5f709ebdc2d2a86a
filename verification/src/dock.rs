use vstd::prelude::*;

verus! {

/// A window rectangle in physical screen pixels: left and top edges
/// inclusive, right and bottom edges exclusive.
#[derive(PartialEq, Eq, Structural, Debug, Clone, Copy)]
pub struct Rect {
    pub left: i32,
    pub top: i32,
    pub right: i32,
    pub bottom: i32,
}

/// Horizontal gap, in physical pixels, between the Codex window's right edge
/// and the docked bar.
pub const DOCK_GAP: i32 = 10;

/// Smallest distance, in physical pixels, between the Codex window's top
/// edge and the docked bar's top edge.
pub const DOCK_MIN_TOP_OFFSET: i32 = 12;

/// Half of `v`, rounded toward zero.
pub open spec fn half_toward_zero(v: int) -> int {
    if v >= 0 {
        v / 2
    } else {
        -((-v) / 2)
    }
}

/// Width of a rectangle.
pub open spec fn width_of(rect: Rect) -> int {
    rect.right - rect.left
}

/// Height of a rectangle.
pub open spec fn height_of(rect: Rect) -> int {
    rect.bottom - rect.top
}

/// Offset of the docked bar's top edge below the Codex window's top edge:
/// the bar is centred vertically on the window, but its top never rises
/// above `DOCK_MIN_TOP_OFFSET` below the window's top.
pub open spec fn dock_top_offset(rect: Rect, bar_height: i32) -> int {
    let centred: int = half_toward_zero(height_of(rect) - bar_height);
    if centred >= DOCK_MIN_TOP_OFFSET {
        centred
    } else {
        DOCK_MIN_TOP_OFFSET as int
    }
}

/// Where the bar of height `bar_height` docks beside the Codex window
/// `rect`: `None` (the bar hides) for an empty window, else the top-left
/// corner `DOCK_GAP` pixels right of the window, at the top offset above.
pub open spec fn dock_target(rect: Rect, bar_height: i32) -> Option<(int, int)> {
    if width_of(rect) <= 0 || height_of(rect) <= 0 {
        None
    } else {
        Some((rect.right + DOCK_GAP, rect.top + dock_top_offset(rect, bar_height)))
    }
}

/// The docking arithmetic stays within `i32`: the window's width, height
/// and height less the bar's, and, for a non-empty window, the bar's
/// corner.
pub open spec fn dock_fits(rect: Rect, bar_height: i32) -> bool {
    &&& i32::MIN <= width_of(rect) <= i32::MAX
    &&& i32::MIN <= height_of(rect) <= i32::MAX
    &&& (width_of(rect) > 0 && height_of(rect) > 0) ==> {
        &&& rect.right + DOCK_GAP <= i32::MAX
        &&& i32::MIN <= height_of(rect) - bar_height <= i32::MAX
        &&& rect.top + dock_top_offset(rect, bar_height) <= i32::MAX
    }
}

/// Every coordinate of the window and the bar's height lie within
/// `-2^20..=2^20`: far beyond any real screen, on any side of the primary
/// monitor.
pub open spec fn screen_sized(rect: Rect, bar_height: i32) -> bool {
    &&& -0x100000 <= rect.left <= 0x100000
    &&& -0x100000 <= rect.top <= 0x100000
    &&& -0x100000 <= rect.right <= 0x100000
    &&& -0x100000 <= rect.bottom <= 0x100000
    &&& -0x100000 <= bar_height <= 0x100000
}

/// Whether docking beside `rect` stays within `i32` arithmetic.
pub fn dock_arithmetic_fits(rect: Rect, bar_height: i32) -> (r: bool)
    ensures
        r == dock_fits(rect, bar_height),
        screen_sized(rect, bar_height) ==> r,
{
    let width: i64 = rect.right as i64 - rect.left as i64;
    let height: i64 = rect.bottom as i64 - rect.top as i64;
    if width < i32::MIN as i64 || width > i32::MAX as i64 || height < i32::MIN as i64 || height
        > i32::MAX as i64 {
        return false;
    }
    if width <= 0 || height <= 0 {
        return true;
    }
    if rect.right as i64 + DOCK_GAP as i64 > i32::MAX as i64 {
        return false;
    }
    let spare: i64 = height - bar_height as i64;
    if spare < i32::MIN as i64 || spare > i32::MAX as i64 {
        return false;
    }
    let centred: i64 = spare / 2;
    let offset: i64 = if centred >= DOCK_MIN_TOP_OFFSET as i64 {
        centred
    } else {
        DOCK_MIN_TOP_OFFSET as i64
    };
    rect.top as i64 + offset <= i32::MAX as i64
}

/// Position of the bar docked beside the Codex window `rect` (physical
/// pixels), or `None` when the window is empty and the bar should hide.
pub fn docked_position(rect: Rect, bar_height: i32) -> (pos: Option<(i32, i32)>)
    requires
        dock_fits(rect, bar_height),
    ensures
        match pos {
            None => dock_target(rect, bar_height) is None,
            Some((x, y)) => dock_target(rect, bar_height) == Some((x as int, y as int)),
        },
{
    let codex_width: i32 = rect.right - rect.left;
    let codex_height: i32 = rect.bottom - rect.top;
    if codex_width <= 0 || codex_height <= 0 {
        return None;
    }
    let x: i32 = rect.right + DOCK_GAP;
    let centred: i32 = (codex_height - bar_height) / 2;
    let offset: i32 = if centred >= DOCK_MIN_TOP_OFFSET {
        centred
    } else {
        DOCK_MIN_TOP_OFFSET
    };
    let y: i32 = rect.top + offset;
    Some((x, y))
}

/// The bar hides exactly when the Codex window is empty, and otherwise docks
/// `DOCK_GAP` pixels right of the window's right edge and at least
/// `DOCK_MIN_TOP_OFFSET` pixels below its top edge.
pub proof fn lemma_dock_beside_window(rect: Rect, bar_height: i32)
    ensures
        dock_target(rect, bar_height) is None <==> (width_of(rect) <= 0 || height_of(rect) <= 0),
        dock_target(rect, bar_height) matches Some((x, y)) ==> x == rect.right + DOCK_GAP && x
            > rect.right && y >= rect.top + DOCK_MIN_TOP_OFFSET,
{
}

/// When the window leaves room for the bar and both margins, the bar is
/// centred on it: the space above the bar and the space below it differ by
/// at most one pixel.
pub proof fn lemma_dock_centred_when_room(rect: Rect, bar_height: i32)
    requires
        width_of(rect) > 0,
        bar_height >= 0,
        height_of(rect) - bar_height >= 2 * DOCK_MIN_TOP_OFFSET,
    ensures
        dock_target(rect, bar_height) matches Some((x, y)) && {
            let above = y - rect.top;
            let below = rect.bottom - (y + bar_height);
            above <= below <= above + 1
        },
{
}

/// What the docking loop observed of the foreground window at one tick.
#[derive(PartialEq, Eq, Structural, Debug, Clone, Copy)]
pub struct ForegroundWindow {
    /// The window is visible.
    pub visible: bool,
    /// The window is minimized.
    pub minimized: bool,
    /// The window belongs to the Codex desktop app.
    pub is_codex: bool,
    /// The window's rectangle, when it could be read.
    pub rect: Option<Rect>,
}

/// What the docking loop does with the bar at one tick.
#[derive(PartialEq, Eq, Structural, Debug, Clone, Copy)]
pub enum DockAction {
    /// Hide the bar.
    Hide,
    /// Leave the bar as it is (its own size could not be read).
    Keep,
    /// Move the bar's top-left corner here (physical pixels) and show it.
    MoveTo(i32, i32),
    /// The docked position does not fit in `i32` pixel coordinates.
    Overflow,
}

/// The rectangle of the Codex window the bar docks to: present only when
/// there is a foreground window that is visible, not minimized, belongs to
/// Codex and whose rectangle could be read.
pub open spec fn codex_rect(foreground: Option<ForegroundWindow>) -> Option<Rect> {
    match foreground {
        Some(w) => if w.visible && !w.minimized && w.is_codex {
            w.rect
        } else {
            None
        },
        None => None,
    }
}

/// The action for one tick of the docking loop, given the foreground window
/// (`None` when there is none) and the bar's own height (`None` when it could
/// not be read).
pub open spec fn dock_action_for(
    foreground: Option<ForegroundWindow>,
    bar_height: Option<i32>,
) -> DockAction {
    match codex_rect(foreground) {
        None => DockAction::Hide,
        Some(rect) => match bar_height {
            None => DockAction::Keep,
            Some(h) => if !dock_fits(rect, h) {
                DockAction::Overflow
            } else {
                match dock_target(rect, h) {
                    None => DockAction::Hide,
                    Some((x, y)) => DockAction::MoveTo(x as i32, y as i32),
                }
            },
        },
    }
}

/// Decide one tick of the docking loop.
pub fn dock_step(foreground: Option<ForegroundWindow>, bar_height: Option<i32>) -> (action: DockAction)
    ensures
        action == dock_action_for(foreground, bar_height),
        (match (foreground, bar_height) {
            (Some(w), Some(h)) => match w.rect {
                Some(rect) => w.visible && !w.minimized && w.is_codex && rect.right > rect.left
                    && rect.bottom > rect.top && screen_sized(rect, h) ==> {
                    let spare = (rect.bottom - rect.top) - h;
                    let half = if spare >= 0 {
                        spare / 2
                    } else {
                        -((-spare) / 2)
                    };
                    let offset = if half >= 12 {
                        half
                    } else {
                        12
                    };
                    action == DockAction::MoveTo(
                        (rect.right + 10) as i32,
                        (rect.top + offset) as i32,
                    )
                },
                None => true,
            },
            _ => true,
        }),
{
    let rect: Rect = match foreground {
        Some(w) => {
            if !w.visible || w.minimized || !w.is_codex {
                return DockAction::Hide;
            }
            match w.rect {
                Some(r) => r,
                None => {
                    return DockAction::Hide;
                },
            }
        },
        None => {
            return DockAction::Hide;
        },
    };
    let height: i32 = match bar_height {
        Some(h) => h,
        None => {
            return DockAction::Keep;
        },
    };
    if !dock_arithmetic_fits(rect, height) {
        return DockAction::Overflow;
    }
    match docked_position(rect, height) {
        None => DockAction::Hide,
        Some((x, y)) => DockAction::MoveTo(x, y),
    }
}

/// The bar hides whenever Codex is not the usable foreground window: no
/// foreground window, or one that is invisible, minimized, not Codex, or
/// without a readable rectangle.
pub proof fn lemma_hides_unless_codex_foreground(
    foreground: Option<ForegroundWindow>,
    bar_height: Option<i32>,
)
    requires
        match foreground {
            None => true,
            Some(w) => !w.visible || w.minimized || !w.is_codex || w.rect is None,
        },
    ensures
        dock_action_for(foreground, bar_height) == DockAction::Hide,
{
}

/// Every screen-sized window fits the docking arithmetic, negative
/// coordinates (monitors left of or above the primary one) included.
pub proof fn lemma_screen_sized_fits(rect: Rect, bar_height: i32)
    requires
        screen_sized(rect, bar_height),
    ensures
        dock_fits(rect, bar_height),
{
}

/// For a usable Codex foreground window of screen size and the bar's
/// measured height `h`, the bar moves 10 pixels right of the window's right
/// edge, with its top at the window's top plus half the spare height
/// (rounded toward zero) but never less than 12; when the window leaves room
/// for the bar and both 12-pixel margins, the space above the bar and the
/// space below it differ by at most one pixel.
pub proof fn lemma_dock_step_centres_measured_bar(w: ForegroundWindow, rect: Rect, h: i32)
    requires
        w.visible,
        !w.minimized,
        w.is_codex,
        w.rect == Some(rect),
        rect.right > rect.left,
        rect.bottom > rect.top,
        screen_sized(rect, h),
    ensures
        ({
            let spare = (rect.bottom - rect.top) - h;
            let half = if spare >= 0 {
                spare / 2
            } else {
                -((-spare) / 2)
            };
            let offset = if half >= 12 {
                half
            } else {
                12
            };
            dock_action_for(Some(w), Some(h)) == DockAction::MoveTo(
                (rect.right + 10) as i32,
                (rect.top + offset) as i32,
            )
        }),
        h >= 0 && (rect.bottom - rect.top) - h >= 24 ==> (dock_action_for(Some(w), Some(h)) matches DockAction::MoveTo(x, y) && {
            let above = y - rect.top;
            let below = rect.bottom - (y + h);
            above <= below <= above + 1
        }),
{
}

/// The bar is only ever shown docked beside a visible, non-minimized Codex
/// window: `DOCK_GAP` right of its right edge, at least
/// `DOCK_MIN_TOP_OFFSET` below its top.
pub proof fn lemma_moves_only_beside_codex(
    foreground: Option<ForegroundWindow>,
    bar_height: Option<i32>,
)
    ensures
        dock_action_for(foreground, bar_height) matches DockAction::MoveTo(x, y) ==> {
            &&& foreground matches Some(w)
            &&& w.visible && !w.minimized && w.is_codex
            &&& w.rect matches Some(rect)
            &&& x == rect.right + DOCK_GAP
            &&& y >= rect.top + DOCK_MIN_TOP_OFFSET
        },
{
}

} // verus!
