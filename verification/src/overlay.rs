//! Centre-preserving overlay resize geometry.
//!
//! Positions and sizes are logical units, as integers; the windowing layer
//! converts its physical pixels to logical units before calling in. On each
//! resize the anchor centre is recomputed from the window's current
//! geometry, so a drag between two resizes relocates the anchor; the new
//! origin is then chosen so that the resized window keeps that centre.

use vstd::prelude::*;

verus! {

/// The smallest accepted overlay dimension, in logical units.
pub const MIN_OVERLAY_DIM: i64 = 48;

/// The largest meaningful dimension, in logical units.
pub const MAX_OVERLAY_DIM: i64 = 0x4000_0000;

/// The largest meaningful coordinate magnitude, in logical units.
pub const MAX_OVERLAY_COORD: i64 = 0x4000_0000_0000;

/// A window's outer geometry in logical units.
#[derive(Clone, Copy, Debug, PartialEq, Eq, Structural)]
pub struct WindowGeometry {
    pub x: i64,
    pub y: i64,
    pub width: i64,
    pub height: i64,
}

/// What the windowing layer reports about the overlay window before a
/// resize.
#[derive(Clone, Copy, Debug)]
pub enum OverlayWindowState {
    /// The overlay window does not currently exist.
    Missing,
    /// The window exists but its position or size could not be queried.
    PresentUnknown,
    /// The window exists with the given geometry.
    Present(WindowGeometry),
}

/// The calls a resize asks the windowing layer to perform, in order: the
/// new size first, then the new position.
#[derive(Clone, Copy, Debug)]
pub struct ResizeCommands {
    pub set_size: Option<(i64, i64)>,
    pub set_position: Option<(i64, i64)>,
}

/// A geometry within the meaningful coordinate and dimension ranges.
pub open spec fn geometry_wf(g: WindowGeometry) -> bool {
    &&& 0 <= g.width <= MAX_OVERLAY_DIM
    &&& 0 <= g.height <= MAX_OVERLAY_DIM
    &&& -MAX_OVERLAY_COORD <= g.x <= MAX_OVERLAY_COORD
    &&& -MAX_OVERLAY_COORD <= g.y <= MAX_OVERLAY_COORD
}

/// A requested dimension clamped to the minimum.
pub open spec fn clamp_dim(v: i64) -> i64 {
    if v < MIN_OVERLAY_DIM {
        MIN_OVERLAY_DIM
    } else {
        v
    }
}

/// The horizontal centre of a geometry, in logical units rounded down.
pub open spec fn center_x(g: WindowGeometry) -> int {
    g.x + g.width / 2
}

/// The vertical centre of a geometry, in logical units rounded down.
pub open spec fn center_y(g: WindowGeometry) -> int {
    g.y + g.height / 2
}

/// Plans one resize. The window missing is a silent no-op; a window with
/// unknown geometry is resized but not repositioned; a window with known
/// geometry is resized and then moved so that its centre stays at the
/// centre it had before the call.
pub fn plan_resize(window: &OverlayWindowState, requested_width: i64, requested_height: i64) -> (
    plan: ResizeCommands)
    requires
        requested_width <= MAX_OVERLAY_DIM,
        requested_height <= MAX_OVERLAY_DIM,
        window is Present ==> geometry_wf(window->Present_0),
    ensures
        window is Missing ==> plan.set_size is None && plan.set_position is None,
        !(window is Missing) ==> plan.set_size == Some(
            (clamp_dim(requested_width), clamp_dim(requested_height)),
        ),
        !(window is Missing) ==> MIN_OVERLAY_DIM <= (plan.set_size->Some_0).0
            && MIN_OVERLAY_DIM <= (plan.set_size->Some_0).1,
        window is PresentUnknown ==> plan.set_position is None,
        window is Present ==> plan.set_position is Some && (plan.set_position->Some_0).0
            == center_x(window->Present_0) - clamp_dim(requested_width) / 2 && (
        plan.set_position->Some_0).1 == center_y(window->Present_0) - clamp_dim(requested_height)
            / 2,
{
    let width = if requested_width < MIN_OVERLAY_DIM {
        MIN_OVERLAY_DIM
    } else {
        requested_width
    };
    let height = if requested_height < MIN_OVERLAY_DIM {
        MIN_OVERLAY_DIM
    } else {
        requested_height
    };
    match window {
        OverlayWindowState::Missing => ResizeCommands { set_size: None, set_position: None },
        OverlayWindowState::PresentUnknown => ResizeCommands {
            set_size: Some((width, height)),
            set_position: None,
        },
        OverlayWindowState::Present(g) => {
            let cx = g.x + g.width / 2;
            let cy = g.y + g.height / 2;
            let nx = cx - width / 2;
            let ny = cy - height / 2;
            ResizeCommands { set_size: Some((width, height)), set_position: Some((nx, ny)) }
        },
    }
}

/// The geometry the window has after the planned size and position were
/// applied and nothing moved it since.
pub open spec fn applied_resize(g: WindowGeometry, rw: i64, rh: i64) -> WindowGeometry {
    WindowGeometry {
        x: (center_x(g) - clamp_dim(rw) / 2) as i64,
        y: (center_y(g) - clamp_dim(rh) / 2) as i64,
        width: clamp_dim(rw),
        height: clamp_dim(rh),
    }
}

/// A geometry within the range that one resize step can reach from a
/// well-formed one: the origin may drift past the coordinate bound by at
/// most one dimension.
pub open spec fn geometry_in_reach(g: WindowGeometry) -> bool {
    &&& 0 <= g.width <= MAX_OVERLAY_DIM
    &&& 0 <= g.height <= MAX_OVERLAY_DIM
    &&& -MAX_OVERLAY_COORD - MAX_OVERLAY_DIM <= g.x <= MAX_OVERLAY_COORD + MAX_OVERLAY_DIM
    &&& -MAX_OVERLAY_COORD - MAX_OVERLAY_DIM <= g.y <= MAX_OVERLAY_COORD + MAX_OVERLAY_DIM
}

/// Law: a resize keeps the window's centre. Repositioning to the centre
/// computed before the call puts the centre of the resized window exactly
/// where it was, so a later resize that finds the window unmoved computes
/// the same anchor again.
pub proof fn lemma_resize_preserves_center(g: WindowGeometry, rw: i64, rh: i64)
    requires
        geometry_in_reach(g),
        rw <= MAX_OVERLAY_DIM,
        rh <= MAX_OVERLAY_DIM,
    ensures
        center_x(applied_resize(g, rw, rh)) == center_x(g),
        center_y(applied_resize(g, rw, rh)) == center_y(g),
{
    let cw = clamp_dim(rw);
    let ch = clamp_dim(rh);
    assert(0 <= cw / 2 <= MAX_OVERLAY_DIM / 2);
    assert(0 <= g.width / 2 <= MAX_OVERLAY_DIM / 2);
    assert(applied_resize(g, rw, rh).x == center_x(g) - cw / 2);
    assert(applied_resize(g, rw, rh).y == center_y(g) - ch / 2);
}

/// Law: two consecutive resizes with the window unmoved in between find
/// the same anchor centre both times.
pub proof fn lemma_consecutive_resizes_same_center(
    g: WindowGeometry,
    rw1: i64,
    rh1: i64,
    rw2: i64,
    rh2: i64,
)
    requires
        geometry_wf(g),
        rw1 <= MAX_OVERLAY_DIM,
        rh1 <= MAX_OVERLAY_DIM,
        rw2 <= MAX_OVERLAY_DIM,
        rh2 <= MAX_OVERLAY_DIM,
    ensures
        center_x(applied_resize(applied_resize(g, rw1, rh1), rw2, rh2)) == center_x(g),
        center_y(applied_resize(applied_resize(g, rw1, rh1), rw2, rh2)) == center_y(g),
{
    assert(geometry_in_reach(g));
    lemma_resize_preserves_center(g, rw1, rh1);
    let g2 = applied_resize(g, rw1, rh1);
    assert(0 <= clamp_dim(rw1) / 2 <= MAX_OVERLAY_DIM / 2);
    assert(0 <= clamp_dim(rh1) / 2 <= MAX_OVERLAY_DIM / 2);
    assert(0 <= g.width / 2 <= MAX_OVERLAY_DIM / 2);
    assert(0 <= g.height / 2 <= MAX_OVERLAY_DIM / 2);
    assert(geometry_in_reach(g2));
    lemma_resize_preserves_center(g2, rw2, rh2);
}

} // verus!
