//! The published state of the two transient surfaces, and the operations
//! that show, hide and place them.
//!
//! The operations here decide where a surface goes and record what was
//! published; moving the actual window is left to the caller, who is handed
//! the geometry to apply. Every operation can be repeated without effect
//! beyond the first, and none depends on the window existing.

use vstd::prelude::*;
use crate::geometry::{
    floating_panel_bounds, floating_panel_bounds_of, overlay_position, overlay_position_of,
    DragDirection, Point, Rect, Size, DEFAULT_ANCHOR_X, DEFAULT_ANCHOR_Y, OVERLAY_SIZE,
};

verus! {

/// The two transient surfaces.
#[derive(Clone, Copy, Debug, PartialEq, Eq, Structural)]
pub enum Surface {
    /// The small square control shown where a drag ended.
    Overlay,
    /// The panel of presets opened by clicking the overlay.
    FloatingPanel,
}

/// What the listener and the user-interface side share about the surfaces.
///
/// `visible == false` is authoritative: geometry left over from an earlier
/// showing is ignored while a surface is hidden.
#[derive(Clone, Copy, Debug, PartialEq, Eq)]
pub struct OverlayState {
    /// Top-left corner at which the overlay was last placed.
    pub overlay_position: Option<Point>,
    pub overlay_visible: bool,
    /// Rectangle in which the floating panel was last shown; absent while it
    /// is hidden.
    pub floating_bounds: Option<Rect>,
    pub floating_visible: bool,
}

/// How a surface's window is created. Both windows start at the screen's
/// origin, hidden, always on top, undecorated, transparent, not resizable
/// and kept off the taskbar.
#[derive(Clone, Copy, Debug, PartialEq, Eq)]
pub struct SurfaceConfig {
    pub surface: Surface,
    /// Name under which the window is registered and looked up.
    pub label: &'static str,
    pub title: &'static str,
    /// Page that the window displays.
    pub page: &'static str,
    pub size: Size,
    /// Where the window is created; it is moved before it is first shown.
    pub position: Point,
    /// Whether the window's minimum and maximum extent are pinned to `size`.
    pub fixed_size: bool,
    pub visible: bool,
    pub always_on_top: bool,
    pub decorations: bool,
    pub transparent: bool,
    pub resizable: bool,
    pub skip_taskbar: bool,
}

/// Name under which a surface's window is registered.
pub open spec fn label_of(surface: Surface) -> Seq<char> {
    match surface {
        Surface::Overlay => "overlay"@,
        Surface::FloatingPanel => "floating_panel"@,
    }
}

/// Title of a surface's window.
pub open spec fn title_of(surface: Surface) -> Seq<char> {
    match surface {
        Surface::Overlay => "Overlay"@,
        Surface::FloatingPanel => "GoBuddy Quick Panel"@,
    }
}

/// Page that a surface's window displays.
pub open spec fn page_of(surface: Surface) -> Seq<char> {
    match surface {
        Surface::Overlay => "overlay.html"@,
        Surface::FloatingPanel => "floating-window.html"@,
    }
}

/// Extent with which a surface's window is created, given the configured
/// extent of the floating panel.
pub open spec fn extent_of(surface: Surface, panel: Size) -> Size {
    match surface {
        Surface::Overlay => (Size { width: OVERLAY_SIZE, height: OVERLAY_SIZE }),
        Surface::FloatingPanel => panel,
    }
}

impl SurfaceConfig {
    /// Whether these are the creation parameters of `surface`'s window.
    pub open spec fn describes(self, surface: Surface, panel: Size) -> bool {
        &&& self.surface == surface
        &&& self.label@ == label_of(surface)
        &&& self.title@ == title_of(surface)
        &&& self.page@ == page_of(surface)
        &&& self.size == extent_of(surface, panel)
        &&& self.position == (Point { x: 0, y: 0 })
        &&& self.fixed_size == (surface is Overlay)
        &&& !self.visible
        &&& self.always_on_top
        &&& !self.decorations
        &&& self.transparent
        &&& !self.resizable
        &&& self.skip_taskbar
    }
}

/// Name under which a surface's window is registered.
pub fn surface_label(surface: Surface) -> (label: &'static str)
    ensures
        label@ == label_of(surface),
{
    match surface {
        Surface::Overlay => "overlay",
        Surface::FloatingPanel => "floating_panel",
    }
}

/// The creation parameters of a surface's window.
pub fn surface_config(surface: Surface, panel: Size) -> (config: SurfaceConfig)
    ensures
        config.describes(surface, panel),
{
    match surface {
        Surface::Overlay => SurfaceConfig {
            surface,
            label: surface_label(surface),
            title: "Overlay",
            page: "overlay.html",
            size: Size { width: OVERLAY_SIZE, height: OVERLAY_SIZE },
            position: Point { x: 0, y: 0 },
            fixed_size: true,
            visible: false,
            always_on_top: true,
            decorations: false,
            transparent: true,
            resizable: false,
            skip_taskbar: true,
        },
        Surface::FloatingPanel => SurfaceConfig {
            surface,
            label: surface_label(surface),
            title: "GoBuddy Quick Panel",
            page: "floating-window.html",
            size: panel,
            position: Point { x: 0, y: 0 },
            fixed_size: false,
            visible: false,
            always_on_top: true,
            decorations: false,
            transparent: true,
            resizable: false,
            skip_taskbar: true,
        },
    }
}

/// What is left to do to have a surface's window: nothing when it is
/// already there, else to create it with the returned parameters.
pub fn ensure_surface(surface: Surface, materialized: bool, panel: Size) -> (todo: Option<SurfaceConfig>)
    ensures
        materialized ==> todo is None,
        !materialized ==> todo is Some && todo->Some_0.describes(surface, panel),
{
    if materialized {
        None
    } else {
        Some(surface_config(surface, panel))
    }
}

impl OverlayState {
    /// The state in which nothing was ever shown.
    pub open spec fn hidden() -> OverlayState {
        OverlayState {
            overlay_position: None,
            overlay_visible: false,
            floating_bounds: None,
            floating_visible: false,
        }
    }

    /// The state after the overlay was shown for a drag released at `point`.
    pub open spec fn with_overlay_at(self, point: Point, direction: DragDirection, screen: Size) -> OverlayState {
        OverlayState {
            overlay_position: Some(overlay_position_of(point, direction, screen)),
            overlay_visible: true,
            ..self
        }
    }

    /// The state after the floating panel was shown near `anchor`.
    pub open spec fn with_floating_panel_near(self, anchor: Point, panel: Size, screen: Size) -> OverlayState {
        OverlayState {
            floating_bounds: Some(floating_panel_bounds_of(anchor, panel, screen)),
            floating_visible: true,
            ..self
        }
    }

    /// The state after the overlay was hidden. Its last position stays.
    pub open spec fn without_overlay(self) -> OverlayState {
        OverlayState { overlay_visible: false, ..self }
    }

    /// The state after the floating panel was hidden.
    pub open spec fn without_floating_panel(self) -> OverlayState {
        OverlayState { floating_visible: false, floating_bounds: None, ..self }
    }

    /// Whether a press at `p` lands on the floating panel: it is visible, its
    /// bounds are known, and they cover `p`.
    pub open spec fn floating_panel_covers(self, p: Point) -> bool {
        &&& self.floating_visible
        &&& self.floating_bounds matches Some(bounds)
        &&& bounds.covers(p)
    }

    /// Whether a press at `p` lands on the overlay: it is visible, its
    /// position is known, and the 32 by 32 square there covers `p`.
    pub open spec fn overlay_covers(self, p: Point) -> bool {
        &&& self.overlay_visible
        &&& self.overlay_position matches Some(position)
        &&& crate::geometry::overlay_bounds_of(position).covers(p)
    }

    /// The anchor handed to the floating panel: where the overlay was last
    /// placed, or (200, 200) where it never was.
    pub open spec fn anchor(self) -> Point {
        match self.overlay_position {
            Some(position) => position,
            None => (Point { x: DEFAULT_ANCHOR_X, y: DEFAULT_ANCHOR_Y }),
        }
    }

    /// The anchor to open the floating panel at.
    pub fn panel_anchor(&self) -> (anchor: Point)
        ensures
            anchor == self.anchor(),
    {
        match self.overlay_position {
            Some(position) => position,
            None => Point { x: DEFAULT_ANCHOR_X, y: DEFAULT_ANCHOR_Y },
        }
    }

    /// Neither surface shown, no geometry known.
    pub fn new() -> (state: OverlayState)
        ensures
            state == OverlayState::hidden(),
    {
        OverlayState {
            overlay_position: None,
            overlay_visible: false,
            floating_bounds: None,
            floating_visible: false,
        }
    }

    /// Hit test of `p` against the floating panel.
    pub fn hits_floating_panel(&self, p: Point) -> (hit: bool)
        ensures
            hit == self.floating_panel_covers(p),
    {
        if !self.floating_visible {
            return false;
        }
        match self.floating_bounds {
            Some(bounds) => bounds.contains(p),
            None => false,
        }
    }

    /// Hit test of `p` against the overlay.
    pub fn hits_overlay(&self, p: Point) -> (hit: bool)
        ensures
            hit == self.overlay_covers(p),
    {
        if !self.overlay_visible {
            return false;
        }
        match self.overlay_position {
            Some(position) => crate::geometry::overlay_bounds(position).contains(p),
            None => false,
        }
    }

    /// Shows the overlay for a drag released at `point`: publishes the
    /// placed position and `visible`, and returns the position for the
    /// window.
    pub fn show_overlay_at(&mut self, point: Point, direction: DragDirection, screen: Size) -> (placed: Point)
        ensures
            *final(self) == old(self).with_overlay_at(point, direction, screen),
            placed == overlay_position_of(point, direction, screen),
    {
        let placed: Point = overlay_position(point, direction, screen);
        self.overlay_position = Some(placed);
        self.overlay_visible = true;
        placed
    }

    /// Shows the floating panel near `anchor`: publishes its bounds and
    /// `visible`, and returns the bounds for the window.
    pub fn show_floating_panel_near(&mut self, anchor: Point, panel: Size, screen: Size) -> (bounds: Rect)
        ensures
            *final(self) == old(self).with_floating_panel_near(anchor, panel, screen),
            bounds == floating_panel_bounds_of(anchor, panel, screen),
    {
        let bounds: Rect = floating_panel_bounds(anchor, panel, screen);
        self.floating_bounds = Some(bounds);
        self.floating_visible = true;
        bounds
    }

    /// Publishes that the overlay is hidden.
    pub fn hide_overlay(&mut self)
        ensures
            *final(self) == old(self).without_overlay(),
    {
        self.overlay_visible = false;
    }

    /// Publishes that the floating panel is hidden and forgets its bounds.
    pub fn hide_floating_panel(&mut self)
        ensures
            *final(self) == old(self).without_floating_panel(),
    {
        self.floating_visible = false;
        self.floating_bounds = None;
    }
}

} // verus!
