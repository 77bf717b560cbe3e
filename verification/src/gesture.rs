//! The gesture state machine: raw pointer and key events in, intents out.
//!
//! The machine owns the drag tracking and the pending click on the overlay.
//! Of the surfaces it only reads the last published state, and writes the
//! overlay's visibility where that cannot wait for the user-interface side.

use vstd::prelude::*;
use crate::geometry::{
    beyond_drag_threshold, direction_between, drag_direction, exceeds_drag_threshold,
    DragDirection, Point,
};
use crate::surface::OverlayState;

verus! {

/// Where a gesture stands.
#[derive(Clone, Copy, Debug, PartialEq, Eq, Structural)]
pub enum Phase {
    /// The left button is up.
    Idle,
    /// The left button is down and the pointer has stayed within the drag
    /// threshold of where it went down.
    Pressing,
    /// The left button is down and the pointer has been beyond the drag
    /// threshold at least once since.
    Dragging,
}

/// Drag tracking, owned by the listener alone.
#[derive(Clone, Copy, Debug, PartialEq, Eq, Structural)]
pub struct DragState {
    pub phase: Phase,
    /// Where the pointer was when the button last went down.
    pub start: Point,
    /// Where the pointer was last seen.
    pub last: Point,
}

/// One event of the global input stream.
#[derive(Clone, Copy, Debug, PartialEq, Eq, Structural)]
pub enum InputEvent {
    PointerMove(Point),
    LeftPress,
    LeftRelease,
    /// Any key going down: cancels whatever is shown.
    KeyPress,
}

/// What the machine asks of the user-interface side.
#[derive(Clone, Copy, Debug, PartialEq, Eq, Structural)]
pub enum Intent {
    /// Show the overlay for a drag released at `at`.
    ShowOverlay { at: Point, direction: DragDirection },
    HideOverlay,
    /// Open the floating panel for an overlay whose corner is at `anchor`.
    OpenFloatingPanel { anchor: Point },
    HideFloatingPanel,
}

/// The listener's whole state.
#[derive(Clone, Copy, Debug, PartialEq, Eq, Structural)]
pub struct GestureMachine {
    pub drag: DragState,
    /// Set by a press on the overlay, consumed by the next release.
    pub overlay_click_pending: bool,
}

impl DragState {
    /// Button up, pointer at the origin.
    pub open spec fn initial() -> DragState {
        DragState {
            phase: Phase::Idle,
            start: Point { x: 0, y: 0 },
            last: Point { x: 0, y: 0 },
        }
    }

    /// The left button is held.
    pub open spec fn pressed(&self) -> bool {
        self.phase != Phase::Idle
    }

    /// The held pointer has been beyond the drag threshold.
    pub open spec fn moved(&self) -> bool {
        self.phase == Phase::Dragging
    }

    /// Whether the left button is held.
    #[verifier::when_used_as_spec(pressed)]
    pub fn is_pressed(&self) -> (held: bool)
        ensures
            held == self.pressed(),
    {
        match self.phase {
            Phase::Idle => false,
            _ => true,
        }
    }

    /// Whether the held pointer has been beyond the drag threshold. Never
    /// true while the button is up.
    #[verifier::when_used_as_spec(moved)]
    pub fn has_moved(&self) -> (dragged: bool)
        ensures
            dragged == self.moved(),
            dragged ==> self.pressed(),
    {
        match self.phase {
            Phase::Dragging => true,
            _ => false,
        }
    }

    /// Tracking after the pointer was seen at `p`.
    pub open spec fn after_move(self, p: Point) -> DragState {
        DragState {
            phase: if self.phase == Phase::Pressing && beyond_drag_threshold(self.start, p) {
                Phase::Dragging
            } else {
                self.phase
            },
            start: self.start,
            last: p,
        }
    }

    /// Tracking after the button went down where the pointer was last seen.
    pub open spec fn after_press(self) -> DragState {
        DragState { phase: Phase::Pressing, start: self.last, last: self.last }
    }

    /// Tracking after the button went up, or after a press that the floating
    /// panel took for itself.
    pub open spec fn at_rest(self) -> DragState {
        DragState { phase: Phase::Idle, ..self }
    }
}

impl Default for DragState {
    fn default() -> (state: DragState)
        ensures
            state == DragState::initial(),
    {
        DragState {
            phase: Phase::Idle,
            start: Point { x: 0, y: 0 },
            last: Point { x: 0, y: 0 },
        }
    }
}

/// Whether a release in this situation ends a drag that shows the overlay:
/// no click on the overlay is pending, nothing is on screen, and the pointer
/// went beyond the threshold while held.
pub open spec fn release_shows_overlay(machine: GestureMachine, surfaces: OverlayState) -> bool {
    &&& !machine.overlay_click_pending
    &&& !surfaces.overlay_visible
    &&& !surfaces.floating_visible
    &&& machine.drag.phase == Phase::Dragging
}

/// Whether a press in this situation hides the overlay: the floating panel
/// does not take the press, and the overlay is visible elsewhere.
pub open spec fn press_hides_overlay(machine: GestureMachine, surfaces: OverlayState) -> bool {
    &&& !surfaces.floating_panel_covers(machine.drag.last)
    &&& surfaces.overlay_visible
    &&& !surfaces.overlay_covers(machine.drag.last)
}

/// Whether a press in this situation lands on the overlay.
pub open spec fn press_hits_overlay(machine: GestureMachine, surfaces: OverlayState) -> bool {
    &&& !surfaces.floating_panel_covers(machine.drag.last)
    &&& surfaces.overlay_covers(machine.drag.last)
}

/// The machine after `event`, given the surfaces as last published.
pub open spec fn machine_after(machine: GestureMachine, surfaces: OverlayState, event: InputEvent) -> GestureMachine {
    match event {
        InputEvent::PointerMove(p) => GestureMachine { drag: machine.drag.after_move(p), ..machine },
        InputEvent::LeftPress => if surfaces.floating_panel_covers(machine.drag.last) {
            GestureMachine { drag: machine.drag.at_rest(), ..machine }
        } else {
            GestureMachine {
                drag: machine.drag.after_press(),
                overlay_click_pending: machine.overlay_click_pending || press_hits_overlay(
                    machine,
                    surfaces,
                ),
            }
        },
        InputEvent::LeftRelease => GestureMachine {
            drag: machine.drag.at_rest(),
            overlay_click_pending: false,
        },
        InputEvent::KeyPress => GestureMachine { overlay_click_pending: false, ..machine },
    }
}

/// The surfaces as the machine leaves them after `event`: only the overlay's
/// visibility ever changes here, cleared by a press elsewhere and set by the
/// release that ends a drag.
pub open spec fn surfaces_after(machine: GestureMachine, surfaces: OverlayState, event: InputEvent) -> OverlayState {
    match event {
        InputEvent::LeftPress => if press_hides_overlay(machine, surfaces) {
            OverlayState { overlay_visible: false, ..surfaces }
        } else {
            surfaces
        },
        InputEvent::LeftRelease => if release_shows_overlay(machine, surfaces) {
            OverlayState { overlay_visible: true, ..surfaces }
        } else {
            surfaces
        },
        _ => surfaces,
    }
}

/// The intents that `event` gives rise to, in the order in which they are to
/// be carried out.
pub open spec fn intents_of(machine: GestureMachine, surfaces: OverlayState, event: InputEvent) -> Seq<Intent> {
    match event {
        InputEvent::PointerMove(_) => Seq::empty(),
        InputEvent::LeftPress => {
            let panel: Seq<Intent> = if surfaces.floating_visible
                && !surfaces.floating_panel_covers(machine.drag.last) {
                seq![Intent::HideFloatingPanel]
            } else {
                Seq::empty()
            };
            let overlay: Seq<Intent> = if press_hides_overlay(machine, surfaces) {
                seq![Intent::HideOverlay]
            } else {
                Seq::empty()
            };
            panel + overlay
        },
        InputEvent::LeftRelease => if machine.overlay_click_pending {
            seq![Intent::OpenFloatingPanel { anchor: surfaces.anchor() }, Intent::HideOverlay]
        } else if release_shows_overlay(machine, surfaces) {
            seq![
                Intent::ShowOverlay {
                    at: machine.drag.last,
                    direction: direction_between(
                        machine.drag.start.x as int,
                        machine.drag.last.x as int,
                    ),
                },
            ]
        } else {
            Seq::empty()
        },
        InputEvent::KeyPress => seq![Intent::HideOverlay, Intent::HideFloatingPanel],
    }
}

/// The machine after a run of pointer moves, first to last.
pub open spec fn after_moves(machine: GestureMachine, surfaces: OverlayState, moves: Seq<Point>) -> GestureMachine
    decreases moves.len(),
{
    if moves.len() == 0 {
        machine
    } else {
        machine_after(
            after_moves(machine, surfaces, moves.drop_last()),
            surfaces,
            InputEvent::PointerMove(moves.last()),
        )
    }
}

/// Whether one of `moves` lies beyond the drag threshold from `start`.
pub open spec fn some_move_beyond(start: Point, moves: Seq<Point>) -> bool {
    exists|i: int| 0 <= i < moves.len() && beyond_drag_threshold(start, #[trigger] moves[i])
}

/// Pointer moves leave the press point, the button and the pending click as
/// they are, and turn a held pointer into a dragging one exactly when one of
/// them lies beyond the threshold from the press point. While the button is
/// up no move makes the pointer count as dragged.
pub proof fn lemma_moves_track_threshold(machine: GestureMachine, surfaces: OverlayState, moves: Seq<Point>)
    ensures
        after_moves(machine, surfaces, moves).drag.start == machine.drag.start,
        after_moves(machine, surfaces, moves).overlay_click_pending
            == machine.overlay_click_pending,
        after_moves(machine, surfaces, moves).drag.pressed() == machine.drag.pressed(),
        after_moves(machine, surfaces, moves).drag.moved() <==> machine.drag.moved() || (
        machine.drag.pressed() && some_move_beyond(machine.drag.start, moves)),
        after_moves(machine, surfaces, moves).drag.last == if moves.len() == 0 {
            machine.drag.last
        } else {
            moves.last()
        },
    decreases moves.len(),
{
    if moves.len() > 0 {
        let earlier = moves.drop_last();
        lemma_moves_track_threshold(machine, surfaces, earlier);
        let start = machine.drag.start;
        if some_move_beyond(start, earlier) {
            let i = choose|i: int| 0 <= i < earlier.len() && beyond_drag_threshold(start, #[trigger] earlier[i]);
            assert(moves[i] == earlier[i]);
        }
        if beyond_drag_threshold(start, moves.last()) {
            assert(beyond_drag_threshold(start, moves[moves.len() - 1]));
        }
        if some_move_beyond(start, moves) {
            let i = choose|i: int| 0 <= i < moves.len() && beyond_drag_threshold(start, #[trigger] moves[i]);
            if i < earlier.len() {
                assert(earlier[i] == moves[i]);
            }
        }
    }
}

/// From a press that the floating panel does not take until the release,
/// the pointer counts as dragged exactly when it was seen strictly farther
/// than 5 units from the press point in between; in particular it does not
/// when every position in between lies within 5 units.
pub proof fn lemma_has_moved_at_release(machine: GestureMachine, surfaces: OverlayState, moves: Seq<Point>)
    requires
        !surfaces.floating_panel_covers(machine.drag.last),
    ensures
        ({
            let pressed = machine_after(machine, surfaces, InputEvent::LeftPress);
            let held = after_moves(pressed, surfaces_after(machine, surfaces, InputEvent::LeftPress), moves);
            &&& held.drag.start == machine.drag.last
            &&& held.drag.is_pressed()
            &&& held.drag.has_moved() <==> some_move_beyond(machine.drag.last, moves)
        }),
{
    lemma_moves_track_threshold(
        machine_after(machine, surfaces, InputEvent::LeftPress),
        surfaces_after(machine, surfaces, InputEvent::LeftPress),
        moves,
    );
}

/// A release always leaves the button up and no click pending, and a key
/// press leaves the drag tracking as it was.
pub proof fn lemma_release_and_key_press(machine: GestureMachine, surfaces: OverlayState)
    ensures
        !machine_after(machine, surfaces, InputEvent::LeftRelease).drag.is_pressed(),
        !machine_after(machine, surfaces, InputEvent::LeftRelease).drag.has_moved(),
        !machine_after(machine, surfaces, InputEvent::LeftRelease).overlay_click_pending,
        machine_after(machine, surfaces, InputEvent::KeyPress).drag == machine.drag,
        surfaces_after(machine, surfaces, InputEvent::KeyPress) == surfaces,
{
}

impl GestureMachine {
    /// Button up, pointer at the origin, no click pending.
    pub open spec fn initial() -> GestureMachine {
        GestureMachine { drag: DragState::initial(), overlay_click_pending: false }
    }

    /// A machine at rest.
    pub fn new() -> (machine: GestureMachine)
        ensures
            machine == GestureMachine::initial(),
    {
        GestureMachine { drag: DragState::default(), overlay_click_pending: false }
    }

    /// Takes one input event: updates the drag tracking, reads and where
    /// needed corrects the published surface state, and returns the intents
    /// for the user-interface side in the order in which they are to be
    /// carried out.
    pub fn handle_event(&mut self, surfaces: &mut OverlayState, event: InputEvent) -> (intents: Vec<Intent>)
        ensures
            *final(self) == machine_after(*old(self), *old(surfaces), event),
            *final(surfaces) == surfaces_after(*old(self), *old(surfaces), event),
            intents@ == intents_of(*old(self), *old(surfaces), event),
    {
        match event {
            InputEvent::PointerMove(p) => self.pointer_moved(p),
            InputEvent::LeftPress => self.left_pressed(surfaces),
            InputEvent::LeftRelease => self.left_released(surfaces),
            InputEvent::KeyPress => self.key_pressed(),
        }
    }

    /// The pointer was seen at `p`.
    fn pointer_moved(&mut self, p: Point) -> (intents: Vec<Intent>)
        ensures
            final(self).drag == old(self).drag.after_move(p),
            final(self).overlay_click_pending == old(self).overlay_click_pending,
            intents@ == Seq::<Intent>::empty(),
    {
        self.drag.last = p;
        match self.drag.phase {
            Phase::Pressing => {
                if exceeds_drag_threshold(self.drag.start, p) {
                    self.drag.phase = Phase::Dragging;
                }
            },
            _ => {},
        }
        Vec::new()
    }

    /// The left button went down where the pointer was last seen.
    fn left_pressed(&mut self, surfaces: &mut OverlayState) -> (intents: Vec<Intent>)
        ensures
            *final(self) == machine_after(*old(self), *old(surfaces), InputEvent::LeftPress),
            *final(surfaces) == surfaces_after(*old(self), *old(surfaces), InputEvent::LeftPress),
            intents@ == intents_of(*old(self), *old(surfaces), InputEvent::LeftPress),
    {
        let cursor: Point = self.drag.last;
        let mut intents: Vec<Intent> = Vec::new();
        if surfaces.hits_floating_panel(cursor) {
            self.drag.phase = Phase::Idle;
            return intents;
        }
        if surfaces.floating_visible {
            intents.push(Intent::HideFloatingPanel);
        }
        if surfaces.hits_overlay(cursor) {
            self.overlay_click_pending = true;
        } else if surfaces.overlay_visible {
            surfaces.overlay_visible = false;
            intents.push(Intent::HideOverlay);
        }
        self.drag.phase = Phase::Pressing;
        self.drag.start = cursor;
        intents
    }

    /// The left button went up.
    fn left_released(&mut self, surfaces: &mut OverlayState) -> (intents: Vec<Intent>)
        ensures
            *final(self) == machine_after(*old(self), *old(surfaces), InputEvent::LeftRelease),
            *final(surfaces) == surfaces_after(*old(self), *old(surfaces), InputEvent::LeftRelease),
            intents@ == intents_of(*old(self), *old(surfaces), InputEvent::LeftRelease),
    {
        let mut intents: Vec<Intent> = Vec::new();
        if self.overlay_click_pending {
            self.overlay_click_pending = false;
            let anchor: Point = surfaces.panel_anchor();
            intents.push(Intent::OpenFloatingPanel { anchor });
            intents.push(Intent::HideOverlay);
        } else if !surfaces.overlay_visible && !surfaces.floating_visible
            && self.drag.has_moved() {
            let direction: DragDirection = drag_direction(self.drag.start.x, self.drag.last.x);
            intents.push(Intent::ShowOverlay { at: self.drag.last, direction });
            surfaces.overlay_visible = true;
        }
        self.drag.phase = Phase::Idle;
        intents
    }

    /// A key went down.
    fn key_pressed(&mut self) -> (intents: Vec<Intent>)
        ensures
            final(self).drag == old(self).drag,
            !final(self).overlay_click_pending,
            intents@ == seq![Intent::HideOverlay, Intent::HideFloatingPanel],
    {
        self.overlay_click_pending = false;
        let mut intents: Vec<Intent> = Vec::new();
        intents.push(Intent::HideOverlay);
        intents.push(Intent::HideFloatingPanel);
        intents
    }
}

} // verus!
