//! The boundary between the gesture machine and the user-interface side:
//! each intent becomes an update of the published surface state and the
//! window actions that go with it.
//!
//! The caller carries the returned actions out in order, after the input
//! event that caused them has been handled, and goes on whether or not a
//! window call fails: the published state is what later events are judged
//! by.

use vstd::prelude::*;
use crate::geometry::{
    clamp, floating_panel_bounds_of, overlay_bounds, overlay_bounds_of, overlay_position_of,
    Point, Rect, Size,
};
use crate::gesture::{
    after_moves, intents_of, machine_after, surfaces_after, GestureMachine, InputEvent, Intent,
    Phase,
};
use crate::presets::PersistedState;
use crate::store::PersistedStateError;
use crate::surface::{OverlayState, Surface};

verus! {

/// Name of the event on which the persisted state is broadcast.
pub const PRESETS_STATE_EVENT: &'static str = "presets-state";

/// One thing for the user-interface side to do.
#[derive(Clone, Copy, Debug, PartialEq, Eq, Structural)]
pub enum UiAction {
    /// Have the surface's window, give it this extent and position, keep it
    /// on top and show it.
    Place { surface: Surface, bounds: Rect },
    /// Hide the surface's window if there is one.
    Hide { surface: Surface },
    /// Send the current persisted state to every listener.
    BroadcastState,
}

/// The published state after `intent` was carried out.
pub open spec fn surfaces_after_intent(surfaces: OverlayState, intent: Intent, panel: Size, screen: Size) -> OverlayState {
    match intent {
        Intent::ShowOverlay { at, direction } => surfaces.with_overlay_at(at, direction, screen),
        Intent::HideOverlay => surfaces.without_overlay(),
        Intent::OpenFloatingPanel { anchor } => surfaces.with_floating_panel_near(
            anchor,
            panel,
            screen,
        ),
        Intent::HideFloatingPanel => surfaces.without_floating_panel(),
    }
}

/// The window actions that carry `intent` out. Opening the floating panel
/// is followed by a broadcast, so that the panel shows the presets as they
/// are at that moment.
pub open spec fn actions_for(intent: Intent, panel: Size, screen: Size) -> Seq<UiAction> {
    match intent {
        Intent::ShowOverlay { at, direction } => seq![
            UiAction::Place {
                surface: Surface::Overlay,
                bounds: overlay_bounds_of(overlay_position_of(at, direction, screen)),
            },
        ],
        Intent::HideOverlay => seq![UiAction::Hide { surface: Surface::Overlay }],
        Intent::OpenFloatingPanel { anchor } => seq![
            UiAction::Place {
                surface: Surface::FloatingPanel,
                bounds: floating_panel_bounds_of(anchor, panel, screen),
            },
            UiAction::BroadcastState,
        ],
        Intent::HideFloatingPanel => seq![UiAction::Hide { surface: Surface::FloatingPanel }],
    }
}

/// The published state after `intents` were carried out, first to last.
pub open spec fn surfaces_after_intents(surfaces: OverlayState, intents: Seq<Intent>, panel: Size, screen: Size) -> OverlayState
    decreases intents.len(),
{
    if intents.len() == 0 {
        surfaces
    } else {
        surfaces_after_intent(
            surfaces_after_intents(surfaces, intents.drop_last(), panel, screen),
            intents.last(),
            panel,
            screen,
        )
    }
}

/// The window actions that carry `intents` out, first to last.
pub open spec fn actions_for_all(intents: Seq<Intent>, panel: Size, screen: Size) -> Seq<UiAction>
    decreases intents.len(),
{
    if intents.len() == 0 {
        Seq::empty()
    } else {
        actions_for_all(intents.drop_last(), panel, screen) + actions_for(
            intents.last(),
            panel,
            screen,
        )
    }
}

/// Carries one intent out on the published state and returns the window
/// actions that go with it. `panel` is the configured extent of the floating
/// panel, `screen` the extent of the primary display.
pub fn dispatch(surfaces: &mut OverlayState, intent: Intent, panel: Size, screen: Size) -> (actions: Vec<UiAction>)
    ensures
        *final(surfaces) == surfaces_after_intent(*old(surfaces), intent, panel, screen),
        actions@ == actions_for(intent, panel, screen),
{
    let mut actions: Vec<UiAction> = Vec::new();
    match intent {
        Intent::ShowOverlay { at, direction } => {
            let placed: Point = surfaces.show_overlay_at(at, direction, screen);
            actions.push(UiAction::Place { surface: Surface::Overlay, bounds: overlay_bounds(placed) });
        },
        Intent::HideOverlay => {
            surfaces.hide_overlay();
            actions.push(UiAction::Hide { surface: Surface::Overlay });
        },
        Intent::OpenFloatingPanel { anchor } => {
            let bounds: Rect = surfaces.show_floating_panel_near(anchor, panel, screen);
            actions.push(UiAction::Place { surface: Surface::FloatingPanel, bounds });
            actions.push(UiAction::BroadcastState);
        },
        Intent::HideFloatingPanel => {
            surfaces.hide_floating_panel();
            actions.push(UiAction::Hide { surface: Surface::FloatingPanel });
        },
    }
    actions
}

/// Carries the intents of one input event out, in their order.
pub fn dispatch_all(surfaces: &mut OverlayState, intents: &Vec<Intent>, panel: Size, screen: Size) -> (actions: Vec<UiAction>)
    ensures
        *final(surfaces) == surfaces_after_intents(*old(surfaces), intents@, panel, screen),
        actions@ == actions_for_all(intents@, panel, screen),
{
    let ghost before = *surfaces;
    let mut actions: Vec<UiAction> = Vec::new();
    let mut i: usize = 0;
    while i < intents.len()
        invariant
            i <= intents.len(),
            *surfaces == surfaces_after_intents(before, intents@.take(i as int), panel, screen),
            actions@ == actions_for_all(intents@.take(i as int), panel, screen),
        decreases intents.len() - i,
    {
        let mut step: Vec<UiAction> = dispatch(surfaces, intents[i], panel, screen);
        actions.append(&mut step);
        proof {
            let upto = intents@.take(i as int + 1);
            assert(upto.drop_last() == intents@.take(i as int));
            assert(upto.last() == intents@[i as int]);
        }
        i += 1;
    }
    proof {
        assert(intents@.take(intents.len() as int) == intents@);
    }
    actions
}

/// What follows a save: a broadcast of the state where it succeeded, nothing
/// where it failed.
pub fn after_save(outcome: &Result<PersistedState, PersistedStateError>) -> (actions: Vec<UiAction>)
    ensures
        actions@ == if outcome is Ok {
            seq![UiAction::BroadcastState]
        } else {
            Seq::<UiAction>::empty()
        },
{
    let mut actions: Vec<UiAction> = Vec::new();
    if outcome.is_ok() {
        actions.push(UiAction::BroadcastState);
    }
    actions
}

/// Where the overlay ends up after a drag: released at `(x, y)` with nothing
/// on screen and no click pending, the release asks for the overlay there,
/// and carrying that out publishes it as visible at `(x + 10, y + 10)`, or at
/// `(x - 50, y + 10)` where the release lies to the left of the press,
/// limited to `[0, screen.width - 32]` by `[0, screen.height - 32]`; on a
/// screen narrower or lower than the overlay the coordinate is 0.
pub proof fn lemma_drag_release_places_overlay(machine: GestureMachine, surfaces: OverlayState, panel: Size, screen: Size)
    requires
        machine.drag.phase == Phase::Dragging,
        !machine.overlay_click_pending,
        !surfaces.overlay_visible,
        !surfaces.floating_visible,
    ensures
        ({
            let release = machine.drag.last;
            let intents = intents_of(machine, surfaces, InputEvent::LeftRelease);
            let published = surfaces_after_intents(
                surfaces_after(machine, surfaces, InputEvent::LeftRelease),
                intents,
                panel,
                screen,
            );
            let shift: int = if release.x < machine.drag.start.x {
                -50
            } else {
                10
            };
            let room_x: int = if screen.width >= 32 {
                screen.width - 32
            } else {
                0
            };
            let room_y: int = if screen.height >= 32 {
                screen.height - 32
            } else {
                0
            };
            &&& intents.len() == 1
            &&& intents[0] matches Intent::ShowOverlay { at, .. } && at == release
            &&& surfaces_after(machine, surfaces, InputEvent::LeftRelease).overlay_visible
            &&& published.overlay_visible
            &&& published.overlay_position matches Some(placed) && {
                &&& placed.x == clamp(release.x + shift, 0, room_x)
                &&& placed.y == clamp(release.y + 10, 0, room_y)
            }
            &&& published.floating_visible == surfaces.floating_visible
            &&& published.floating_bounds == surfaces.floating_bounds
        }),
{
    let intents = intents_of(machine, surfaces, InputEvent::LeftRelease);
    assert(intents.drop_last() =~= Seq::<Intent>::empty());
    reveal_with_fuel(surfaces_after_intents, 2);
}

/// A click on the overlay opens the floating panel: with the overlay
/// visible at `(ox, oy)`, the floating panel hidden and no click pending, a
/// press within `[ox, ox + 32]` by `[oy, oy + 32]`, any pointer moves, and the
/// release ask for the panel anchored at `(ox, oy)` and then for the overlay
/// to be hidden; carrying both out leaves the panel visible with its bounds
/// known and the overlay hidden.
pub proof fn lemma_overlay_click_opens_panel(
    machine: GestureMachine,
    surfaces: OverlayState,
    moves: Seq<Point>,
    panel: Size,
    screen: Size,
)
    requires
        surfaces.overlay_visible,
        !surfaces.floating_visible,
        surfaces.overlay_position matches Some(corner) && {
            &&& corner.x <= machine.drag.last.x <= corner.x + 32
            &&& corner.y <= machine.drag.last.y <= corner.y + 32
        },
    ensures
        ({
            let corner = surfaces.overlay_position->Some_0;
            let pressed = machine_after(machine, surfaces, InputEvent::LeftPress);
            let shown = surfaces_after(machine, surfaces, InputEvent::LeftPress);
            let held = after_moves(pressed, shown, moves);
            let intents = intents_of(held, shown, InputEvent::LeftRelease);
            let published = surfaces_after_intents(
                surfaces_after(held, shown, InputEvent::LeftRelease),
                intents,
                panel,
                screen,
            );
            &&& intents_of(machine, surfaces, InputEvent::LeftPress) == Seq::<Intent>::empty()
            &&& shown == surfaces
            &&& intents == seq![Intent::OpenFloatingPanel { anchor: corner }, Intent::HideOverlay]
            &&& !published.overlay_visible
            &&& published.floating_visible
            &&& published.floating_bounds == Some(floating_panel_bounds_of(corner, panel, screen))
            &&& actions_for_all(intents, panel, screen) == seq![
                UiAction::Place {
                    surface: Surface::FloatingPanel,
                    bounds: floating_panel_bounds_of(corner, panel, screen),
                },
                UiAction::BroadcastState,
                UiAction::Hide { surface: Surface::Overlay },
            ]
        }),
{
    let corner = surfaces.overlay_position->Some_0;
    let pressed = machine_after(machine, surfaces, InputEvent::LeftPress);
    let shown = surfaces_after(machine, surfaces, InputEvent::LeftPress);
    crate::gesture::lemma_moves_track_threshold(pressed, shown, moves);
    let held = after_moves(pressed, shown, moves);
    assert(held.overlay_click_pending);
    let intents = intents_of(held, shown, InputEvent::LeftRelease);
    assert(intents =~= seq![Intent::OpenFloatingPanel { anchor: corner }, Intent::HideOverlay]);
    assert(intents.drop_last() =~= seq![Intent::OpenFloatingPanel { anchor: corner }]);
    assert(intents.drop_last().drop_last() =~= Seq::<Intent>::empty());
    reveal_with_fuel(surfaces_after_intents, 3);
    reveal_with_fuel(actions_for_all, 3);
    assert(intents_of(machine, surfaces, InputEvent::LeftPress) =~= Seq::<Intent>::empty());
}

/// A press elsewhere dismisses the overlay: with the overlay visible, the
/// floating panel hidden and no click pending, a press outside the
/// overlay's square asks for the overlay to be hidden and for nothing else,
/// marks it hidden at once, and whatever the pointer does until the release,
/// the release does not ask for the floating panel.
pub proof fn lemma_press_elsewhere_hides_overlay(
    machine: GestureMachine,
    surfaces: OverlayState,
    moves: Seq<Point>,
)
    requires
        surfaces.overlay_visible,
        !surfaces.floating_visible,
        !machine.overlay_click_pending,
        !surfaces.overlay_covers(machine.drag.last),
    ensures
        ({
            let pressed = machine_after(machine, surfaces, InputEvent::LeftPress);
            let shown = surfaces_after(machine, surfaces, InputEvent::LeftPress);
            let held = after_moves(pressed, shown, moves);
            let intents = intents_of(held, shown, InputEvent::LeftRelease);
            &&& intents_of(machine, surfaces, InputEvent::LeftPress) == seq![Intent::HideOverlay]
            &&& !shown.overlay_visible
            &&& !shown.floating_visible
            &&& forall|i: int| 0 <= i < intents.len() ==> !(#[trigger] intents[i] is OpenFloatingPanel)
        }),
{
    let pressed = machine_after(machine, surfaces, InputEvent::LeftPress);
    let shown = surfaces_after(machine, surfaces, InputEvent::LeftPress);
    crate::gesture::lemma_moves_track_threshold(pressed, shown, moves);
    assert(intents_of(machine, surfaces, InputEvent::LeftPress) =~= seq![Intent::HideOverlay]);
}

/// A key press closes everything: whatever is shown and whatever the
/// gesture is at, it asks for both surfaces to be hidden, and carrying that
/// out leaves both hidden and the floating panel's bounds absent.
pub proof fn lemma_key_press_hides_both(machine: GestureMachine, surfaces: OverlayState, panel: Size, screen: Size)
    ensures
        ({
            let intents = intents_of(machine, surfaces, InputEvent::KeyPress);
            let published = surfaces_after_intents(
                surfaces_after(machine, surfaces, InputEvent::KeyPress),
                intents,
                panel,
                screen,
            );
            &&& intents == seq![Intent::HideOverlay, Intent::HideFloatingPanel]
            &&& !published.overlay_visible
            &&& !published.floating_visible
            &&& published.floating_bounds is None
            &&& published.overlay_position == surfaces.overlay_position
            &&& actions_for_all(intents, panel, screen) == seq![
                UiAction::Hide { surface: Surface::Overlay },
                UiAction::Hide { surface: Surface::FloatingPanel },
            ]
        }),
{
    let intents = intents_of(machine, surfaces, InputEvent::KeyPress);
    assert(intents.drop_last() =~= seq![Intent::HideOverlay]);
    assert(intents.drop_last().drop_last() =~= Seq::<Intent>::empty());
    reveal_with_fuel(surfaces_after_intents, 3);
    reveal_with_fuel(actions_for_all, 3);
}

/// Every operation on the surfaces can be repeated without further effect.
pub proof fn lemma_intents_are_idempotent(surfaces: OverlayState, intent: Intent, panel: Size, screen: Size)
    ensures
        surfaces_after_intent(
            surfaces_after_intent(surfaces, intent, panel, screen),
            intent,
            panel,
            screen,
        ) == surfaces_after_intent(surfaces, intent, panel, screen),
{
}

} // verus!
