use gobuddy::bridge::{after_save, dispatch, dispatch_all, UiAction, PRESETS_STATE_EVENT};
use gobuddy::geometry::{DragDirection, Point, Rect, Size};
use gobuddy::gesture::{GestureMachine, InputEvent, Intent};
use gobuddy::presets::PersistedState;
use gobuddy::store::PersistedStateError;
use gobuddy::surface::{ensure_surface, surface_config, surface_label, OverlayState, Surface};

const SCREEN: Size = Size { width: 1920, height: 1080 };
const PANEL: Size = Size { width: 120, height: 200 };

fn pt(x: i64, y: i64) -> Point {
    Point { x, y }
}

fn both_shown() -> OverlayState {
    OverlayState {
        overlay_position: Some(pt(500, 500)),
        overlay_visible: true,
        floating_bounds: Some(Rect { origin: pt(456, 500), size: PANEL }),
        floating_visible: true,
    }
}

#[test]
fn new_surfaces_are_hidden() {
    let surfaces = OverlayState::new();
    assert_eq!(surfaces.overlay_position, None);
    assert!(!surfaces.overlay_visible);
    assert_eq!(surfaces.floating_bounds, None);
    assert!(!surfaces.floating_visible);
}

#[test]
fn overlay_window_is_a_fixed_square() {
    let config = surface_config(Surface::Overlay, PANEL);
    assert_eq!(config.surface, Surface::Overlay);
    assert_eq!(config.label, "overlay");
    assert_eq!(config.title, "Overlay");
    assert_eq!(config.page, "overlay.html");
    assert_eq!(config.size, Size { width: 32, height: 32 });
    assert!(config.fixed_size);
}

#[test]
fn windows_start_hidden_on_top_and_bare() {
    for surface in [Surface::Overlay, Surface::FloatingPanel] {
        let config = surface_config(surface, PANEL);
        assert_eq!(config.position, pt(0, 0));
        assert!(!config.visible);
        assert!(config.always_on_top);
        assert!(!config.decorations);
        assert!(config.transparent);
        assert!(!config.resizable);
        assert!(config.skip_taskbar);
    }
}

#[test]
fn floating_panel_window_has_the_configured_extent() {
    let config = surface_config(Surface::FloatingPanel, PANEL);
    assert_eq!(config.surface, Surface::FloatingPanel);
    assert_eq!(config.label, "floating_panel");
    assert_eq!(config.title, "GoBuddy Quick Panel");
    assert_eq!(config.page, "floating-window.html");
    assert_eq!(config.size, PANEL);
    assert!(!config.fixed_size);
    let wide = Size { width: 300, height: 90 };
    assert_eq!(surface_config(Surface::FloatingPanel, wide).size, wide);
}

#[test]
fn labels_name_the_two_windows() {
    assert_eq!(surface_label(Surface::Overlay), "overlay");
    assert_eq!(surface_label(Surface::FloatingPanel), "floating_panel");
}

#[test]
fn ensuring_an_existing_surface_is_a_no_op() {
    assert_eq!(ensure_surface(Surface::Overlay, true, PANEL), None);
    assert_eq!(ensure_surface(Surface::FloatingPanel, true, PANEL), None);
}

#[test]
fn ensuring_a_missing_surface_asks_for_its_window() {
    assert_eq!(
        ensure_surface(Surface::Overlay, false, PANEL),
        Some(surface_config(Surface::Overlay, PANEL))
    );
    assert_eq!(
        ensure_surface(Surface::FloatingPanel, false, PANEL),
        Some(surface_config(Surface::FloatingPanel, PANEL))
    );
}

#[test]
fn showing_the_overlay_publishes_position_and_visibility() {
    let mut surfaces = OverlayState::new();
    let placed = surfaces.show_overlay_at(pt(100, 100), DragDirection::Rightward, SCREEN);
    assert_eq!(placed, pt(110, 110));
    assert_eq!(surfaces.overlay_position, Some(pt(110, 110)));
    assert!(surfaces.overlay_visible);
    assert!(!surfaces.floating_visible);
    assert_eq!(surfaces.floating_bounds, None);
}

#[test]
fn showing_the_overlay_after_a_leftward_drag_near_the_edge() {
    let mut surfaces = OverlayState::new();
    let placed = surfaces.show_overlay_at(pt(30, 1075), DragDirection::Leftward, SCREEN);
    assert_eq!(placed, pt(0, 1048));
    assert_eq!(surfaces.overlay_position, Some(pt(0, 1048)));
}

#[test]
fn showing_the_panel_publishes_bounds_and_visibility() {
    let mut surfaces = OverlayState::new();
    let bounds = surfaces.show_floating_panel_near(pt(500, 500), PANEL, SCREEN);
    assert_eq!(bounds, Rect { origin: pt(456, 500), size: PANEL });
    assert_eq!(surfaces.floating_bounds, Some(bounds));
    assert!(surfaces.floating_visible);
    assert!(!surfaces.overlay_visible);
}

#[test]
fn hiding_the_overlay_keeps_its_last_position() {
    let mut surfaces = both_shown();
    surfaces.hide_overlay();
    assert!(!surfaces.overlay_visible);
    assert_eq!(surfaces.overlay_position, Some(pt(500, 500)));
    assert!(surfaces.floating_visible);
}

#[test]
fn hiding_the_panel_clears_its_bounds() {
    let mut surfaces = both_shown();
    surfaces.hide_floating_panel();
    assert!(!surfaces.floating_visible);
    assert_eq!(surfaces.floating_bounds, None);
    assert!(surfaces.overlay_visible);
}

#[test]
fn hiding_what_is_hidden_changes_nothing() {
    let mut surfaces = OverlayState::new();
    surfaces.hide_overlay();
    surfaces.hide_floating_panel();
    assert_eq!(surfaces, OverlayState::new());
}

#[test]
fn every_operation_can_be_repeated() {
    let intents = [
        Intent::ShowOverlay { at: pt(100, 100), direction: DragDirection::Leftward },
        Intent::HideOverlay,
        Intent::OpenFloatingPanel { anchor: pt(700, 10) },
        Intent::HideFloatingPanel,
    ];
    for intent in intents {
        let mut once = both_shown();
        let first = dispatch(&mut once, intent, PANEL, SCREEN);
        let mut twice = once;
        let second = dispatch(&mut twice, intent, PANEL, SCREEN);
        assert_eq!(once, twice);
        assert_eq!(first, second);
    }
}

#[test]
fn hit_tests_follow_visibility() {
    let mut surfaces = both_shown();
    assert!(surfaces.hits_overlay(pt(532, 532)));
    assert!(!surfaces.hits_overlay(pt(533, 532)));
    assert!(surfaces.hits_floating_panel(pt(576, 700)));
    assert!(!surfaces.hits_floating_panel(pt(577, 700)));
    surfaces.overlay_visible = false;
    surfaces.floating_visible = false;
    assert!(!surfaces.hits_overlay(pt(510, 510)));
    assert!(!surfaces.hits_floating_panel(pt(500, 600)));
}

#[test]
fn dispatch_of_show_overlay_places_the_window() {
    let mut surfaces = OverlayState::new();
    let actions = dispatch(
        &mut surfaces,
        Intent::ShowOverlay { at: pt(100, 100), direction: DragDirection::Leftward },
        PANEL,
        SCREEN,
    );
    let square = Rect { origin: pt(50, 110), size: Size { width: 32, height: 32 } };
    assert_eq!(actions, vec![UiAction::Place { surface: Surface::Overlay, bounds: square }]);
    assert_eq!(surfaces.overlay_position, Some(pt(50, 110)));
    assert!(surfaces.overlay_visible);
}

#[test]
fn dispatch_of_open_panel_places_it_and_broadcasts() {
    let mut surfaces = OverlayState::new();
    let actions = dispatch(&mut surfaces, Intent::OpenFloatingPanel { anchor: pt(0, 1000) }, PANEL, SCREEN);
    let bounds = Rect { origin: pt(0, 880), size: PANEL };
    assert_eq!(
        actions,
        vec![UiAction::Place { surface: Surface::FloatingPanel, bounds }, UiAction::BroadcastState]
    );
    assert_eq!(surfaces.floating_bounds, Some(bounds));
    assert!(surfaces.floating_visible);
}

#[test]
fn dispatch_of_hides_hides_the_windows() {
    let mut surfaces = both_shown();
    assert_eq!(
        dispatch(&mut surfaces, Intent::HideOverlay, PANEL, SCREEN),
        vec![UiAction::Hide { surface: Surface::Overlay }]
    );
    assert_eq!(
        dispatch(&mut surfaces, Intent::HideFloatingPanel, PANEL, SCREEN),
        vec![UiAction::Hide { surface: Surface::FloatingPanel }]
    );
    assert!(!surfaces.overlay_visible);
    assert!(!surfaces.floating_visible);
    assert_eq!(surfaces.floating_bounds, None);
}

#[test]
fn dispatch_all_keeps_the_order_of_the_intents() {
    let mut surfaces = both_shown();
    let intents = vec![Intent::OpenFloatingPanel { anchor: pt(500, 500) }, Intent::HideOverlay];
    let actions = dispatch_all(&mut surfaces, &intents, PANEL, SCREEN);
    assert_eq!(
        actions,
        vec![
            UiAction::Place {
                surface: Surface::FloatingPanel,
                bounds: Rect { origin: pt(456, 500), size: PANEL },
            },
            UiAction::BroadcastState,
            UiAction::Hide { surface: Surface::Overlay },
        ]
    );
    assert!(!surfaces.overlay_visible);
    assert!(surfaces.floating_visible);
}

#[test]
fn dispatch_all_of_nothing_does_nothing() {
    let mut surfaces = both_shown();
    let actions = dispatch_all(&mut surfaces, &Vec::new(), PANEL, SCREEN);
    assert!(actions.is_empty());
    assert_eq!(surfaces, both_shown());
}

#[test]
fn drag_to_the_right_ends_with_the_overlay_beside_the_pointer() {
    let mut machine = GestureMachine::new();
    let mut surfaces = OverlayState::new();
    let mut actions = Vec::new();
    for event in [
        InputEvent::PointerMove(pt(300, 300)),
        InputEvent::LeftPress,
        InputEvent::PointerMove(pt(420, 310)),
        InputEvent::LeftRelease,
    ] {
        let intents = machine.handle_event(&mut surfaces, event);
        actions.extend(dispatch_all(&mut surfaces, &intents, PANEL, SCREEN));
    }
    assert_eq!(surfaces.overlay_position, Some(pt(430, 320)));
    assert!(surfaces.overlay_visible);
    assert_eq!(
        actions,
        vec![UiAction::Place {
            surface: Surface::Overlay,
            bounds: Rect { origin: pt(430, 320), size: Size { width: 32, height: 32 } },
        }]
    );
}

#[test]
fn drag_to_the_left_ends_with_the_overlay_left_of_the_pointer() {
    let mut machine = GestureMachine::new();
    let mut surfaces = OverlayState::new();
    for event in [
        InputEvent::PointerMove(pt(420, 310)),
        InputEvent::LeftPress,
        InputEvent::PointerMove(pt(300, 300)),
        InputEvent::LeftRelease,
    ] {
        let intents = machine.handle_event(&mut surfaces, event);
        dispatch_all(&mut surfaces, &intents, PANEL, SCREEN);
    }
    assert_eq!(surfaces.overlay_position, Some(pt(250, 310)));
    assert!(surfaces.overlay_visible);
}

#[test]
fn clicking_the_overlay_opens_the_panel_and_hides_the_overlay() {
    let mut machine = GestureMachine::new();
    let mut surfaces = OverlayState::new();
    surfaces.show_overlay_at(pt(490, 490), DragDirection::Rightward, SCREEN);
    let mut actions = Vec::new();
    for event in [InputEvent::PointerMove(pt(516, 516)), InputEvent::LeftPress, InputEvent::LeftRelease] {
        let intents = machine.handle_event(&mut surfaces, event);
        actions.extend(dispatch_all(&mut surfaces, &intents, PANEL, SCREEN));
    }
    let bounds = Rect { origin: pt(456, 500), size: PANEL };
    assert_eq!(
        actions,
        vec![
            UiAction::Place { surface: Surface::FloatingPanel, bounds },
            UiAction::BroadcastState,
            UiAction::Hide { surface: Surface::Overlay },
        ]
    );
    assert!(!surfaces.overlay_visible);
    assert!(surfaces.floating_visible);
    assert_eq!(surfaces.floating_bounds, Some(bounds));
}

#[test]
fn clicking_beside_the_overlay_hides_it_without_opening_the_panel() {
    let mut machine = GestureMachine::new();
    let mut surfaces = OverlayState::new();
    surfaces.show_overlay_at(pt(490, 490), DragDirection::Rightward, SCREEN);
    let mut actions = Vec::new();
    for event in [InputEvent::PointerMove(pt(40, 40)), InputEvent::LeftPress, InputEvent::LeftRelease] {
        let intents = machine.handle_event(&mut surfaces, event);
        actions.extend(dispatch_all(&mut surfaces, &intents, PANEL, SCREEN));
    }
    assert_eq!(actions, vec![UiAction::Hide { surface: Surface::Overlay }]);
    assert!(!surfaces.overlay_visible);
    assert!(!surfaces.floating_visible);
    assert_eq!(surfaces.floating_bounds, None);
}

#[test]
fn key_press_with_both_shown_hides_both_and_forgets_the_bounds() {
    let mut machine = GestureMachine::new();
    let mut surfaces = both_shown();
    let intents = machine.handle_event(&mut surfaces, InputEvent::KeyPress);
    let actions = dispatch_all(&mut surfaces, &intents, PANEL, SCREEN);
    assert_eq!(
        actions,
        vec![
            UiAction::Hide { surface: Surface::Overlay },
            UiAction::Hide { surface: Surface::FloatingPanel },
        ]
    );
    assert!(!surfaces.overlay_visible);
    assert!(!surfaces.floating_visible);
    assert_eq!(surfaces.floating_bounds, None);
}

#[test]
fn broadcast_follows_a_successful_save_only() {
    let saved: Result<PersistedState, PersistedStateError> = Ok(PersistedState::default());
    assert_eq!(after_save(&saved), vec![UiAction::BroadcastState]);
    let failed: Result<PersistedState, PersistedStateError> =
        Err(PersistedStateError::Io(String::from("disk full")));
    assert!(after_save(&failed).is_empty());
}

#[test]
fn broadcast_event_is_named() {
    assert_eq!(PRESETS_STATE_EVENT, "presets-state");
}
