use panel_core::overlay::Overlay;
use panel_core::overlay::OverlayAction;
use panel_core::overlay::OverlayEvent;
use panel_core::overlay::OverlayKind;
use panel_core::overlay::OverlayState;
use panel_core::overlay::Rect;

#[test]
fn popup_life_construct_show_close() {
    let anchor = Rect { x: 10, y: 0, width: 80, height: 24 };
    let mut popup = Overlay::new_popup(anchor);
    assert_eq!(popup.kind, OverlayKind::Popup);
    assert_eq!(popup.state, OverlayState::Constructed);

    popup.show();
    assert_eq!(popup.state, OverlayState::Shown);

    let a = popup.handle_event(OverlayEvent::FocusLost);
    assert_eq!(a, OverlayAction::CloseWindow);
    assert_eq!(popup.state, OverlayState::Closed);
}

#[test]
fn closed_popup_ignores_everything() {
    let anchor = Rect { x: 0, y: 0, width: 1, height: 1 };
    let mut popup = Overlay::new_popup(anchor);
    popup.show();
    popup.handle_event(OverlayEvent::CloseRequested);
    assert_eq!(popup.state, OverlayState::Closed);

    assert_eq!(popup.handle_event(OverlayEvent::FocusLost), OverlayAction::Ignore);
    assert_eq!(popup.handle_event(OverlayEvent::CloseRequested), OverlayAction::Ignore);
    assert_eq!(popup.state, OverlayState::Closed);
}

#[test]
fn modal_survives_focus_loss() {
    let mut modal = Overlay::new_modal();
    modal.show();
    assert_eq!(modal.handle_event(OverlayEvent::FocusLost), OverlayAction::Ignore);
    assert_eq!(modal.state, OverlayState::Shown);

    // Only the explicit close affordance dismisses a modal.
    assert_eq!(modal.handle_event(OverlayEvent::CloseRequested), OverlayAction::CloseWindow);
    assert_eq!(modal.state, OverlayState::Closed);
}

#[test]
fn events_before_show_do_not_close() {
    let mut modal = Overlay::new_modal();
    assert_eq!(modal.handle_event(OverlayEvent::CloseRequested), OverlayAction::Ignore);
    assert_eq!(modal.handle_event(OverlayEvent::FocusLost), OverlayAction::Ignore);
    assert_eq!(modal.state, OverlayState::Constructed);
}

#[test]
fn popup_anchor_is_captured_at_construction_and_kept() {
    let anchor = Rect { x: 5, y: 7, width: 30, height: 12 };
    let mut popup = Overlay::new_popup(anchor);
    assert_eq!(popup.anchor, Some(anchor));

    // Showing and closing never recompute the anchor: if the trigger
    // widget moved meanwhile, the position is stale by design.
    popup.show();
    assert_eq!(popup.anchor, Some(anchor));
    popup.handle_event(OverlayEvent::FocusLost);
    assert_eq!(popup.anchor, Some(anchor));
}

#[test]
fn modal_has_no_anchor() {
    let modal = Overlay::new_modal();
    assert_eq!(modal.anchor, None);
}
