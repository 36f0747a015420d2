//! Interface elements, markers and the settings enums.

use render_core::interface::{ClickAction, ElementState, EventButton, UserEvent};
use render_core::marker::MarkerIdentifier;
use render_core::settings::{Msaa, ShadowDetail};

#[test]
fn event_button_raises_its_event_on_left_click() {
    let mut button = EventButton::new(String::from("Close"), UserEvent { code: 7 });
    let mut force_update = false;

    let action = button.left_click(&mut force_update);

    assert_eq!(action, Some(ClickAction::Event(UserEvent { code: 7 })));
    assert!(!force_update);
    assert_eq!(button.display, "Close");
}

#[test]
fn event_button_starts_without_placement() {
    let button = EventButton::new(String::from("Save"), UserEvent { code: 1 });
    assert_eq!(button.get_state().placement_ref, None);
}

#[test]
fn element_state_is_reachable_for_the_layout_pass() {
    let mut button = EventButton::new(String::from("Save"), UserEvent { code: 1 });
    *button.get_state_mut() = ElementState { placement_ref: Some(42) };
    assert_eq!(button.get_state().placement_ref, Some(42));
}

#[test]
fn marker_identifiers_compare_by_kind_and_slot() {
    assert_eq!(MarkerIdentifier::Object(3), MarkerIdentifier::Object(3));
    assert_ne!(MarkerIdentifier::Object(3), MarkerIdentifier::Object(4));
    assert_ne!(MarkerIdentifier::Object(3), MarkerIdentifier::LightSource(3));
    assert_eq!(MarkerIdentifier::Particle(1, 2), MarkerIdentifier::Particle(1, 2));
    assert_ne!(MarkerIdentifier::Particle(1, 2), MarkerIdentifier::Particle(2, 1));
}

#[test]
fn msaa_levels_report_their_sample_counts() {
    assert_eq!(Msaa::Off.sample_count(), 1);
    assert!(!Msaa::Off.multisampling_activated());
    assert_eq!(Msaa::X2.sample_count(), 2);
    assert_eq!(Msaa::X4.sample_count(), 4);
    assert_eq!(Msaa::X8.sample_count(), 8);
    assert!(Msaa::X8.multisampling_activated());
}

#[test]
fn shadow_detail_fixes_both_resolutions() {
    assert_eq!(ShadowDetail::Low.directional_shadow_resolution(), 1024);
    assert_eq!(ShadowDetail::Low.point_shadow_resolution(), 128);
    assert_eq!(ShadowDetail::Ultra.directional_shadow_resolution(), 8192);
    assert_eq!(ShadowDetail::Ultra.point_shadow_resolution(), 1024);
}
