use awake_toggle::slot::ProcessSlot;
use awake_toggle::toggle::{MenuLabel, ToggleState};

#[test]
fn enabled_state_shows_disable() {
    assert_eq!(ToggleState::Enabled.label(), MenuLabel::Disable);
}

#[test]
fn disabled_state_shows_enable() {
    assert_eq!(ToggleState::Disabled.label(), MenuLabel::Enable);
}

#[test]
fn label_texts_are_exact() {
    assert_eq!(MenuLabel::Enable.text(), "Enable");
    assert_eq!(MenuLabel::Disable.text(), "Disable");
    assert_ne!(MenuLabel::Enable.text(), MenuLabel::Disable.text());
}

#[test]
fn new_slot_is_empty_and_disabled() {
    let slot: ProcessSlot<u32> = ProcessSlot::new();
    assert!(!slot.is_occupied());
    assert_eq!(slot.state(), ToggleState::Disabled);
    assert_eq!(slot.peek(), None);
}

#[test]
fn populated_slot_is_enabled() {
    let mut slot: ProcessSlot<u32> = ProcessSlot::new();
    slot.populate(9);
    assert!(slot.is_occupied());
    assert_eq!(slot.state(), ToggleState::Enabled);
    assert_eq!(slot.peek(), Some(&9));
    assert_eq!(slot.state().label().text(), "Disable");
}

#[test]
fn take_hands_the_handle_out_once() {
    let mut slot: ProcessSlot<String> = ProcessSlot::new();
    slot.populate(String::from("child"));
    assert_eq!(slot.take(), Some(String::from("child")));
    assert!(!slot.is_occupied());
    assert_eq!(slot.state(), ToggleState::Disabled);
    assert_eq!(slot.take(), None);
    assert!(!slot.is_occupied());
}

#[test]
fn state_is_recomputed_after_every_change() {
    let mut slot: ProcessSlot<u8> = ProcessSlot::new();
    for round in 0..5u8 {
        assert_eq!(slot.state(), ToggleState::Disabled);
        slot.populate(round);
        assert_eq!(slot.state(), ToggleState::Enabled);
        assert_eq!(slot.take(), Some(round));
    }
    assert_eq!(slot.state(), ToggleState::Disabled);
}
