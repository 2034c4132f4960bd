use midichan::launchpad_x::{Color, PulseMode};
use midichan::message::{MessageType, MidiMessage};
use midichan::select::{
    echo_press, item_to_midi, legacy_echo_press, legacy_midi_to_item, menu_action, midi_to_item, MenuAction, NO_ITEM,
};

fn note(key: u8, velocity: u8) -> MidiMessage {
    let mut m = MidiMessage::new("Launchpad");
    m.with_key(key).with_velocity(velocity);
    m
}

#[test]
fn rgb_pads_number_row_by_row() {
    assert_eq!(midi_to_item(&note(11, 1)), 0);
    assert_eq!(midi_to_item(&note(18, 1)), 7);
    assert_eq!(midi_to_item(&note(21, 1)), 8);
    assert_eq!(midi_to_item(&note(19, 1)), NO_ITEM);
    assert_eq!(midi_to_item(&note(10, 1)), NO_ITEM);
    assert_eq!(midi_to_item(&note(5, 1)), NO_ITEM);
    let mut c = note(11, 1);
    c.with_msg_type(MessageType::CC);
    assert_eq!(midi_to_item(&c), NO_ITEM);
}

#[test]
fn legacy_pads_and_back() {
    assert_eq!(legacy_midi_to_item(&note(0x00, 127)), 0);
    assert_eq!(legacy_midi_to_item(&note(0x13, 127)), 11);
    assert_eq!(legacy_midi_to_item(&note(0x08, 127)), NO_ITEM);
    for item in 0..64usize {
        assert_eq!(legacy_midi_to_item(&note(item_to_midi(item), 127)), item);
    }
    assert_eq!(item_to_midi(9), 0x11);
}

#[test]
fn echo_lights_on_press_and_clears_on_release() {
    let color = Color { color: 37, pulse_mode: PulseMode::Pulse };
    let on = echo_press(note(44, 100), color);
    assert_eq!((on.velocity, on.channel, on.key), (37, 2, 44));
    let off = echo_press(note(44, 0), color);
    assert_eq!((off.velocity, off.channel), (0, 0));
    let masked = legacy_echo_press(note(3, 127), 0x60);
    assert_eq!(masked.velocity, 0x60);
}

#[test]
fn menu_decisions() {
    let mut exit = note(98, 127);
    exit.with_msg_type(MessageType::CC);
    assert_eq!(menu_action(&exit, 4, false), MenuAction::Exit);
    let mut text = note(89, 127);
    text.with_msg_type(MessageType::CC);
    assert_eq!(menu_action(&text, 4, false), MenuAction::ToggleText);
    assert_eq!(menu_action(&note(12, 127), 4, false), MenuAction::Launch(1));
    assert_eq!(menu_action(&note(12, 127), 4, true), MenuAction::Show(1));
    assert_eq!(menu_action(&note(15, 127), 4, false), MenuAction::Ignore);
    assert_eq!(menu_action(&note(12, 0), 4, false), MenuAction::Ignore);
}
