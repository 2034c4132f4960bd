use crossbeam_channel::{unbounded, Receiver};
use midichan::launchpad_x::{Color, LargeColor, LaunchpadScreen, LaunchpadX, PulseMode};
use midichan::message::{MessageType, MidiMessage};

struct Rig {
    lp: LaunchpadX,
    midi_out: Receiver<MidiMessage>,
    daw_out: Receiver<MidiMessage>,
}

fn rig() -> Rig {
    let (_in_tx, in_rx) = unbounded();
    let (out_tx, out_rx) = unbounded();
    let (_daw_in_tx, daw_in_rx) = unbounded();
    let (daw_tx, daw_rx) = unbounded();
    let lp = LaunchpadX::new(in_rx, out_tx, daw_in_rx, daw_tx).unwrap();
    let _ = out_rx.try_iter().count();
    Rig { lp, midi_out: out_rx, daw_out: daw_rx }
}

fn frame(body: &[u8]) -> Vec<u8> {
    let mut v = vec![0xF0, 0x00, 0x20, 0x29, 0x02, 0x0C];
    v.extend_from_slice(body);
    v.push(0xF7);
    v
}

#[test]
fn new_enters_daw_mode_and_leaves_programmer_mode() {
    let (_in_tx, in_rx) = unbounded();
    let (out_tx, out_rx) = unbounded();
    let (_daw_in_tx, daw_in_rx) = unbounded();
    let (daw_tx, _daw_rx) = unbounded();
    let lp = LaunchpadX::new(in_rx, out_tx, daw_in_rx, daw_tx).unwrap();
    assert!(!lp.is_programmer_mode());
    let sent: Vec<MidiMessage> = out_rx.try_iter().collect();
    assert_eq!(sent.len(), 2);
    assert_eq!(sent[0].sysex, Some(frame(&[0x10, 0x01])));
    assert_eq!(sent[1].sysex, Some(frame(&[0x0E, 0x00])));
    assert_eq!(sent[0].device, "Launchpad MIDI");
}

#[test]
fn new_fails_when_output_is_gone() {
    let (_in_tx, in_rx) = unbounded();
    let (out_tx, out_rx) = unbounded::<MidiMessage>();
    drop(out_rx);
    let (_daw_in_tx, daw_in_rx) = unbounded();
    let (daw_tx, _daw_rx) = unbounded();
    assert!(LaunchpadX::new(in_rx, out_tx, daw_in_rx, daw_tx).is_err());
}

#[test]
fn pad_led_is_a_note_with_pulse_channel() {
    let r = rig();
    r.lp.set(3, 5, Color { color: 7, pulse_mode: PulseMode::Pulse }).unwrap();
    let m = r.midi_out.try_recv().unwrap();
    assert_eq!(m.msg_type, MessageType::NoteOn);
    assert_eq!(m.channel, 2);
    assert_eq!(m.key, 64);
    assert_eq!(m.velocity, 7);
    assert_eq!(m.device, "Launchpad MIDI");
    assert_eq!(m.to_raw(), vec![0x92, 64, 7]);
}

#[test]
fn right_column_and_top_row_are_control_changes() {
    let r = rig();
    let c = Color { color: 5, pulse_mode: PulseMode::Static };
    r.lp.set(8, 0, c).unwrap();
    let m = r.midi_out.try_recv().unwrap();
    assert_eq!(m.msg_type, MessageType::CC);
    assert_eq!(m.key, 19);
    r.lp.set(0, 8, c).unwrap();
    let m = r.midi_out.try_recv().unwrap();
    assert_eq!(m.msg_type, MessageType::CC);
    assert_eq!(m.key, 91);
}

#[test]
fn set_screen_in_programmer_mode_sends_nothing() {
    let mut r = rig();
    r.lp.set_programmer_mode(true).unwrap();
    let m = r.midi_out.try_recv().unwrap();
    assert_eq!(m.sysex, Some(frame(&[0x0E, 0x01])));
    r.lp.set_screen(LaunchpadScreen::Session).unwrap();
    assert!(r.midi_out.try_recv().is_err());
    assert!(r.lp.is_programmer_mode());
}

#[test]
fn set_programmer_mode_is_a_no_op_when_unchanged() {
    let mut r = rig();
    r.lp.set_programmer_mode(false).unwrap();
    assert!(r.midi_out.try_recv().is_err());
}

#[test]
fn set_screen_programmer_enters_programmer_mode() {
    let mut r = rig();
    r.lp.set_screen(LaunchpadScreen::Programmer).unwrap();
    let m = r.midi_out.try_recv().unwrap();
    assert_eq!(m.sysex, Some(frame(&[0x00, 0x7F])));
    assert!(r.lp.is_programmer_mode());
    let mut r2 = rig();
    r2.lp.set_screen(LaunchpadScreen::Custom3).unwrap();
    assert_eq!(r2.midi_out.try_recv().unwrap().sysex, Some(frame(&[0x00, 0x06])));
    assert!(!r2.lp.is_programmer_mode());
}

#[test]
fn clear_is_control_change_zero() {
    let r = rig();
    r.lp.clear().unwrap();
    let m = r.midi_out.try_recv().unwrap();
    assert_eq!(m.to_raw(), vec![0xB0, 0, 0]);
}

#[test]
fn session_and_drum_rack_leds_go_to_the_daw_port() {
    let r = rig();
    r.lp.set_session(7, 8, Color { color: 6, pulse_mode: PulseMode::Flash }).unwrap();
    let m = r.daw_out.try_recv().unwrap();
    assert_eq!(m.device, "Launchpad DAW");
    assert_eq!(m.to_raw(), vec![0xB1, 98, 6]);
    r.lp.set_drum_rack(1, 1, Color { color: 9, pulse_mode: PulseMode::Pulse }).unwrap();
    let m = r.daw_out.try_recv().unwrap();
    assert_eq!(m.to_raw(), vec![0x9A, 22, 9]);
}

#[test]
fn large_colour_led_is_command_three() {
    let r = rig();
    r.lp.set_large(0, 0, LargeColor { red: 127, green: 1, blue: 2 }).unwrap();
    assert_eq!(r.midi_out.try_recv().unwrap().sysex, Some(frame(&[0x03, 11, 127, 1, 2])));
}

#[test]
fn faders_list_only_given_entries() {
    let r = rig();
    let c = Color { color: 21, pulse_mode: PulseMode::Static };
    let mut faders = [None; 8];
    faders[0] = Some((true, 10, c));
    faders[5] = Some((false, 11, c));
    r.lp.init_faders(true, &faders).unwrap();
    let m = r.daw_out.try_recv().unwrap();
    assert_eq!(m.sysex, Some(frame(&[0x01, 0x01, 1, 10, 21, 0, 11, 21])));
}

#[test]
fn fader_position_and_colour_are_control_changes() {
    let r = rig();
    r.lp.set_fader_pos(3, 90).unwrap();
    assert_eq!(r.daw_out.try_recv().unwrap().to_raw(), vec![0xB4, 3, 90]);
    r.lp.set_fader_color(3, Color { color: 45, pulse_mode: PulseMode::Static }).unwrap();
    assert_eq!(r.daw_out.try_recv().unwrap().to_raw(), vec![0xB5, 3, 45]);
}

#[test]
fn scroll_text_strips_end_bytes() {
    let r = rig();
    let text = "hi";
    r.lp.scroll_text(text, Color { color: 0xF7, pulse_mode: PulseMode::Static }, 10, true).unwrap();
    let m = r.daw_out.try_recv().unwrap();
    assert_eq!(m.sysex, Some(frame(&[0x07, 1, 10, 0, b'h', b'i'])));
    r.lp.scroll_text_large("a", LargeColor { red: 1, green: 2, blue: 3 }, 5, false).unwrap();
    let m = r.daw_out.try_recv().unwrap();
    assert_eq!(m.sysex, Some(frame(&[0x07, 0, 5, 1, 1, 2, 3, b'a'])));
}

#[test]
fn small_daw_commands() {
    let r = rig();
    r.lp.stop_scroll_text().unwrap();
    assert_eq!(r.daw_out.try_recv().unwrap().sysex, Some(frame(&[0x07])));
    r.lp.set_sleep(true).unwrap();
    assert_eq!(r.daw_out.try_recv().unwrap().sysex, Some(frame(&[0x09, 1])));
    r.lp.set_drum_rack_mode(2).unwrap();
    assert_eq!(r.daw_out.try_recv().unwrap().sysex, Some(frame(&[0x0F, 2])));
    r.lp.clear_daw_state(true, false, true).unwrap();
    assert_eq!(r.daw_out.try_recv().unwrap().sysex, Some(frame(&[0x12, 1, 0, 1])));
}

#[test]
fn restore_defaults_sends_the_shutdown_sequence() {
    let mut r = rig();
    r.lp.set_programmer_mode(true).unwrap();
    let _ = r.midi_out.try_recv();
    assert!(r.lp.restore_defaults().is_ok());
    assert!(!r.lp.is_programmer_mode());
    let midi: Vec<MidiMessage> = r.midi_out.try_iter().collect();
    assert_eq!(midi[0].sysex, Some(frame(&[0x0E, 0x00])));
    assert_eq!(midi[1].sysex, Some(frame(&[0x00, 0x06])));
    assert_eq!(midi[2].sysex, Some(frame(&[0x10, 0x00])));
    assert_eq!(r.daw_out.try_recv().unwrap().sysex, Some(frame(&[0x12, 1, 1, 1])));
}

#[test]
fn with_name_renames_ports() {
    let mut r = rig();
    r.lp.with_name("D".to_string(), "M".to_string());
    r.lp.clear().unwrap();
    assert_eq!(r.midi_out.try_recv().unwrap().device, "M");
}
