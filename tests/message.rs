use midichan::message::{frame_sysex, MessageType, MidiMessage};

fn kinds() -> Vec<MessageType> {
    vec![
        MessageType::NoteOff,
        MessageType::NoteOn,
        MessageType::NoteVelocity,
        MessageType::CC,
        MessageType::PC,
        MessageType::CCVelocity,
        MessageType::PitchBend,
    ]
}

#[test]
fn from_u8_maps_each_status_nibble() {
    assert_eq!(MessageType::from_u8(0x70), MessageType::SysEx);
    assert_eq!(MessageType::from_u8(0x80), MessageType::NoteOff);
    assert_eq!(MessageType::from_u8(0x90), MessageType::NoteOn);
    assert_eq!(MessageType::from_u8(0xA0), MessageType::NoteVelocity);
    assert_eq!(MessageType::from_u8(0xB0), MessageType::CC);
    assert_eq!(MessageType::from_u8(0xC0), MessageType::PC);
    assert_eq!(MessageType::from_u8(0xD0), MessageType::CCVelocity);
    assert_eq!(MessageType::from_u8(0xE0), MessageType::PitchBend);
    assert_eq!(MessageType::from_u8(0x91), MessageType::Unknown);
    assert_eq!(MessageType::from_u8(0xF0), MessageType::Unknown);
}

#[test]
fn as_byte_is_the_inverse_of_from_u8() {
    for k in kinds() {
        assert_eq!(MessageType::from_u8(k.as_byte()), k);
    }
}

#[test]
fn decodes_a_note_on() {
    let m = MidiMessage::from_raw("pad", 1234, &[0x93, 64, 100]);
    assert_eq!(m.device, "pad");
    assert_eq!(m.timestamp, 1234);
    assert_eq!(m.msg_type, MessageType::NoteOn);
    assert_eq!(m.channel, 3);
    assert_eq!(m.key, 64);
    assert_eq!(m.velocity, 100);
    assert_eq!(m.sysex, None);
}

#[test]
fn channel_messages_round_trip() {
    for k in kinds() {
        for channel in [0u8, 5, 15] {
            let mut m = MidiMessage::new("dev");
            m.with_msg_type(k.clone()).with_channel(channel).with_key(127).with_velocity(1);
            let raw = m.to_raw();
            assert_eq!(raw.len(), 3);
            let back = MidiMessage::from_raw("dev", 0, &raw);
            assert_eq!(back, m);
        }
    }
}

#[test]
fn channel_pressure_is_a_channel_message() {
    let m = MidiMessage::from_raw("dev", 0, &[0xD2, 40, 0]);
    assert_eq!(m.msg_type, MessageType::CCVelocity);
    assert_eq!(m.channel, 2);
    assert_eq!(m.key, 40);
    assert_eq!(m.sysex, None);
}

#[test]
fn decodes_a_device_frame_to_its_body() {
    let raw = [0xF0, 0x00, 0x20, 0x29, 0x02, 0x0C, 0x0E, 0x01, 0xF7];
    let m = MidiMessage::from_raw("lp", 7, &raw);
    assert_eq!(m.msg_type, MessageType::SysEx);
    assert_eq!(m.sysex, Some(vec![0x0E, 0x01]));
    assert_eq!((m.channel, m.key, m.velocity), (0, 0, 0));
    assert_eq!(m.timestamp, 7);
}

#[test]
fn frame_built_by_the_encoder_decodes_to_the_command() {
    let body = [0x07, 0x00, 0x0A, 0x00, 0x15, b'h', b'i'];
    let framed = frame_sysex(&body);
    assert_eq!(framed[..6], [0xF0, 0x00, 0x20, 0x29, 0x02, 0x0C]);
    assert_eq!(*framed.last().unwrap(), 0xF7);
    let m = MidiMessage::from_raw("lp", 0, &framed);
    assert_eq!(m.sysex, Some(body.to_vec()));
}

#[test]
fn frame_without_the_header_is_rejected() {
    let raw = [0xF0, 0x00, 0x20, 0x29, 0x02, 0x0D, 0x0E, 0x01, 0xF7];
    let m = MidiMessage::from_raw("lp", 0, &raw);
    assert_eq!(m.msg_type, MessageType::Unknown);
    assert_eq!(m.sysex, None);
}

#[test]
fn frame_without_end_byte_is_rejected() {
    let raw = [0xF0, 0x00, 0x20, 0x29, 0x02, 0x0C, 0x0E, 0x01];
    let m = MidiMessage::from_raw("lp", 0, &raw);
    assert_eq!(m.msg_type, MessageType::Unknown);
    assert_eq!(m.sysex, None);
}

#[test]
fn short_and_empty_buffers_read_zero() {
    let m = MidiMessage::from_raw("x", 0, &[0xC4, 9]);
    assert_eq!(m.msg_type, MessageType::PC);
    assert_eq!((m.channel, m.key, m.velocity), (4, 9, 0));
    let e = MidiMessage::from_raw("x", 0, &[]);
    assert_eq!(e.msg_type, MessageType::Unknown);
    assert_eq!((e.channel, e.key, e.velocity), (0, 0, 0));
}

#[test]
fn data_byte_as_status_is_unknown() {
    let m = MidiMessage::from_raw("x", 0, &[0x75, 1, 2]);
    assert_eq!(m.msg_type, MessageType::Unknown);
    assert_eq!(m.sysex, None);
}

#[test]
fn sysex_record_encodes_its_payload_verbatim() {
    let mut m = MidiMessage::new("lp");
    m.with_msg_type(MessageType::SysEx);
    m.sysex = Some(vec![0xF0, 1, 2, 0xF7]);
    assert_eq!(m.to_raw(), vec![0xF0, 1, 2, 0xF7]);
    m.sysex = None;
    assert_eq!(m.to_raw(), Vec::<u8>::new());
}

#[test]
fn note_encodes_status_key_velocity() {
    let mut m = MidiMessage::new("lp");
    m.with_channel(2).with_key(64).with_velocity(7);
    assert_eq!(m.to_raw(), vec![0x92, 64, 7]);
}

#[test]
fn builders_set_one_field_each() {
    let mut m = MidiMessage::new("a");
    m.with_timestamp(99);
    assert_eq!(m.timestamp, 99);
    assert_eq!(m.msg_type, MessageType::NoteOn);
    assert_eq!((m.channel, m.key, m.velocity), (0, 0, 0));
}
