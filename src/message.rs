use vstd::prelude::*;

verus! {

/// The kind of a MIDI event. Each kind stands for the high nibble of a
/// channel-message status byte (see `kind_byte`).
#[derive(PartialEq, Eq, Structural, Clone, Copy, Debug)]
pub enum MessageType {
    SysEx,
    NoteOff,
    NoteOn,
    NoteVelocity,
    CC,
    PC,
    CCVelocity,
    PitchBend,
    Unknown,
}

/// The status nibble that a message kind stands for.
pub open spec fn kind_byte(t: MessageType) -> u8 {
    match t {
        MessageType::SysEx => 0x70,
        MessageType::NoteOff => 0x80,
        MessageType::NoteOn => 0x90,
        MessageType::NoteVelocity => 0xA0,
        MessageType::CC => 0xB0,
        MessageType::PC => 0xC0,
        MessageType::CCVelocity => 0xD0,
        MessageType::PitchBend => 0xE0,
        MessageType::Unknown => 0xFE,
    }
}

/// The kinds that travel as 3-byte channel messages.
pub open spec fn is_channel_kind(t: MessageType) -> bool {
    !(t is SysEx) && !(t is Unknown)
}

/// The kind whose byte is `num`, `Unknown` when there is none.
pub open spec fn kind_of_byte(num: u8) -> MessageType {
    if num == 0x70 {
        MessageType::SysEx
    } else if num == 0x80 {
        MessageType::NoteOff
    } else if num == 0x90 {
        MessageType::NoteOn
    } else if num == 0xA0 {
        MessageType::NoteVelocity
    } else if num == 0xB0 {
        MessageType::CC
    } else if num == 0xC0 {
        MessageType::PC
    } else if num == 0xD0 {
        MessageType::CCVelocity
    } else if num == 0xE0 {
        MessageType::PitchBend
    } else {
        MessageType::Unknown
    }
}

impl MessageType {
    pub fn from_u8(num: u8) -> (r: MessageType)
        ensures
            r == kind_of_byte(num),
    {
        match num {
            0x70 => MessageType::SysEx,
            0x80 => MessageType::NoteOff,
            0x90 => MessageType::NoteOn,
            0xA0 => MessageType::NoteVelocity,
            0xB0 => MessageType::CC,
            0xC0 => MessageType::PC,
            0xD0 => MessageType::CCVelocity,
            0xE0 => MessageType::PitchBend,
            _ => MessageType::Unknown,
        }
    }

    /// The status nibble of this kind.
    pub fn as_byte(&self) -> (r: u8)
        ensures
            r == kind_byte(*self),
    {
        match self {
            MessageType::SysEx => 0x70,
            MessageType::NoteOff => 0x80,
            MessageType::NoteOn => 0x90,
            MessageType::NoteVelocity => 0xA0,
            MessageType::CC => 0xB0,
            MessageType::PC => 0xC0,
            MessageType::CCVelocity => 0xD0,
            MessageType::PitchBend => 0xE0,
            MessageType::Unknown => 0xFE,
        }
    }
}

/// The five bytes that follow 0xF0 in every System Exclusive frame of the
/// RGB controller.
pub open spec fn manufacturer_header() -> Seq<u8> {
    seq![0x00u8, 0x20u8, 0x29u8, 0x02u8, 0x0Cu8]
}

/// A raw buffer that is a device System Exclusive frame:
/// 0xF0, the manufacturer header, the body, 0xF7.
pub open spec fn is_device_frame(b: Seq<u8>) -> bool {
    &&& b.len() >= 7
    &&& b[0] == 0xF0
    &&& b.subrange(1, 6) == manufacturer_header()
    &&& b[b.len() - 1] == 0xF7
}

/// The body of a device frame: what stands between the header and 0xF7.
pub open spec fn frame_body(b: Seq<u8>) -> Seq<u8> {
    b.subrange(6, b.len() - 1)
}

/// The byte at `i`, or zero where the buffer is shorter.
pub open spec fn byte_or_zero(b: Seq<u8>, i: int) -> u8 {
    if i < b.len() {
        b[i]
    } else {
        0
    }
}

/// The kind that a raw buffer decodes to when it is not a device frame:
/// the kind of a channel-message status byte, `Unknown` for anything else.
pub open spec fn decoded_kind(b: Seq<u8>) -> MessageType {
    if b.len() > 0 && 0x80 <= b[0] < 0xF0 {
        kind_of_byte((b[0] / 16 * 16) as u8)
    } else {
        MessageType::Unknown
    }
}

/// The channel that a raw buffer decodes to when it is not a device frame.
pub open spec fn decoded_channel(b: Seq<u8>) -> u8 {
    (byte_or_zero(b, 0) % 16) as u8
}

/// The MIDI event record that travels through every channel of the runtime.
#[derive(PartialEq, Eq, Clone, Debug)]
pub struct MidiMessage {
    pub device: String,
    pub timestamp: u64,
    pub channel: u8,
    pub msg_type: MessageType,
    pub key: u8,
    pub velocity: u8,
    pub sysex: Option<Vec<u8>>,
}

/// The payload of a message, as a sequence; empty where there is none.
pub open spec fn payload_of(m: MidiMessage) -> Seq<u8> {
    match m.sysex {
        Some(v) => v@,
        None => Seq::empty(),
    }
}

/// The raw bytes of a message: the payload verbatim for a SysEx record,
/// else the 3-byte channel message.
pub open spec fn raw_bytes(m: MidiMessage) -> Seq<u8> {
    if m.msg_type is SysEx {
        payload_of(m)
    } else {
        seq![kind_byte(m.msg_type) | m.channel, m.key, m.velocity]
    }
}

proof fn lemma_status_split(b: u8)
    ensures
        b & 0xF0 == b / 16 * 16,
        b & 0x0F == b % 16,
{
    assert(b & 0xF0 == b / 16 * 16) by (bit_vector);
    assert(b & 0x0F == b % 16) by (bit_vector);
}

proof fn lemma_status_join(k: u8, c: u8)
    requires
        k % 16 == 0,
        k >= 0x80,
        c < 16,
    ensures
        (k | c) / 16 * 16 == k,
        (k | c) % 16 == c,
        (k | c) >= 0x80,
{
    assert((k | c) / 16 * 16 == k && (k | c) % 16 == c && (k | c) >= 0x80) by (bit_vector)
        requires
            k % 16 == 0,
            k >= 0x80,
            c < 16,
    ;
}

impl MidiMessage {
    /// Decodes the raw bytes that a backend port delivered for `name`.
    ///
    /// A device System Exclusive frame becomes a SysEx record whose payload
    /// is the frame's body (command byte first). Anything else is read as a
    /// channel message: a status byte (kind and channel), key and velocity,
    /// with missing bytes read as zero; a status byte that does not start a
    /// channel message gives the kind `Unknown`.
    pub fn from_raw(name: &str, timestamp: u64, slice: &[u8]) -> (r: MidiMessage)
        ensures
            r.device@ == name@,
            r.timestamp == timestamp,
            is_device_frame(slice@) ==> {
                &&& r.msg_type == MessageType::SysEx
                &&& r.channel == 0
                &&& r.key == 0
                &&& r.velocity == 0
                &&& r.sysex is Some
                &&& payload_of(r) == frame_body(slice@)
            },
            !is_device_frame(slice@) ==> {
                &&& r.msg_type == decoded_kind(slice@)
                &&& r.channel == decoded_channel(slice@)
                &&& r.key == byte_or_zero(slice@, 1)
                &&& r.velocity == byte_or_zero(slice@, 2)
                &&& r.sysex is None
            },
    {
        let len: usize = slice.len();
        if len >= 7 && slice[0] == 0xF0 && slice[1] == 0x00 && slice[2] == 0x20 && slice[3]
            == 0x29 && slice[4] == 0x02 && slice[5] == 0x0C && slice[len - 1] == 0xF7 {
            proof {
                assert(slice@.subrange(1, 6) =~= manufacturer_header());
            }
            let mut body: Vec<u8> = Vec::new();
            let mut i: usize = 6;
            while i < len - 1
                invariant
                    6 <= i <= len - 1,
                    len == slice@.len(),
                    len >= 7,
                    body@ == slice@.subrange(6, i as int),
                decreases len - 1 - i,
            {
                body.push(slice[i]);
                i = i + 1;
                proof {
                    assert(body@ =~= slice@.subrange(6, i as int));
                }
            }
            return MidiMessage {
                device: name.to_owned(),
                timestamp,
                channel: 0,
                msg_type: MessageType::SysEx,
                key: 0,
                velocity: 0,
                sysex: Some(body),
            };
        }
        proof {
            if len >= 7 && slice@[0] == 0xF0 && slice@.subrange(1, 6) == manufacturer_header()
                && slice@[len - 1] == 0xF7 {
                assert(slice@.subrange(1, 6)[0] == slice@[1]);
                assert(slice@.subrange(1, 6)[1] == slice@[2]);
                assert(slice@.subrange(1, 6)[2] == slice@[3]);
                assert(slice@.subrange(1, 6)[3] == slice@[4]);
                assert(slice@.subrange(1, 6)[4] == slice@[5]);
            }
        }
        let status: u8 = if len > 0 {
            slice[0]
        } else {
            0
        };
        let key: u8 = if len > 1 {
            slice[1]
        } else {
            0
        };
        let velocity: u8 = if len > 2 {
            slice[2]
        } else {
            0
        };
        proof {
            lemma_status_split(status);
        }
        let msg_type = if 0x80 <= status && status < 0xF0 {
            MessageType::from_u8(status & 0xF0)
        } else {
            MessageType::Unknown
        };
        MidiMessage {
            device: name.to_owned(),
            timestamp,
            channel: status & 0x0F,
            msg_type,
            key,
            velocity,
            sysex: None,
        }
    }

    /// An outbound NoteOn record for `name` with every number at zero.
    pub fn new(name: &str) -> (r: MidiMessage)
        ensures
            r.device@ == name@,
            r.timestamp == 0,
            r.channel == 0,
            r.msg_type == MessageType::NoteOn,
            r.key == 0,
            r.velocity == 0,
            r.sysex is None,
    {
        MidiMessage {
            device: name.to_owned(),
            timestamp: 0,
            channel: 0,
            msg_type: MessageType::NoteOn,
            key: 0,
            velocity: 0,
            sysex: None,
        }
    }

    pub fn with_timestamp(&mut self, timestamp: u64) -> (r: &mut MidiMessage)
        ensures
            *r == (MidiMessage { timestamp, ..*old(self) }),
            *final(self) == *final(r),
    {
        self.timestamp = timestamp;
        self
    }

    pub fn with_channel(&mut self, channel: u8) -> (r: &mut MidiMessage)
        ensures
            *r == (MidiMessage { channel, ..*old(self) }),
            *final(self) == *final(r),
    {
        self.channel = channel;
        self
    }

    pub fn with_msg_type(&mut self, msg_type: MessageType) -> (r: &mut MidiMessage)
        ensures
            *r == (MidiMessage { msg_type, ..*old(self) }),
            *final(self) == *final(r),
    {
        self.msg_type = msg_type;
        self
    }

    pub fn with_key(&mut self, key: u8) -> (r: &mut MidiMessage)
        ensures
            *r == (MidiMessage { key, ..*old(self) }),
            *final(self) == *final(r),
    {
        self.key = key;
        self
    }

    pub fn with_velocity(&mut self, velocity: u8) -> (r: &mut MidiMessage)
        ensures
            *r == (MidiMessage { velocity, ..*old(self) }),
            *final(self) == *final(r),
    {
        self.velocity = velocity;
        self
    }

    /// Encodes the message for a backend port: the payload verbatim for a
    /// SysEx record (the driver frames it), else `[kind | channel, key, velocity]`.
    pub fn to_raw(&self) -> (r: Vec<u8>)
        ensures
            r@ == raw_bytes(*self),
    {
        match self.msg_type {
            MessageType::SysEx => match &self.sysex {
                Some(payload) => {
                    let mut out: Vec<u8> = Vec::new();
                    let mut i: usize = 0;
                    while i < payload.len()
                        invariant
                            i <= payload@.len(),
                            out@ == payload@.subrange(0, i as int),
                        decreases payload@.len() - i,
                    {
                        out.push(payload[i]);
                        i = i + 1;
                        proof {
                            assert(out@ =~= payload@.subrange(0, i as int));
                        }
                    }
                    proof {
                        assert(out@ =~= payload@);
                    }
                    out
                },
                None => Vec::new(),
            },
            _ => {
                let out = vec![self.msg_type.as_byte() | self.channel, self.key, self.velocity];
                proof {
                    assert(out@ =~= raw_bytes(*self));
                }
                out
            },
        }
    }
}

/// `m` is an outbound channel message for `device` with these numbers.
pub open spec fn is_outbound(
    m: MidiMessage,
    device: Seq<char>,
    kind: MessageType,
    channel: u8,
    key: int,
    velocity: u8,
) -> bool {
    &&& m.device@ == device
    &&& m.timestamp == 0
    &&& m.channel == channel
    &&& m.msg_type == kind
    &&& m.key == key
    &&& m.velocity == velocity
    &&& m.sysex is None
}

/// `m` is an outbound SysEx record for `device` whose payload is `payload`.
pub open spec fn is_outbound_sysex(m: MidiMessage, device: Seq<char>, payload: Seq<u8>) -> bool {
    &&& m.device@ == device
    &&& m.timestamp == 0
    &&& m.channel == 0
    &&& m.msg_type == MessageType::SysEx
    &&& m.key == 0
    &&& m.velocity == 0
    &&& m.sysex is Some
    &&& payload_of(m) == payload
}

/// The device frame around `body`: 0xF0, the manufacturer header, the body, 0xF7.
pub open spec fn device_frame(body: Seq<u8>) -> Seq<u8> {
    seq![0xF0u8] + manufacturer_header() + body + seq![0xF7u8]
}

/// Frames `body` for the RGB controller.
pub fn frame_sysex(body: &[u8]) -> (r: Vec<u8>)
    ensures
        r@ == device_frame(body@),
{
    let mut out: Vec<u8> = vec![0xF0, 0x00, 0x20, 0x29, 0x02, 0x0C];
    proof {
        assert(out@ =~= seq![0xF0u8] + manufacturer_header());
    }
    let mut i: usize = 0;
    while i < body.len()
        invariant
            i <= body@.len(),
            out@ == seq![0xF0u8] + manufacturer_header() + body@.subrange(0, i as int),
        decreases body@.len() - i,
    {
        out.push(body[i]);
        i = i + 1;
        proof {
            assert(out@ =~= seq![0xF0u8] + manufacturer_header() + body@.subrange(0, i as int));
        }
    }
    out.push(0xF7);
    proof {
        assert(body@.subrange(0, body@.len() as int) =~= body@);
        assert(out@ =~= device_frame(body@));
    }
    out
}

/// A SysEx record for `device` that carries `payload` verbatim.
pub fn sysex_message(device: &String, payload: Vec<u8>) -> (r: MidiMessage)
    ensures
        is_outbound_sysex(r, device@, payload@),
{
    MidiMessage {
        device: device.clone(),
        timestamp: 0,
        channel: 0,
        msg_type: MessageType::SysEx,
        key: 0,
        velocity: 0,
        sysex: Some(payload),
    }
}

/// An outbound channel message for `device`.
pub fn channel_message(device: &String, kind: MessageType, channel: u8, key: u8, velocity: u8) -> (r:
    MidiMessage)
    ensures
        is_outbound(r, device@, kind, channel, key as int, velocity),
{
    MidiMessage {
        device: device.clone(),
        timestamp: 0,
        channel,
        msg_type: kind,
        key,
        velocity,
        sysex: None,
    }
}

/// Round trip of a channel message through its raw bytes: decoding what
/// `to_raw` produced for a message of a channel kind on a channel below 16
/// gives back its kind, channel, key and velocity, and no payload.
pub proof fn lemma_channel_round_trip(m: MidiMessage)
    requires
        is_channel_kind(m.msg_type),
        m.channel < 16,
    ensures
        !is_device_frame(raw_bytes(m)),
        decoded_kind(raw_bytes(m)) == m.msg_type,
        decoded_channel(raw_bytes(m)) == m.channel,
        byte_or_zero(raw_bytes(m), 1) == m.key,
        byte_or_zero(raw_bytes(m), 2) == m.velocity,
{
    lemma_status_join(kind_byte(m.msg_type), m.channel);
}

/// Decoding a device frame `[0xF0] ++ header ++ [cmd] ++ body ++ [0xF7]`
/// (what `frame_sysex` builds around `[cmd] ++ body`) gives a SysEx record
/// whose payload is `[cmd] ++ body`.
pub proof fn lemma_frame_decodes_to_body(cmd: u8, body: Seq<u8>)
    ensures
        device_frame(seq![cmd] + body) == seq![0xF0u8] + manufacturer_header() + seq![cmd] + body
            + seq![0xF7u8],
        is_device_frame(device_frame(seq![cmd] + body)),
        frame_body(device_frame(seq![cmd] + body)) == seq![cmd] + body,
{
    let f = device_frame(seq![cmd] + body);
    assert(f =~= seq![0xF0u8] + manufacturer_header() + seq![cmd] + body + seq![0xF7u8]);
    assert(f.subrange(1, 6) =~= manufacturer_header());
    assert(frame_body(f) =~= seq![cmd] + body);
}

/// A reply of a port supervisor.
#[derive(Clone, Debug, PartialEq, Eq)]
pub enum DeviceResponse {
    Device(String, bool),
    List(Vec<String>),
    Error(String),
    Success,
}

/// A request to a port supervisor.
#[derive(Clone, Debug, PartialEq, Eq)]
pub enum DeviceRequest {
    OpenIn(String, usize),
    OpenOut(String, usize),
    QueryDevice(String),
    QueryList,
    CloseIn(String),
    CloseOut(String),
    Shutdown,
}

/// A request to the router.
pub enum RouterRequest {
    AddInput(String, crossbeam_channel::Receiver<MidiMessage>),
    RemoveInput(String),
    AddOutput(String, crossbeam_channel::Sender<MidiMessage>),
    RemoveOutput(String),
    QueryInput(String),
    QueryOutput(String),
    QueryAllInputs,
    QueryAllOutputs,
    Shutdown,
}

/// A reply of the router.
#[derive(Clone, Debug, PartialEq, Eq)]
pub enum RouterResponse {
    Device(String, bool),
    List(Vec<String>),
    Error(String),
    Success,
}

} // verus!
