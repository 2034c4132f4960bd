use crate::channel::{post, ChannelError};
use crate::message::{
    channel_message, device_frame, frame_sysex, is_outbound, is_outbound_sysex, sysex_message,
    MessageType, MidiMessage,
};
use crossbeam_channel::{Receiver, Sender};
use vstd::prelude::*;
use vstd::string::StringSliceAdditionalSpecFns;

verus! {

/// How an LED of the RGB controller lights: carried in the channel nibble.
#[derive(Clone, Copy, Debug, PartialEq, Eq, Structural)]
pub enum PulseMode {
    Static,
    Flash,
    Pulse,
}

pub open spec fn pulse_byte(p: PulseMode) -> u8 {
    match p {
        PulseMode::Static => 0,
        PulseMode::Flash => 1,
        PulseMode::Pulse => 2,
    }
}

impl PulseMode {
    pub fn as_byte(&self) -> (r: u8)
        ensures
            r == pulse_byte(*self),
    {
        match self {
            PulseMode::Static => 0,
            PulseMode::Flash => 1,
            PulseMode::Pulse => 2,
        }
    }
}

/// A palette colour of the RGB controller: a palette index and how it lights.
#[derive(Clone, Copy, Debug, PartialEq, Eq, Structural)]
pub struct Color {
    pub color: u8,
    pub pulse_mode: PulseMode,
}

/// A colour given by three 7-bit components, sent by SysEx only.
#[derive(Clone, Copy, Debug, PartialEq, Eq, Structural)]
pub struct LargeColor {
    pub red: u8,
    pub green: u8,
    pub blue: u8,
}

/// The screens (layouts) of the RGB controller.
#[derive(Clone, Copy, Debug, PartialEq, Eq, Structural)]
pub enum LaunchpadScreen {
    Session,
    Notes,
    Custom1,
    Custom2,
    Custom3,
    Custom4,
    Faders,
    Programmer,
}

pub open spec fn screen_byte(s: LaunchpadScreen) -> u8 {
    match s {
        LaunchpadScreen::Session => 0x00,
        LaunchpadScreen::Notes => 0x01,
        LaunchpadScreen::Custom1 => 0x04,
        LaunchpadScreen::Custom2 => 0x05,
        LaunchpadScreen::Custom3 => 0x06,
        LaunchpadScreen::Custom4 => 0x07,
        LaunchpadScreen::Faders => 0x0D,
        LaunchpadScreen::Programmer => 0x7F,
    }
}

impl LaunchpadScreen {
    pub fn as_byte(&self) -> (r: u8)
        ensures
            r == screen_byte(*self),
    {
        match self {
            LaunchpadScreen::Session => 0x00,
            LaunchpadScreen::Notes => 0x01,
            LaunchpadScreen::Custom1 => 0x04,
            LaunchpadScreen::Custom2 => 0x05,
            LaunchpadScreen::Custom3 => 0x06,
            LaunchpadScreen::Custom4 => 0x07,
            LaunchpadScreen::Faders => 0x0D,
            LaunchpadScreen::Programmer => 0x7F,
        }
    }
}

/// The key of the LED at column `x`, row `y` of the 9x9 grid, (0, 0) at the
/// bottom left.
pub open spec fn led_index(x: u8, y: u8) -> int {
    (y + 1) * 10 + (x + 1)
}

/// The right column and the top row are control changes, the pads notes.
pub open spec fn led_kind(x: u8, y: u8) -> MessageType {
    if x == 8 || y == 8 {
        MessageType::CC
    } else {
        MessageType::NoteOn
    }
}

/// The message that lights LED (`x`, `y`) of the 9x9 grid with palette
/// index `velocity`, on MIDI channel `channel`.
pub fn led_message(device: &String, channel: u8, x: u8, y: u8, velocity: u8) -> (r: MidiMessage)
    requires
        x <= 8,
        y <= 8,
    ensures
        is_outbound(r, device@, led_kind(x, y), channel, led_index(x, y), velocity),
{
    let kind = if x == 8 || y == 8 {
        MessageType::CC
    } else {
        MessageType::NoteOn
    };
    channel_message(device, kind, channel, (y + 1) * 10 + (x + 1), velocity)
}

/// The bytes of one fader entry of the fader set-up command.
pub open spec fn fader_entry(f: Option<(bool, u8, Color)>) -> Seq<u8> {
    match f {
        Some((bipolar, cc, color)) => seq![if bipolar { 1u8 } else { 0u8 }, cc, color.color],
        None => Seq::empty(),
    }
}

/// The fader entries in order, the absent ones left out.
pub open spec fn fader_entries(fs: Seq<Option<(bool, u8, Color)>>) -> Seq<u8>
    decreases fs.len(),
{
    if fs.len() == 0 {
        Seq::empty()
    } else {
        fader_entries(fs.drop_last()) + fader_entry(fs.last())
    }
}

/// The command body that sets up the faders.
pub open spec fn fader_body(is_horizontal: bool, fs: Seq<Option<(bool, u8, Color)>>) -> Seq<u8> {
    seq![0x01u8, flag(is_horizontal)] + fader_entries(fs)
}

/// A flag as a command byte.
pub open spec fn flag(b: bool) -> u8 {
    if b {
        1
    } else {
        0
    }
}

fn flag_byte(b: bool) -> (r: u8)
    ensures
        r == flag(b),
{
    if b {
        1
    } else {
        0
    }
}

/// Programmer mode on or off (command 0x0E).
pub fn programmer_mode_body(on: bool) -> (r: Vec<u8>)
    ensures
        r@ == seq![0x0Eu8, flag(on)],
{
    let r = vec![0x0E, flag_byte(on)];
    proof {
        assert(r@ =~= seq![0x0Eu8, flag(on)]);
    }
    r
}

/// Select a screen (command 0x00).
pub fn screen_body(screen: LaunchpadScreen) -> (r: Vec<u8>)
    ensures
        r@ == seq![0x00u8, screen_byte(screen)],
{
    let r = vec![0x00, screen.as_byte()];
    proof {
        assert(r@ =~= seq![0x00u8, screen_byte(screen)]);
    }
    r
}

/// DAW mode on or off (command 0x10).
pub fn daw_mode_body(on: bool) -> (r: Vec<u8>)
    ensures
        r@ == seq![0x10u8, flag(on)],
{
    let r = vec![0x10, flag_byte(on)];
    proof {
        assert(r@ =~= seq![0x10u8, flag(on)]);
    }
    r
}

/// Light one LED in an RGB colour (command 0x03).
pub fn large_led_body(x: u8, y: u8, color: LargeColor) -> (r: Vec<u8>)
    requires
        x <= 8,
        y <= 8,
    ensures
        r@ == seq![0x03u8, led_index(x, y) as u8, color.red, color.green, color.blue],
{
    let r = vec![0x03, (y + 1) * 10 + (x + 1), color.red, color.green, color.blue];
    proof {
        assert(r@ =~= seq![0x03u8, led_index(x, y) as u8, color.red, color.green, color.blue]);
    }
    r
}

/// Drum-rack mode (command 0x0F).
pub fn drum_rack_mode_body(mode: u8) -> (r: Vec<u8>)
    ensures
        r@ == seq![0x0Fu8, mode],
{
    let r = vec![0x0F, mode];
    proof {
        assert(r@ =~= seq![0x0Fu8, mode]);
    }
    r
}

/// Clear the DAW state (command 0x12): session, drum rack, control changes.
pub fn clear_daw_body(session: bool, drum_rack: bool, cc: bool) -> (r: Vec<u8>)
    ensures
        r@ == seq![0x12u8, flag(session), flag(drum_rack), flag(cc)],
{
    let r = vec![0x12, flag_byte(session), flag_byte(drum_rack), flag_byte(cc)];
    proof {
        assert(r@ =~= seq![0x12u8, flag(session), flag(drum_rack), flag(cc)]);
    }
    r
}

/// Stop scrolling text (command 0x07 with an empty payload).
pub fn stop_scroll_body() -> (r: Vec<u8>)
    ensures
        r@ == seq![0x07u8],
{
    let r = vec![0x07];
    proof {
        assert(r@ =~= seq![0x07u8]);
    }
    r
}

/// Sleep on or off (command 0x09).
pub fn sleep_body(on: bool) -> (r: Vec<u8>)
    ensures
        r@ == seq![0x09u8, flag(on)],
{
    let r = vec![0x09, flag_byte(on)];
    proof {
        assert(r@ =~= seq![0x09u8, flag(on)]);
    }
    r
}

/// The bytes of `s` without the end-of-frame byte 0xF7.
pub open spec fn strip_end_marks(s: Seq<u8>) -> Seq<u8>
    decreases s.len(),
{
    if s.len() == 0 {
        Seq::empty()
    } else if s.last() == 0xF7 {
        strip_end_marks(s.drop_last())
    } else {
        strip_end_marks(s.drop_last()).push(s.last())
    }
}

/// Appends `src` to `out`, leaving out every 0xF7.
fn push_stripped(out: &mut Vec<u8>, src: &[u8])
    ensures
        final(out)@ == old(out)@ + strip_end_marks(src@),
{
    let mut i: usize = 0;
    while i < src.len()
        invariant
            i <= src@.len(),
            out@ == old(out)@ + strip_end_marks(src@.subrange(0, i as int)),
        decreases src@.len() - i,
    {
        proof {
            assert(src@.subrange(0, i + 1).drop_last() =~= src@.subrange(0, i as int));
        }
        if src[i] != 0xF7 {
            out.push(src[i]);
        }
        i = i + 1;
        proof {
            assert(out@ =~= old(out)@ + strip_end_marks(src@.subrange(0, i as int)));
        }
    }
    proof {
        assert(src@.subrange(0, src@.len() as int) =~= src@);
    }
}

/// The command body that scrolls `text` in a palette colour.
pub open spec fn scroll_body(text: Seq<u8>, color: Color, speed: u8, is_loop: bool) -> Seq<u8> {
    strip_end_marks(
        seq![0x07u8, if is_loop { 1u8 } else { 0u8 }, speed, 0u8, color.color] + text,
    )
}

/// The command body that scrolls `text` in an RGB colour.
pub open spec fn scroll_large_body(text: Seq<u8>, color: LargeColor, speed: u8, is_loop: bool) -> Seq<
    u8,
> {
    strip_end_marks(
        seq![0x07u8, if is_loop { 1u8 } else { 0u8 }, speed, 1u8, color.red, color.green, color.blue]
            + text,
    )
}

proof fn lemma_strip_append(a: Seq<u8>, b: Seq<u8>)
    ensures
        strip_end_marks(a + b) == strip_end_marks(a) + strip_end_marks(b),
    decreases b.len(),
{
    if b.len() == 0 {
        assert(a + b =~= a);
        assert(strip_end_marks(a) + strip_end_marks(b) =~= strip_end_marks(a));
    } else {
        assert((a + b).drop_last() =~= a + b.drop_last());
        lemma_strip_append(a, b.drop_last());
        if b.last() == 0xF7 {
        } else {
            assert(strip_end_marks(a) + strip_end_marks(b.drop_last()).push(b.last()) =~= (
            strip_end_marks(a) + strip_end_marks(b.drop_last())).push(b.last()));
        }
    }
}

/// Driver of the RGB grid controller: it encodes LED, screen and SysEx
/// operations as messages and posts them to the controller's output channels
/// (the MIDI port, and the DAW port for session LEDs and DAW commands).
#[derive(Clone)]
pub struct LaunchpadX {
    daw_name: String,
    midi_name: String,
    input: Receiver<MidiMessage>,
    output: Sender<MidiMessage>,
    daw_input: Receiver<MidiMessage>,
    daw_output: Sender<MidiMessage>,
    is_programmer_mode: bool,
    daw_mode: LaunchpadScreen,
}

impl LaunchpadX {
    /// The device name of the MIDI port that messages are addressed to.
    pub closed spec fn midi_port(&self) -> Seq<char> {
        self.midi_name@
    }

    /// The device name of the DAW port.
    pub closed spec fn daw_port(&self) -> Seq<char> {
        self.daw_name@
    }

    /// Whether the controller is in programmer mode.
    pub closed spec fn programmer_mode(&self) -> bool {
        self.is_programmer_mode
    }

    /// The last screen selected.
    pub closed spec fn screen(&self) -> LaunchpadScreen {
        self.daw_mode
    }

    /// Takes the controller's channels (MIDI port and DAW port, each way),
    /// switches the controller to DAW mode (`daw_mode_body(true)`) and leaves
    /// programmer mode (`programmer_mode_body(false)`), both on the MIDI port.
    pub fn new(
        input: Receiver<MidiMessage>,
        output: Sender<MidiMessage>,
        daw_input: Receiver<MidiMessage>,
        daw_output: Sender<MidiMessage>,
    ) -> (r: Result<LaunchpadX, ChannelError>)
        ensures
            r matches Ok(lp) ==> {
                &&& lp.midi_port() == "Launchpad MIDI"@
                &&& lp.daw_port() == "Launchpad DAW"@
                &&& !lp.programmer_mode()
                &&& lp.screen() == LaunchpadScreen::Session
            },
    {
        let mut lp = LaunchpadX {
            daw_name: "Launchpad DAW".to_owned(),
            midi_name: "Launchpad MIDI".to_owned(),
            input,
            output,
            daw_input,
            daw_output,
            is_programmer_mode: true,
            daw_mode: LaunchpadScreen::Session,
        };
        lp.send_sysex(daw_mode_body(true).as_slice())?;
        lp.set_programmer_mode(false)?;
        Ok(lp)
    }

    pub fn with_name(&mut self, daw_name: String, midi_name: String) -> (r: &mut LaunchpadX)
        ensures
            r.daw_port() == daw_name@,
            r.midi_port() == midi_name@,
            r.programmer_mode() == old(self).programmer_mode(),
            r.screen() == old(self).screen(),
            *final(self) == *final(r),
    {
        self.daw_name = daw_name;
        self.midi_name = midi_name;
        self
    }

    pub fn input(&self) -> Receiver<MidiMessage> {
        self.input.clone()
    }

    pub fn output(&self) -> Sender<MidiMessage> {
        self.output.clone()
    }

    pub fn daw_input(&self) -> Receiver<MidiMessage> {
        self.daw_input.clone()
    }

    pub fn daw_output(&self) -> Sender<MidiMessage> {
        self.daw_output.clone()
    }

    /// The framed command that `send_sysex(body)` posts to the MIDI port.
    pub fn sysex(&self, body: &[u8]) -> (r: MidiMessage)
        ensures
            is_outbound_sysex(r, self.midi_port(), device_frame(body@)),
    {
        sysex_message(&self.midi_name, frame_sysex(body))
    }

    /// The framed command that `send_daw_sysex(body)` posts to the DAW port.
    pub fn daw_sysex(&self, body: &[u8]) -> (r: MidiMessage)
        ensures
            is_outbound_sysex(r, self.daw_port(), device_frame(body@)),
    {
        sysex_message(&self.daw_name, frame_sysex(body))
    }

    /// Posts the command `body`, framed, to the MIDI port (see `sysex`).
    pub fn send_sysex(&self, body: &[u8]) -> Result<(), ChannelError> {
        post(&self.output, self.sysex(body))
    }

    /// Posts the command `body`, framed, to the DAW port (see `daw_sysex`).
    pub fn send_daw_sysex(&self, body: &[u8]) -> Result<(), ChannelError> {
        post(&self.daw_output, self.daw_sysex(body))
    }

    pub fn is_programmer_mode(&self) -> (r: bool)
        ensures
            r == self.programmer_mode(),
    {
        self.is_programmer_mode
    }

    /// Enters or leaves programmer mode: posts `sysex(programmer_mode_body(new_mode))`
    /// to the MIDI port; nothing is sent when the mode already matches. The
    /// flag follows only a successful post.
    pub fn set_programmer_mode(&mut self, new_mode: bool) -> (r: Result<(), ChannelError>)
        ensures
            old(self).programmer_mode() == new_mode ==> r is Ok && *final(self) == *old(self),
            r is Err ==> *final(self) == *old(self),
            r is Ok ==> final(self).programmer_mode() == new_mode,
            final(self).midi_port() == old(self).midi_port(),
            final(self).daw_port() == old(self).daw_port(),
            final(self).screen() == old(self).screen(),
    {
        if self.is_programmer_mode != new_mode {
            self.send_sysex(programmer_mode_body(new_mode).as_slice())?;
            self.is_programmer_mode = new_mode;
        }
        Ok(())
    }

    /// The "all LEDs off" sentinel: control change 0 with value 0 on channel 0.
    pub fn clear_message(&self) -> (r: MidiMessage)
        ensures
            is_outbound(r, self.midi_port(), MessageType::CC, 0, 0, 0),
    {
        channel_message(&self.midi_name, MessageType::CC, 0, 0, 0)
    }

    pub fn clear(&self) -> Result<(), ChannelError> {
        self.send_midi(self.clear_message())
    }

    /// Posts `m` to the MIDI port as it is.
    pub fn send_midi(&self, m: MidiMessage) -> Result<(), ChannelError> {
        post(&self.output, m)
    }

    /// Posts `m` to the DAW port as it is.
    pub fn send_daw(&self, m: MidiMessage) -> Result<(), ChannelError> {
        post(&self.daw_output, m)
    }

    /// The message that `set(x, y, color)` posts to the MIDI port.
    pub fn led(&self, x: u8, y: u8, color: Color) -> (r: MidiMessage)
        requires
            x <= 8,
            y <= 8,
        ensures
            is_outbound(
                r,
                self.midi_port(),
                led_kind(x, y),
                pulse_byte(color.pulse_mode),
                led_index(x, y),
                color.color,
            ),
    {
        led_message(&self.midi_name, color.pulse_mode.as_byte(), x, y, color.color)
    }

    /// Lights LED (`x`, `y`) of the 9x9 grid (see `led`).
    pub fn set(&self, x: u8, y: u8, color: Color) -> Result<(), ChannelError>
        requires
            x <= 8,
            y <= 8,
    {
        post(&self.output, self.led(x, y, color))
    }

    /// Lights LED (`x`, `y`) in an RGB colour: posts
    /// `sysex(large_led_body(x, y, color))`; programmer mode only.
    pub fn set_large(&self, x: u8, y: u8, color: LargeColor) -> Result<(), ChannelError>
        requires
            x <= 8,
            y <= 8,
    {
        self.send_sysex(large_led_body(x, y, color).as_slice())
    }

    /// Selects a screen: posts `sysex(screen_body(screen))`. Does nothing in
    /// programmer mode; otherwise, after a successful post, programmer mode is on exactly when
    /// the screen is `Programmer`.
    pub fn set_screen(&mut self, screen: LaunchpadScreen) -> (r: Result<(), ChannelError>)
        ensures
            old(self).programmer_mode() ==> r is Ok && *final(self) == *old(self),
            r is Err ==> *final(self) == *old(self),
            !old(self).programmer_mode() && r is Ok ==> {
                &&& final(self).programmer_mode() == (screen == LaunchpadScreen::Programmer)
                &&& final(self).screen() == screen
            },
            final(self).midi_port() == old(self).midi_port(),
            final(self).daw_port() == old(self).daw_port(),
    {
        if !self.is_programmer_mode {
            self.send_sysex(screen_body(screen).as_slice())?;
            self.is_programmer_mode = match screen {
                LaunchpadScreen::Programmer => true,
                _ => false,
            };
            self.daw_mode = screen;
        }
        Ok(())
    }

    /// The message that `set_session(x, y, color)` posts to the DAW port.
    pub fn session_led(&self, x: u8, y: u8, color: Color) -> (r: MidiMessage)
        requires
            x <= 8,
            y <= 8,
        ensures
            is_outbound(
                r,
                self.daw_port(),
                led_kind(x, y),
                pulse_byte(color.pulse_mode),
                led_index(x, y),
                color.color,
            ),
    {
        led_message(&self.daw_name, color.pulse_mode.as_byte(), x, y, color.color)
    }

    /// Lights session LED (`x`, `y`) through the DAW port (see `session_led`).
    pub fn set_session(&self, x: u8, y: u8, color: Color) -> Result<(), ChannelError>
        requires
            x <= 8,
            y <= 8,
    {
        post(&self.daw_output, self.session_led(x, y, color))
    }

    /// The fader set-up command body (command 0x01): the orientation, then (bipolar, CC, colour) for each fader given.
    pub fn fader_command(is_horizontal: bool, faders: &[Option<(bool, u8, Color)>; 8]) -> (r: Vec<
        u8,
    >)
        ensures
            r@ == fader_body(is_horizontal, faders@),
    {
        let mut body: Vec<u8> = vec![0x01, if is_horizontal {
            1
        } else {
            0
        }];
        let mut i: usize = 0;
        while i < 8
            invariant
                i <= 8,
                faders@.len() == 8,
                body@ == fader_body(is_horizontal, faders@.subrange(0, i as int)),
            decreases 8 - i,
        {
            proof {
                assert(faders@.subrange(0, i + 1).drop_last() =~= faders@.subrange(0, i as int));
            }
            match faders[i] {
                Some((is_bipolar, cc, color)) => {
                    body.push(if is_bipolar {
                        1
                    } else {
                        0
                    });
                    body.push(cc);
                    body.push(color.color);
                },
                None => {},
            }
            i = i + 1;
            proof {
                assert(body@ =~= fader_body(is_horizontal, faders@.subrange(0, i as int)));
            }
        }
        proof {
            assert(faders@.subrange(0, 8) =~= faders@);
        }
        body
    }

    /// Sets up the faders on the DAW port; only the faders given change.
    pub fn init_faders(&self, is_horizontal: bool, faders: &[Option<(bool, u8, Color)>; 8]) -> Result<
        (),
        ChannelError,
    > {
        let body = LaunchpadX::fader_command(is_horizontal, faders);
        self.send_daw_sysex(body.as_slice())
    }

    /// The message that `set_fader_pos` posts: CC `fader` with value `pos` on channel 4.
    pub fn fader_pos_message(&self, fader: u8, pos: u8) -> (r: MidiMessage)
        ensures
            is_outbound(r, self.daw_port(), MessageType::CC, 4, fader as int, pos),
    {
        channel_message(&self.daw_name, MessageType::CC, 4, fader, pos)
    }

    pub fn set_fader_pos(&self, fader: u8, pos: u8) -> Result<(), ChannelError> {
        post(&self.daw_output, self.fader_pos_message(fader, pos))
    }

    /// The message that `set_fader_color` posts: CC `fader` with the palette
    /// index on channel 5.
    pub fn fader_color_message(&self, fader: u8, color: Color) -> (r: MidiMessage)
        ensures
            is_outbound(r, self.daw_port(), MessageType::CC, 5, fader as int, color.color),
    {
        channel_message(&self.daw_name, MessageType::CC, 5, fader, color.color)
    }

    pub fn set_fader_color(&self, fader: u8, color: Color) -> Result<(), ChannelError> {
        post(&self.daw_output, self.fader_color_message(fader, color))
    }

    /// 0 disables the drum rack, 1 is the simple mode, 2 the scrollable one.
    pub fn set_drum_rack_mode(&self, drum_rack_mode: u8) -> Result<(), ChannelError> {
        self.send_daw_sysex(drum_rack_mode_body(drum_rack_mode).as_slice())
    }

    /// The message that `set_drum_rack(x, y, color)` posts to the DAW port:
    /// an LED message on the drum-rack channels (8 plus the pulse mode).
    pub fn drum_rack_led(&self, x: u8, y: u8, color: Color) -> (r: MidiMessage)
        requires
            x <= 8,
            y <= 8,
        ensures
            is_outbound(
                r,
                self.daw_port(),
                led_kind(x, y),
                (8 + pulse_byte(color.pulse_mode)) as u8,
                led_index(x, y),
                color.color,
            ),
    {
        led_message(&self.daw_name, 8 + color.pulse_mode.as_byte(), x, y, color.color)
    }

    pub fn set_drum_rack(&self, x: u8, y: u8, color: Color) -> Result<(), ChannelError>
        requires
            x <= 8,
            y <= 8,
    {
        post(&self.daw_output, self.drum_rack_led(x, y, color))
    }

    /// Clears the DAW state (command 0x12): session, drum rack, control changes.
    pub fn clear_daw_state(&self, clear_session: bool, clear_drum_rack: bool, clear_cc: bool) -> Result<
        (),
        ChannelError,
    > {
        self.send_daw_sysex(clear_daw_body(clear_session, clear_drum_rack, clear_cc).as_slice())
    }

    /// The scroll command body (command 0x07) for `text` in a palette colour;
    /// every 0xF7 is left out so that the frame stays whole.
    pub fn scroll_command(text: &str, color: Color, speed: u8, is_loop: bool) -> (r: Vec<u8>)
        ensures
            r@ == scroll_body(text.spec_bytes(), color, speed, is_loop),
    {
        let head: [u8; 5] = [0x07, if is_loop {
            1
        } else {
            0
        }, speed, 0, color.color];
        let mut body: Vec<u8> = Vec::new();
        push_stripped(&mut body, &head);
        push_stripped(&mut body, text.as_bytes());
        proof {
            lemma_strip_append(head@, text.spec_bytes());
            assert(head@ =~= seq![0x07u8, if is_loop { 1u8 } else { 0u8 }, speed, 0u8, color.color]);
            assert(body@ =~= strip_end_marks(head@) + strip_end_marks(text.spec_bytes()));
        }
        body
    }

    pub fn scroll_text(&self, text: &str, color: Color, speed: u8, is_loop: bool) -> Result<
        (),
        ChannelError,
    > {
        let body = LaunchpadX::scroll_command(text, color, speed, is_loop);
        self.send_daw_sysex(body.as_slice())
    }

    /// The scroll command body for `text` in an RGB colour.
    pub fn scroll_large_command(text: &str, color: LargeColor, speed: u8, is_loop: bool) -> (r: Vec<
        u8,
    >)
        ensures
            r@ == scroll_large_body(text.spec_bytes(), color, speed, is_loop),
    {
        let head: [u8; 7] = [0x07, if is_loop {
            1
        } else {
            0
        }, speed, 1, color.red, color.green, color.blue];
        let mut body: Vec<u8> = Vec::new();
        push_stripped(&mut body, &head);
        push_stripped(&mut body, text.as_bytes());
        proof {
            lemma_strip_append(head@, text.spec_bytes());
            assert(head@ =~= seq![
                0x07u8,
                if is_loop { 1u8 } else { 0u8 },
                speed,
                1u8,
                color.red,
                color.green,
                color.blue,
            ]);
            assert(body@ =~= strip_end_marks(head@) + strip_end_marks(text.spec_bytes()));
        }
        body
    }

    pub fn scroll_text_large(&self, text: &str, color: LargeColor, speed: u8, is_loop: bool) -> Result<
        (),
        ChannelError,
    > {
        let body = LaunchpadX::scroll_large_command(text, color, speed, is_loop);
        self.send_daw_sysex(body.as_slice())
    }

    /// Stops scrolling text: command 0x07 with an empty payload.
    pub fn stop_scroll_text(&self) -> Result<(), ChannelError> {
        self.send_daw_sysex(stop_scroll_body().as_slice())
    }

    pub fn set_sleep(&self, should_sleep: bool) -> Result<(), ChannelError> {
        self.send_daw_sysex(sleep_body(should_sleep).as_slice())
    }

    /// Puts the controller back in its default state, best effort: leaves
    /// programmer mode (`programmer_mode_body(false)`), selects Custom3
    /// (`screen_body`), clears the DAW state (`clear_daw_body(true, true,
    /// true)`, on the DAW port) and leaves DAW mode (`daw_mode_body(false)`).
    /// Every step is tried whatever the earlier ones gave; the result is the
    /// first failure, if any.
    pub fn restore_defaults(&mut self) -> (r: Result<(), ChannelError>)
        ensures
            final(self).midi_port() == old(self).midi_port(),
            final(self).daw_port() == old(self).daw_port(),
            r is Ok ==> !final(self).programmer_mode() && final(self).screen()
                == LaunchpadScreen::Custom3,
    {
        let leave = self.set_programmer_mode(false);
        let screen = self.set_screen(LaunchpadScreen::Custom3);
        let cleared = self.clear_daw_state(true, true, true);
        let daw_off = self.send_sysex(daw_mode_body(false).as_slice());
        leave?;
        screen?;
        cleared?;
        daw_off
    }
}

} // verus!
