use crate::launchpad_x::{pulse_byte, Color};
use crate::message::{MessageType, MidiMessage};
use vstd::prelude::*;

verus! {

/// No menu item: what a press outside the item pads maps to.
pub const NO_ITEM: usize = 255;

/// The menu item of a pad press on the RGB grid: pads are numbered row by
/// row from the bottom left, eight to a row; control changes and keys off
/// the pads give `NO_ITEM`.
pub fn midi_to_item(msg: &MidiMessage) -> (r: usize)
    ensures
        r == (if msg.key % 10 > 8 || msg.key / 10 == 0 || msg.key % 10 == 0 || msg.msg_type
            == MessageType::CC {
            NO_ITEM as int
        } else {
            (msg.key / 10 - 1) * 8 + (msg.key % 10 - 1)
        }),
{
    let row = msg.key / 10;
    let col = msg.key % 10;
    if col > 8 || row == 0 || col == 0 || msg.msg_type == MessageType::CC {
        NO_ITEM
    } else {
        ((row - 1) * 8 + (col - 1)) as usize
    }
}

/// The menu item of a pad press on the legacy grid (key `row * 16 + col`);
/// control changes and the right column give `NO_ITEM`.
pub fn legacy_midi_to_item(msg: &MidiMessage) -> (r: usize)
    ensures
        r == (if msg.key % 16 >= 8 || msg.msg_type == MessageType::CC {
            NO_ITEM as int
        } else {
            (msg.key / 16) * 8 + msg.key % 16
        }),
{
    let row = msg.key / 16;
    let col = msg.key % 16;
    if col >= 8 || msg.msg_type == MessageType::CC {
        NO_ITEM
    } else {
        (row * 8 + col) as usize
    }
}

/// What the selector does with an input message.
#[derive(Clone, Copy, Debug, PartialEq, Eq, Structural)]
pub enum MenuAction {
    Ignore,
    /// The exit button (CC 98): leave the selector.
    Exit,
    /// The text button (CC 89): switch between launching and naming apps.
    ToggleText,
    /// Scroll the name of this app.
    Show(usize),
    /// Run this app.
    Launch(usize),
}

/// The selector's decision for a message, with `choices` apps registered:
/// releases are ignored; a press on the pad of an app shows its name in
/// text mode and runs it otherwise.
pub fn menu_action(msg: &MidiMessage, choices: usize, text_mode: bool) -> (r: MenuAction)
    ensures
        msg.velocity == 0 ==> r == MenuAction::Ignore,
        msg.velocity > 0 && msg.msg_type == MessageType::CC && msg.key == 98 ==> r
            == MenuAction::Exit,
        msg.velocity > 0 && msg.msg_type == MessageType::CC && msg.key == 89 ==> r
            == MenuAction::ToggleText,
        msg.velocity > 0 && msg.msg_type != MessageType::CC ==> {
            let item = if msg.key % 10 > 8 || msg.key / 10 == 0 || msg.key % 10 == 0 {
                NO_ITEM as int
            } else {
                (msg.key / 10 - 1) * 8 + (msg.key % 10 - 1)
            };
            &&& item < choices && text_mode ==> r == MenuAction::Show(item as usize)
            &&& item < choices && !text_mode ==> r == MenuAction::Launch(item as usize)
            &&& item >= choices ==> r == MenuAction::Ignore
        },
{
    if msg.velocity == 0 {
        return MenuAction::Ignore;
    }
    if msg.msg_type == MessageType::CC && msg.key == 98 {
        return MenuAction::Exit;
    }
    if msg.msg_type == MessageType::CC && msg.key == 89 {
        return MenuAction::ToggleText;
    }
    let item = midi_to_item(msg);
    if item < choices {
        if text_mode {
            MenuAction::Show(item)
        } else {
            MenuAction::Launch(item)
        }
    } else {
        MenuAction::Ignore
    }
}

/// The legacy pad key of menu item `item` (eight items to a row).
pub fn item_to_midi(item: usize) -> (r: u8)
    requires
        item < 128,
    ensures
        r == (item / 8) * 16 + item % 8,
{
    let row = item / 8;
    let col = item % 8;
    (row * 16 + col) as u8
}

/// The echo of a pad event on the RGB grid: a press lights the pad in
/// `color`, a release turns it off.
pub fn echo_press(msg: MidiMessage, color: Color) -> (r: MidiMessage)
    ensures
        r.velocity == (if msg.velocity > 0 {
            color.color
        } else {
            0
        }),
        r.channel == (if msg.velocity > 0 {
            pulse_byte(color.pulse_mode)
        } else {
            0
        }),
        r == (MidiMessage { velocity: r.velocity, channel: r.channel, ..msg }),
{
    let mut out = msg;
    if out.velocity > 0 {
        out.velocity = color.color;
        out.channel = color.pulse_mode.as_byte();
    } else {
        out.velocity = 0;
        out.channel = 0;
    }
    out
}

/// The echo of a pad event on the legacy grid: the velocity masked by the
/// colour byte.
pub fn legacy_echo_press(msg: MidiMessage, mask: u8) -> (r: MidiMessage)
    ensures
        r == (MidiMessage { velocity: msg.velocity & mask, ..msg }),
{
    let mut out = msg;
    out.velocity = out.velocity & mask;
    out
}

} // verus!
