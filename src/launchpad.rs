use crate::channel::{post, ChannelError};
use crate::message::{channel_message, is_outbound, MessageType, MidiMessage};
use crossbeam_channel::{Receiver, Sender};
use vstd::prelude::*;

verus! {

/// A colour of the legacy mono controller: one byte packing a 2-bit red
/// intensity (bits 0 and 1) and a 2-bit green intensity (bits 4 and 5).
#[derive(Clone, Copy, Debug, PartialEq, Eq, Structural)]
pub struct Color {
    val: u8,
}

/// The colour byte for the given intensities.
pub open spec fn color_byte(red: u8, green: u8) -> int {
    red + green * 16
}

impl Color {
    /// The colour byte.
    pub closed spec fn byte(&self) -> u8 {
        self.val
    }

    pub fn color(&self) -> (r: u8)
        ensures
            r == self.byte(),
    {
        self.val
    }

    pub fn new(red: u8, green: u8) -> (r: Color)
        requires
            red <= 3,
            green <= 3,
        ensures
            r.byte() == color_byte(red, green),
    {
        Color { val: red + green * 0x10 }
    }

    /// Replaces both intensities.
    pub fn with_color(&mut self, red: u8, green: u8) -> (r: &mut Color)
        requires
            red <= 3,
            green <= 3,
        ensures
            r.byte() == color_byte(red, green),
            *final(self) == *final(r),
    {
        self.val = red + green * 0x10;
        self
    }
}

/// The key of LED (`x`, `y`) of the legacy grid: `y * 16 + x` on the pad,
/// `0x68 + x` on the top row (y == 8).
pub open spec fn legacy_key(x: u8, y: u8) -> int {
    if y == 8 {
        0x68 + x
    } else {
        y * 16 + x
    }
}

/// The colour of each grid cell that `fill` sends, row after row: each row
/// cut to 8 cells and padded with dark cells up to 8.
pub open spec fn fill_cells(grid: Seq<Seq<u8>>) -> Seq<u8>
    decreases grid.len(),
{
    if grid.len() == 0 {
        Seq::empty()
    } else {
        fill_cells(grid.drop_last()) + fill_row(grid.last())
    }
}

pub open spec fn fill_row(row: Seq<u8>) -> Seq<u8> {
    if row.len() >= 8 {
        row.subrange(0, 8)
    } else {
        row + Seq::new((8 - row.len()) as nat, |i: int| 0u8)
    }
}

/// The cells taken two at a time; an odd last cell is not sent.
pub open spec fn fill_pairs(cells: Seq<u8>) -> Seq<(u8, u8)> {
    Seq::new(cells.len() / 2, |i: int| (cells[2 * i], cells[2 * i + 1]))
}

/// The colour bytes of a grid of colours.
pub open spec fn grid_bytes(grid: Seq<Vec<Color>>) -> Seq<Seq<u8>> {
    grid.map_values(|row: Vec<Color>| row@.map_values(|c: Color| c.byte()))
}

/// Driver of the legacy mono grid controller: it encodes LED writes as
/// messages and posts them to the controller's output channel.
#[derive(Clone)]
pub struct Launchpad {
    name: String,
    input: Receiver<MidiMessage>,
    output: Sender<MidiMessage>,
}

impl Launchpad {
    /// The device name that messages are addressed to.
    pub closed spec fn port(&self) -> Seq<char> {
        self.name@
    }

    pub fn new(in_port: Receiver<MidiMessage>, out_port: Sender<MidiMessage>) -> (r: Launchpad)
        ensures
            r.port() == "Launchpad"@,
    {
        Launchpad { name: "Launchpad".to_owned(), input: in_port, output: out_port }
    }

    pub fn with_name(&mut self, name: String) -> (r: &mut Launchpad)
        ensures
            r.port() == name@,
            *final(self) == *final(r),
    {
        self.name = name;
        self
    }

    pub fn input(&self) -> Receiver<MidiMessage> {
        self.input.clone()
    }

    pub fn output(&self) -> Sender<MidiMessage> {
        self.output.clone()
    }

    /// The "all LEDs off" sentinel: control change 0 with value 0 on channel 0.
    pub fn clear_message(&self) -> (r: MidiMessage)
        ensures
            is_outbound(r, self.port(), MessageType::CC, 0, 0, 0),
    {
        channel_message(&self.name, MessageType::CC, 0, 0, 0)
    }

    pub fn clear(&self) -> Result<(), ChannelError> {
        post(&self.output, self.clear_message())
    }

    /// The message that `set(x, y, color)` posts: a control change on the top
    /// row, a note on the pad, always on channel 0.
    pub fn led(&self, x: u8, y: u8, color: &Color) -> (r: MidiMessage)
        requires
            x <= 8,
            y <= 8,
        ensures
            is_outbound(
                r,
                self.port(),
                if y == 8 {
                    MessageType::CC
                } else {
                    MessageType::NoteOn
                },
                0,
                legacy_key(x, y),
                color.byte(),
            ),
    {
        if y == 8 {
            channel_message(&self.name, MessageType::CC, 0, 0x68 + x, color.color())
        } else {
            channel_message(&self.name, MessageType::NoteOn, 0, y * 0x10 + x, color.color())
        }
    }

    pub fn set(&self, x: u8, y: u8, color: &Color) -> Result<(), ChannelError>
        requires
            x <= 8,
            y <= 8,
    {
        post(&self.output, self.led(x, y, color))
    }

    /// The rapid-update message for two consecutive cells with colour bytes
    /// `first` and `second`: a note on channel 5.
    pub fn fill_message(&self, first: u8, second: u8) -> (r: MidiMessage)
        ensures
            is_outbound(r, self.port(), MessageType::NoteOn, 5, first as int, second),
    {
        channel_message(&self.name, MessageType::NoteOn, 5, first, second)
    }

    /// Sends two consecutive cells (see `fill_message`).
    pub fn fill_step(&self, first: &Color, second: &Color) -> Result<(), ChannelError> {
        post(&self.output, self.fill_message(first.color(), second.color()))
    }

    /// The pairs of colour bytes that `fill(grid)` sends, in order.
    pub fn fill_plan(grid: &Vec<Vec<Color>>) -> (r: Vec<(u8, u8)>)
        ensures
            r@ == fill_pairs(fill_cells(grid_bytes(grid@))),
    {
        let ghost g = grid_bytes(grid@);
        let mut cells: Vec<u8> = Vec::new();
        let mut x: usize = 0;
        while x < grid.len()
            invariant
                x <= grid@.len(),
                g == grid_bytes(grid@),
                cells@ == fill_cells(g.subrange(0, x as int)),
            decreases grid@.len() - x,
        {
            let row = &grid[x];
            let ghost rb = row@.map_values(|c: Color| c.byte());
            let ghost before = cells@;
            let mut y: usize = 0;
            while y < row.len() && y < 8
                invariant
                    y <= row@.len(),
                    y <= 8,
                    rb == row@.map_values(|c: Color| c.byte()),
                    cells@ == before + rb.subrange(0, y as int),
                decreases row@.len() - y,
            {
                cells.push(row[y].color());
                y = y + 1;
                proof {
                    assert(cells@ =~= before + rb.subrange(0, y as int));
                }
            }
            while y < 8
                invariant
                    y <= 8,
                    y >= rb.len() || y == 8,
                    rb.len() == row@.len(),
                    cells@ == before + fill_row(rb).subrange(0, y as int),
                decreases 8 - y,
            {
                cells.push(0);
                y = y + 1;
                proof {
                    assert(cells@ =~= before + fill_row(rb).subrange(0, y as int));
                }
            }
            proof {
                assert(g.subrange(0, x + 1).drop_last() =~= g.subrange(0, x as int));
                assert(g[x as int] == rb);
                assert(fill_row(rb).subrange(0, 8) =~= fill_row(rb));
            }
            x = x + 1;
        }
        proof {
            assert(g.subrange(0, grid@.len() as int) =~= g);
        }
        let mut pairs: Vec<(u8, u8)> = Vec::new();
        let mut i: usize = 0;
        while i + 1 < cells.len()
            invariant
                i % 2 == 0,
                i <= cells@.len(),
                pairs@ == fill_pairs(cells@.subrange(0, i as int)),
            decreases cells@.len() - i,
        {
            pairs.push((cells[i], cells[i + 1]));
            i = i + 2;
            proof {
                assert(pairs@ =~= fill_pairs(cells@.subrange(0, i as int)));
            }
        }
        proof {
            assert(pairs@ =~= fill_pairs(cells@));
        }
        pairs
    }

    /// Sends the whole 8x8 pad, two cells per message: `fill_message` of each
    /// pair of `fill_plan(grid)`, in order, stopping at the first failure.
    pub fn fill(&self, grid: Vec<Vec<Color>>) -> Result<(), ChannelError> {
        let plan = Launchpad::fill_plan(&grid);
        let mut i: usize = 0;
        while i < plan.len()
            invariant
                i <= plan@.len(),
            decreases plan@.len() - i,
        {
            let (first, second) = plan[i];
            post(&self.output, self.fill_message(first, second))?;
            i = i + 1;
        }
        Ok(())
    }
}

} // verus!
