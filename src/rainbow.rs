use crate::channel::ChannelError;
use crate::launchpad_x::{Color, LaunchpadX, PulseMode};
use vstd::prelude::*;

verus! {

/// The last phase of the animation: twice the number of colours less one.
pub const LAST_PHASE: i8 = 30;

/// The palette index shown at each colour step (the last two are dark).
pub open spec fn loop_color(step: int) -> u8 {
    if step == 0 {
        7
    } else if step == 1 {
        10
    } else if step == 2 {
        14
    } else if step == 3 {
        17
    } else if step == 4 {
        21
    } else if step == 5 {
        25
    } else if step == 6 {
        29
    } else if step == 7 {
        33
    } else if step == 8 {
        37
    } else if step == 9 {
        41
    } else if step == 10 {
        45
    } else if step == 11 {
        49
    } else if step == 12 {
        54
    } else if step == 13 {
        59
    } else {
        0
    }
}

/// A phase of a cell: below zero a cell waits, 0 to 31 walk through the 16
/// colours two phases each.
pub open spec fn phase_ok(v: i8) -> bool {
    -16 <= v < 32
}

/// The next phase of a cell: one more, wrapping at 32 while the animation
/// runs; once it is settling, one more up to `LAST_PHASE`.
pub open spec fn next_phase(v: i8, settle: bool) -> i8 {
    if !settle {
        if v + 1 == 32 {
            0
        } else {
            (v + 1) as i8
        }
    } else if v + 1 > LAST_PHASE {
        LAST_PHASE
    } else {
        (v + 1) as i8
    }
}

pub fn advance_phase(v: i8, settle: bool) -> (r: i8)
    requires
        phase_ok(v),
    ensures
        r == next_phase(v, settle),
        phase_ok(r),
{
    let t = v + 1;
    if !settle {
        if t == 32 {
            0
        } else {
            t
        }
    } else if t > LAST_PHASE {
        LAST_PHASE
    } else {
        t
    }
}

/// The colour shown for a phase; a waiting cell shows nothing.
pub fn phase_color(v: i8) -> (r: Option<Color>)
    requires
        phase_ok(v),
    ensures
        v < 0 ==> r is None,
        v >= 0 ==> r == Some(Color { color: loop_color(v / 2), pulse_mode: PulseMode::Static }),
{
    if v < 0 {
        return None;
    }
    let step = v / 2;
    let index: u8 = if step == 0 {
        7
    } else if step == 1 {
        10
    } else if step == 2 {
        14
    } else if step == 3 {
        17
    } else if step == 4 {
        21
    } else if step == 5 {
        25
    } else if step == 6 {
        29
    } else if step == 7 {
        33
    } else if step == 8 {
        37
    } else if step == 9 {
        41
    } else if step == 10 {
        45
    } else if step == 11 {
        49
    } else if step == 12 {
        54
    } else if step == 13 {
        59
    } else {
        0
    };
    Some(Color { color: index, pulse_mode: PulseMode::Static })
}

/// The animation is over: no cell is part-way through the colours.
pub open spec fn settled(states: Seq<i8>) -> bool {
    forall|i: int| 0 <= i < states.len() ==> !(0 < #[trigger] states[i] < LAST_PHASE)
}

/// A diagonal rainbow wave over the pad; a press makes it settle and stop.
pub struct Rainbow {
    launchpad: LaunchpadX,
    states: Vec<i8>,
    offset: u8,
    ending: bool,
}

impl Rainbow {
    pub closed spec fn phases(&self) -> Seq<i8> {
        self.states@
    }

    pub closed spec fn is_ending(&self) -> bool {
        self.ending
    }

    pub open spec fn wf(&self) -> bool {
        &&& self.phases().len() == 64
        &&& forall|i: int| 0 <= i < 64 ==> phase_ok(#[trigger] self.phases()[i])
    }

    /// Every cell waits a while, the more the nearer the bottom-left corner
    /// it is: cell (i, j) starts at phase `i + j - 16`.
    pub fn new(launchpad: LaunchpadX) -> (r: Rainbow)
        ensures
            r.wf(),
            !r.is_ending(),
            forall|i: int| 0 <= i < 64 ==> #[trigger] r.phases()[i] == (i / 8 + i % 8 - 16) as i8,
    {
        let mut states: Vec<i8> = Vec::new();
        let mut k: usize = 0;
        while k < 64
            invariant
                k <= 64,
                states@.len() == k,
                forall|i: int| 0 <= i < k ==> #[trigger] states@[i] == (i / 8 + i % 8 - 16) as i8,
            decreases 64 - k,
        {
            states.push(((k / 8) + (k % 8)) as i8 - 16);
            k = k + 1;
        }
        Rainbow { launchpad, states, offset: 2, ending: false }
    }

    /// A pad press: the wave settles and the animation stops.
    pub fn press(&mut self)
        ensures
            final(self).is_ending(),
            final(self).phases() == old(self).phases(),
    {
        self.ending = true;
    }

    fn tick_cell(&mut self, row: usize, column: usize) -> (r: Result<(), ChannelError>)
        requires
            old(self).wf(),
            row < 8,
            column < 8,
        ensures
            final(self).wf(),
            final(self).is_ending() == old(self).is_ending(),
    {
        let i = row * 8 + column;
        let settle = self.ending && self.states[63] >= LAST_PHASE;
        let next = advance_phase(self.states[i], settle);
        self.states.set(i, next);
        if let Some(color) = phase_color(next) {
            self.launchpad.set(7 - row as u8, column as u8, color)?;
        }
        Ok(())
    }

    /// One frame: in each row one cell of the first five columns moves on,
    /// and its twin five columns further when there is one; the wave shifts
    /// by one column per frame.
    pub fn frame(&mut self) -> (r: Result<(), ChannelError>)
        requires
            old(self).wf(),
        ensures
            final(self).wf(),
            final(self).is_ending() == old(self).is_ending(),
    {
        let mut row: usize = 0;
        while row < 8
            invariant
                row <= 8,
                self.wf(),
                self.ending == old(self).is_ending(),
            decreases 8 - row,
        {
            let column = (row * 3 + self.offset as usize) % 5;
            self.tick_cell(row, column)?;
            if column < 3 {
                self.tick_cell(row, column + 5)?;
            }
            row = row + 1;
        }
        self.offset = (self.offset % 5 + 1) % 5;
        Ok(())
    }

    /// Whether the animation is over: after a press, once no cell is
    /// part-way through the colours.
    pub fn finished(&self) -> (r: bool)
        requires
            self.wf(),
        ensures
            r == (self.is_ending() && settled(self.phases())),
    {
        if !self.ending {
            return false;
        }
        let mut k: usize = 0;
        while k < 64
            invariant
                k <= 64,
                self.states@.len() == 64,
                forall|i: int| 0 <= i < k ==> !(0 < #[trigger] self.states@[i] < LAST_PHASE),
            decreases 64 - k,
        {
            let v = self.states[k];
            if v > 0 && v < LAST_PHASE {
                return false;
            }
            k = k + 1;
        }
        true
    }

    pub fn start(&mut self) -> Result<(), ChannelError> {
        self.launchpad.set_programmer_mode(true)
    }

    pub fn finish(&mut self) -> Result<(), ChannelError> {
        self.launchpad.set_programmer_mode(false)
    }

    /// The input channel of the controller that the animation watches.
    pub fn input(&self) -> crossbeam_channel::Receiver<crate::message::MidiMessage> {
        self.launchpad.input()
    }
}

} // verus!
