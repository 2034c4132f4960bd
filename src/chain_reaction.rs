use crate::channel::ChannelError;
use crate::field::{cell_boom, cell_count, cell_player, Field};
use crate::launchpad_x::{led_index, pulse_byte, Color, LaunchpadX, PulseMode};
use crate::message::{is_outbound, MessageType, MidiMessage};
use vstd::prelude::*;

verus! {

/// The most players a match can have.
pub const MAX_PLAYERS: u8 = 5;

/// Where a match stands. `Starting` lasts until every player has placed once.
#[derive(Clone, Copy, Debug, PartialEq, Eq, Structural)]
pub enum ChainState {
    Empty,
    Starting(u8),
    InProgress(u8),
    GameOver(u8),
}

/// What the run loop does after an input message.
#[derive(Clone, Copy, Debug, PartialEq, Eq, Structural)]
pub enum Control {
    Continue,
    Exit,
    /// The speed button is held: tick every 50 ms.
    FastTicks,
    /// The speed button was released: tick every 600 ms.
    NormalTicks,
}

/// The count at which a cell explodes: 2 in a corner, 3 on an edge, 4 inside.
pub open spec fn threshold(r: int, c: int) -> u8 {
    if (r == 0 || r == 7) && (c == 0 || c == 7) {
        2
    } else if r == 0 || r == 7 || c == 0 || c == 7 {
        3
    } else {
        4
    }
}

/// The byte of cell (`r`, `c`) of a row-major 8x8 board.
pub open spec fn cell_at(b: Seq<Field>, r: int, c: int) -> u8 {
    b[r * 8 + c].0
}

/// Cell (`r`, `c`) is on the board and explodes on the next tick.
pub open spec fn explodes(b: Seq<Field>, r: int, c: int) -> bool {
    0 <= r < 8 && 0 <= c < 8 && cell_count(cell_at(b, r, c)) >= threshold(r, c)
}

/// The number of orthogonal neighbours of (`r`, `c`) that explode.
pub open spec fn incoming(b: Seq<Field>, r: int, c: int) -> int {
    (if explodes(b, r - 1, c) {
        1int
    } else {
        0
    }) + (if explodes(b, r, c - 1) {
        1int
    } else {
        0
    }) + (if explodes(b, r, c + 1) {
        1int
    } else {
        0
    }) + (if explodes(b, r + 1, c) {
        1int
    } else {
        0
    })
}

/// The count of (`r`, `c`) after a tick: its threshold is taken away if it
/// explodes, one is added for each exploding neighbour (modulo the 4 bits).
pub open spec fn tick_count(b: Seq<Field>, r: int, c: int) -> int {
    tick_sum(b, r, c) % 16
}

/// The count of (`r`, `c`) after a tick before it is cut to 4 bits.
pub open spec fn tick_sum(b: Seq<Field>, r: int, c: int) -> int {
    cell_count(cell_at(b, r, c)) - (if explodes(b, r, c) {
        threshold(r, c) as int
    } else {
        0
    }) + incoming(b, r, c)
}

/// The owner of (`r`, `c`) after a tick: the owner of the last exploding
/// neighbour in row-major order; else nobody if the cell exploded down to
/// zero; else its owner.
pub open spec fn tick_player(b: Seq<Field>, r: int, c: int) -> u8 {
    if explodes(b, r + 1, c) {
        cell_player(cell_at(b, r + 1, c))
    } else if explodes(b, r, c + 1) {
        cell_player(cell_at(b, r, c + 1))
    } else if explodes(b, r, c - 1) {
        cell_player(cell_at(b, r, c - 1))
    } else if explodes(b, r - 1, c) {
        cell_player(cell_at(b, r - 1, c))
    } else if explodes(b, r, c) && cell_count(cell_at(b, r, c)) == threshold(r, c) {
        0
    } else {
        cell_player(cell_at(b, r, c))
    }
}

/// `n` is the board after one tick of `b`: every cell as `tick_count` and
/// `tick_player` say, flagged exactly when a neighbour exploded into it.
pub open spec fn is_tick_of(b: Seq<Field>, n: Seq<Field>) -> bool {
    &&& n.len() == 64
    &&& forall|r: int, c: int|
        0 <= r < 8 && 0 <= c < 8 ==> {
            &&& cell_count(#[trigger] cell_at(n, r, c)) == tick_count(b, r, c)
            &&& cell_player(cell_at(n, r, c)) == tick_player(b, r, c)
            &&& cell_boom(cell_at(n, r, c)) == (incoming(b, r, c) > 0)
        }
}

/// Every cell has an owner exactly when its count is not zero.
pub open spec fn owners_consistent(b: Seq<Field>) -> bool {
    forall|r: int, c: int|
        0 <= r < 8 && 0 <= c < 8 ==> ((cell_count(#[trigger] cell_at(b, r, c)) == 0) == (
        cell_player(cell_at(b, r, c)) == 0))
}

/// No count of the next tick reaches 16 (so none wraps round in its 4 bits).
pub open spec fn tick_fits(b: Seq<Field>) -> bool {
    forall|r: int, c: int| 0 <= r < 8 && 0 <= c < 8 ==> #[trigger] tick_sum(b, r, c) < 16
}

/// A tick keeps "count 0 exactly when no owner" as long as no count wraps:
/// a cell that receives markers takes the owner of an exploding (so
/// non-empty, so owned) neighbour, and a cell that explodes down to zero
/// loses its owner.
pub proof fn lemma_tick_keeps_owners(b: Seq<Field>, n: Seq<Field>)
    requires
        b.len() == 64,
        is_tick_of(b, n),
        owners_consistent(b),
        tick_fits(b),
    ensures
        owners_consistent(n),
{
    assert forall|r: int, c: int| 0 <= r < 8 && 0 <= c < 8 implies ((cell_count(
        #[trigger] cell_at(n, r, c),
    ) == 0) == (cell_player(cell_at(n, r, c)) == 0)) by {
        assert(tick_sum(b, r, c) < 16);
        if explodes(b, r + 1, c) {
            assert(cell_count(cell_at(b, r + 1, c)) != 0);
        } else if explodes(b, r, c + 1) {
            assert(cell_count(cell_at(b, r, c + 1)) != 0);
        } else if explodes(b, r, c - 1) {
            assert(cell_count(cell_at(b, r, c - 1)) != 0);
        } else if explodes(b, r - 1, c) {
            assert(cell_count(cell_at(b, r - 1, c)) != 0);
        }
    }
}

proof fn lemma_cell_index(r: int, c: int, r2: int, c2: int)
    requires
        0 <= r < 8,
        0 <= c < 8,
        0 <= r2 < 8,
        0 <= c2 < 8,
    ensures
        0 <= r * 8 + c < 64,
        (r * 8 + c == r2 * 8 + c2) == (r == r2 && c == c2),
{
    assert(0 <= r * 8 + c < 64 && ((r * 8 + c == r2 * 8 + c2) == (r == r2 && c == c2)))
        by (nonlinear_arith)
        requires
            0 <= r < 8,
            0 <= c < 8,
            0 <= r2 < 8,
            0 <= c2 < 8,
    ;
}

/// An empty board is consistent.
proof fn lemma_empty_consistent(b: Seq<Field>)
    requires
        b.len() == 64,
        forall|i: int| 0 <= i < 64 ==> (#[trigger] b[i]).0 == 0,
    ensures
        owners_consistent(b),
{
    assert forall|r: int, c: int| 0 <= r < 8 && 0 <= c < 8 implies ((cell_count(
        #[trigger] cell_at(b, r, c),
    ) == 0) == (cell_player(cell_at(b, r, c)) == 0)) by {
        lemma_cell_index(r, c, r, c);
    }
}

/// A placement keeps "count 0 exactly when no owner" unless the count wraps.
proof fn lemma_place_keeps_owners(b: Seq<Field>, n: Seq<Field>, row: int, col: int, p: u8)
    requires
        b.len() == 64,
        n.len() == 64,
        0 <= row < 8,
        0 <= col < 8,
        owners_consistent(b),
        cell_count(cell_at(b, row, col)) < 15,
        forall|j: int| 0 <= j < 64 && j != row * 8 + col ==> n[j] == b[j],
        cell_count(cell_at(n, row, col)) == (cell_count(cell_at(b, row, col)) + 1) % 16,
        cell_player(cell_at(n, row, col)) == p,
        p != 0,
    ensures
        owners_consistent(n),
{
    assert forall|r: int, c: int| 0 <= r < 8 && 0 <= c < 8 implies ((cell_count(
        #[trigger] cell_at(n, r, c),
    ) == 0) == (cell_player(cell_at(n, r, c)) == 0)) by {
        lemma_cell_index(r, c, row, col);
        if r != row || c != col {
            assert(cell_at(n, r, c) == cell_at(b, r, c));
        }
    }
}

/// Some cell of the board explodes on the next tick.
pub open spec fn any_explodes(b: Seq<Field>) -> bool {
    exists|r: int, c: int| explodes(b, r, c)
}

/// Some cell of the board is owned by `p`.
pub open spec fn owns_a_cell(b: Seq<Field>, p: int) -> bool {
    exists|i: int| 0 <= i < b.len() && cell_player(#[trigger] b[i].0) == p
}

/// Index `k` is the only one set among the first five.
pub open spec fn sole_alive(alive: Seq<bool>, k: int) -> bool {
    &&& 0 <= k < 5
    &&& alive[k]
    &&& forall|j: int| 0 <= j < 5 && j != k ==> !alive[j]
}

/// The first living player met going round from `p` (1-based), taking at
/// most `steps` steps; `p` itself when the steps run out.
pub open spec fn seek_alive(alive: Seq<bool>, count: u8, p: u8, steps: nat) -> u8
    decreases steps,
{
    if steps == 0 || alive[p - 1] {
        p
    } else {
        seek_alive(alive, count, (p % count + 1) as u8, (steps - 1) as nat)
    }
}

/// The state after a successful placement, before dead players are skipped.
pub open spec fn advanced(s: ChainState, count: u8) -> ChainState {
    match s {
        ChainState::Empty => ChainState::Starting(2),
        ChainState::Starting(x) => if x == count {
            ChainState::InProgress(1)
        } else {
            ChainState::Starting((x + 1) as u8)
        },
        ChainState::InProgress(x) => if x == count {
            ChainState::InProgress(1)
        } else {
            ChainState::InProgress((x + 1) as u8)
        },
        ChainState::GameOver(x) => ChainState::GameOver(x),
    }
}

/// The state with the turn moved past dead players (in a running match).
pub open spec fn skipped(s: ChainState, alive: Seq<bool>, count: u8) -> ChainState {
    match s {
        ChainState::InProgress(p) => ChainState::InProgress(
            seek_alive(alive, count, p, count as nat),
        ),
        _ => s,
    }
}

/// The player whose turn it is: player 1 opens the match.
pub open spec fn to_move(s: ChainState) -> u8 {
    match s {
        ChainState::Empty => 1,
        ChainState::Starting(p) => p,
        ChainState::InProgress(p) => p,
        ChainState::GameOver(p) => p,
    }
}

/// The palette index for a player's cell at a level (the count, capped at 3).
pub open spec fn palette_index(player: u8, level: u8) -> u8 {
    if level == 0 || player == 0 || player > 5 {
        0
    } else {
        let base: u8 = if player == 1 {
            8
        } else if player == 2 {
            44
        } else if player == 3 {
            28
        } else if player == 4 {
            16
        } else {
            56
        };
        (base - level) as u8
    }
}

/// The colour of a player's cell at a level (the count, capped at 3).
pub fn palette(player: u8, level: u8) -> (r: Color)
    requires
        level <= 3,
    ensures
        r.color == palette_index(player, level),
        r.pulse_mode == PulseMode::Static,
{
    let index: u8 = if level == 0 || player == 0 || player > 5 {
        0
    } else {
        let base: u8 = if player == 1 {
            8
        } else if player == 2 {
            44
        } else if player == 3 {
            28
        } else if player == 4 {
            16
        } else {
            56
        };
        base - level
    };
    Color { color: index, pulse_mode: PulseMode::Static }
}

pub fn explosion_threshold(row: usize, col: usize) -> (r: u8)
    requires
        row < 8,
        col < 8,
    ensures
        r == threshold(row as int, col as int),
{
    if (row == 0 || row == 7) && (col == 0 || col == 7) {
        2
    } else if row == 0 || row == 7 || col == 0 || col == 7 {
        3
    } else {
        4
    }
}

/// The colour that shows a cell: the owner's palette at `min(count, 3)`,
/// pulsing once the count is one short of the threshold or more.
pub open spec fn cell_color(row: int, col: int, f: u8) -> Color {
    let level: u8 = if cell_count(f) > 3 {
        3
    } else {
        cell_count(f)
    };
    Color {
        color: palette_index(cell_player(f), level),
        pulse_mode: if cell_count(f) + 1 >= threshold(row, col) {
            PulseMode::Pulse
        } else {
            PulseMode::Static
        },
    }
}

pub fn render_color(row: usize, col: usize, field: Field) -> (r: Color)
    requires
        row < 8,
        col < 8,
    ensures
        r == cell_color(row as int, col as int, field.0),
{
    let count = field.count();
    let level: u8 = if count > 3 {
        3
    } else {
        count
    };
    let mut color = palette(field.player(), level);
    if count + 1 >= explosion_threshold(row, col) {
        color.pulse_mode = PulseMode::Pulse;
    }
    color
}

fn explodes_at(board: &Vec<Field>, row: usize, col: usize) -> (r: bool)
    requires
        board@.len() == 64,
        row < 8,
        col < 8,
    ensures
        r == explodes(board@, row as int, col as int),
{
    board[row * 8 + col].count() >= explosion_threshold(row, col)
}

/// The owner of (`row`, `col`) if that cell explodes on the next tick.
fn blast(board: &Vec<Field>, row: usize, col: usize) -> (r: Option<u8>)
    requires
        board@.len() == 64,
        row < 8,
        col < 8,
    ensures
        r == (if explodes(board@, row as int, col as int) {
            Some(cell_player(cell_at(board@, row as int, col as int)))
        } else {
            None
        }),
{
    if explodes_at(board, row, col) {
        Some(board[row * 8 + col].player())
    } else {
        None
    }
}

/// What an exploding neighbour (or none) does to a cell: one more marker,
/// the neighbour's owner, and the flag.
fn absorb(f: &mut Field, from: Option<u8>)
    requires
        from matches Some(p) ==> p < 8,
    ensures
        from is None ==> *final(f) == *old(f),
        from matches Some(p) ==> {
            &&& cell_count(final(f).0) == (cell_count(old(f).0) + 1) % 16
            &&& cell_player(final(f).0) == p
            &&& cell_boom(final(f).0)
        },
{
    if let Some(player) = from {
        f.add_count(1);
        f.set_player(player);
        f.set_boom(true);
    }
}

/// The blast from (`row` + `dr` - 1, `col` + `dc` - 1), `None` off the board.
fn blast_from(board: &Vec<Field>, row: usize, col: usize, dr: usize, dc: usize) -> (r: Option<u8>)
    requires
        board@.len() == 64,
        row < 8,
        col < 8,
        dr <= 2,
        dc <= 2,
    ensures
        r == (if explodes(board@, row + dr - 1, col + dc - 1) {
            Some(cell_player(cell_at(board@, row + dr - 1, col + dc - 1)))
        } else {
            None
        }),
        r matches Some(p) ==> p < 8,
{
    if row + dr >= 1 && row + dr <= 8 && col + dc >= 1 && col + dc <= 8 {
        blast(board, row + dr - 1, col + dc - 1)
    } else {
        None
    }
}

/// The number of blasts present.
spec fn blasts(up: Option<u8>, left: Option<u8>, right: Option<u8>, down: Option<u8>) -> int {
    (if up is Some {
        1int
    } else {
        0
    }) + (if left is Some {
        1int
    } else {
        0
    }) + (if right is Some {
        1int
    } else {
        0
    }) + (if down is Some {
        1int
    } else {
        0
    })
}

/// The owner left by the last blast present, `base` if there is none.
spec fn last_blaster(
    up: Option<u8>,
    left: Option<u8>,
    right: Option<u8>,
    down: Option<u8>,
    base: u8,
) -> u8 {
    if down is Some {
        down->0
    } else if right is Some {
        right->0
    } else if left is Some {
        left->0
    } else if up is Some {
        up->0
    } else {
        base
    }
}

proof fn lemma_mod16_step(a: int)
    requires
        a >= 0,
    ensures
        (a % 16 + 1) % 16 == (a + 1) % 16,
{
    assert((a % 16 + 1) % 16 == (a + 1) % 16) by (nonlinear_arith)
        requires
            a >= 0,
    ;
}

/// A cell after the blasts from its neighbours, taken in row-major order.
fn absorb_all(f: Field, up: Option<u8>, left: Option<u8>, right: Option<u8>, down: Option<u8>) -> (r:
    Field)
    requires
        up matches Some(p) ==> p < 8,
        left matches Some(p) ==> p < 8,
        right matches Some(p) ==> p < 8,
        down matches Some(p) ==> p < 8,
    ensures
        cell_count(r.0) == (cell_count(f.0) + blasts(up, left, right, down)) % 16,
        cell_player(r.0) == last_blaster(up, left, right, down, cell_player(f.0)),
        cell_boom(r.0) == (cell_boom(f.0) || blasts(up, left, right, down) > 0),
{
    let mut g = f;
    let ghost c0 = cell_count(f.0) as int;
    absorb(&mut g, up);
    let ghost k1: int = if up is Some { 1 } else { 0 };
    proof {
        lemma_mod16_step(c0);
        assert(cell_count(g.0) == (c0 + k1) % 16);
    }
    absorb(&mut g, left);
    let ghost k2: int = k1 + if left is Some { 1int } else { 0 };
    proof {
        lemma_mod16_step(c0 + k1);
        assert(cell_count(g.0) == (c0 + k2) % 16);
    }
    absorb(&mut g, right);
    let ghost k3: int = k2 + if right is Some { 1int } else { 0 };
    proof {
        lemma_mod16_step(c0 + k2);
        assert(cell_count(g.0) == (c0 + k3) % 16);
    }
    absorb(&mut g, down);
    proof {
        lemma_mod16_step(c0 + k3);
    }
    g
}

/// A cell with its flag cleared and, if it explodes, its threshold taken away.
fn spent_cell(board: &Vec<Field>, row: usize, col: usize) -> (r: Field)
    requires
        board@.len() == 64,
        row < 8,
        col < 8,
    ensures
        cell_count(r.0) == cell_count(cell_at(board@, row as int, col as int)) - (if explodes(
            board@,
            row as int,
            col as int,
        ) {
            threshold(row as int, col as int) as int
        } else {
            0
        }),
        cell_player(r.0) == (if explodes(board@, row as int, col as int) && cell_count(
            cell_at(board@, row as int, col as int),
        ) == threshold(row as int, col as int) {
            0
        } else {
            cell_player(cell_at(board@, row as int, col as int))
        }),
        !cell_boom(r.0),
{
    let mut f = board[row * 8 + col];
    f.set_boom(false);
    let t = explosion_threshold(row, col);
    if f.count() >= t {
        f.sub_count(t);
    }
    f
}

/// The new value of one cell after a tick of `board`.
fn tick_cell(board: &Vec<Field>, row: usize, col: usize) -> (r: Field)
    requires
        board@.len() == 64,
        row < 8,
        col < 8,
    ensures
        cell_count(r.0) == tick_count(board@, row as int, col as int),
        cell_player(r.0) == tick_player(board@, row as int, col as int),
        cell_boom(r.0) == (incoming(board@, row as int, col as int) > 0),
{
    let base = spent_cell(board, row, col);
    let up = blast_from(board, row, col, 0, 1);
    let left = blast_from(board, row, col, 1, 0);
    let right = blast_from(board, row, col, 1, 2);
    let down = blast_from(board, row, col, 2, 1);
    let f = absorb_all(base, up, left, right, down);
    proof {
        assert(blasts(up, left, right, down) == incoming(board@, row as int, col as int));
    }
    f
}

/// `v` is what a tick makes of cell `j` (row `j / 8`, column `j % 8`).
spec fn ticked_at(b: Seq<Field>, v: u8, j: int) -> bool {
    &&& cell_count(v) == tick_count(b, j / 8, j % 8)
    &&& cell_player(v) == tick_player(b, j / 8, j % 8)
    &&& cell_boom(v) == (incoming(b, j / 8, j % 8) > 0)
}

/// One tick of the board, double-buffered: every cell's new value is read
/// off the board as it was before the tick.
pub fn tick_board(board: &Vec<Field>) -> (r: Vec<Field>)
    requires
        board@.len() == 64,
    ensures
        is_tick_of(board@, r@),
{
    let mut next: Vec<Field> = Vec::new();
    let mut i: usize = 0;
    while i < 64
        invariant
            i <= 64,
            board@.len() == 64,
            next@.len() == i,
            forall|j: int| 0 <= j < i ==> ticked_at(board@, #[trigger] next@[j].0, j),
        decreases 64 - i,
    {
        let f = tick_cell(board, i / 8, i % 8);
        next.push(f);
        i = i + 1;
    }
    proof {
        assert forall|r: int, c: int| 0 <= r < 8 && 0 <= c < 8 implies {
            &&& cell_count(#[trigger] cell_at(next@, r, c)) == tick_count(board@, r, c)
            &&& cell_player(cell_at(next@, r, c)) == tick_player(board@, r, c)
            &&& cell_boom(cell_at(next@, r, c)) == (incoming(board@, r, c) > 0)
        } by {
            let j = r * 8 + c;
            assert(j / 8 == r && j % 8 == c && 0 <= j < 64) by (nonlinear_arith)
                requires
                    j == r * 8 + c,
                    0 <= r < 8,
                    0 <= c < 8,
            ;
            assert(ticked_at(board@, next@[j].0, j));
        }
    }
    next
}

/// A tick flags some cell exactly when some cell explodes: every cell has
/// at least two neighbours on the board.
proof fn lemma_flag_iff_explosion(b: Seq<Field>, n: Seq<Field>)
    requires
        b.len() == 64,
        is_tick_of(b, n),
    ensures
        (exists|r: int, c: int| 0 <= r < 8 && 0 <= c < 8 && cell_boom(#[trigger] cell_at(n, r, c)))
            == any_explodes(b),
{
    if any_explodes(b) {
        let (r, c) = choose|r: int, c: int| explodes(b, r, c);
        if r < 7 {
            assert(incoming(b, r + 1, c) > 0);
            assert(cell_boom(cell_at(n, r + 1, c)));
        } else {
            assert(incoming(b, r - 1, c) > 0);
            assert(cell_boom(cell_at(n, r - 1, c)));
        }
    }
    if exists|r: int, c: int| 0 <= r < 8 && 0 <= c < 8 && cell_boom(#[trigger] cell_at(n, r, c)) {
        let (r, c) = choose|r: int, c: int|
            0 <= r < 8 && 0 <= c < 8 && cell_boom(#[trigger] cell_at(n, r, c));
        assert(incoming(b, r, c) > 0);
        if explodes(b, r - 1, c) {
            assert(explodes(b, r - 1, c));
        } else if explodes(b, r, c - 1) {
            assert(explodes(b, r, c - 1));
        } else if explodes(b, r, c + 1) {
            assert(explodes(b, r, c + 1));
        } else {
            assert(explodes(b, r + 1, c));
        }
    }
}

/// The pad that `midi_to_item` reads off a message.
pub open spec fn midi_to_item_spec(msg: &MidiMessage) -> Option<(u8, u8)> {
    if msg.key % 10 > 8 || msg.key / 10 == 0 || msg.key % 10 == 0 || msg.msg_type
        == MessageType::CC {
        None
    } else {
        Some(((msg.key / 10 - 1) as u8, (msg.key % 10 - 1) as u8))
    }
}

/// Reads a pad of the RGB grid off a note message: (row, column) from the
/// decimal key `(row + 1) * 10 + (column + 1)`; `None` for control changes
/// and keys outside the 9x9 grid's pads.
pub fn midi_to_item(msg: &MidiMessage) -> (r: Option<(u8, u8)>)
    ensures
        r == midi_to_item_spec(msg),
{
    let row = msg.key / 10;
    let col = msg.key % 10;
    if col > 8 || row == 0 || col == 0 || msg.msg_type == MessageType::CC {
        None
    } else {
        Some((row - 1, col - 1))
    }
}

/// One LED of the side menu, on the DAW port (`session`) or the MIDI port.
#[derive(Clone, Copy, Debug, PartialEq, Eq, Structural)]
pub struct MenuLed {
    pub session: bool,
    pub x: u8,
    pub y: u8,
    pub color: Color,
}

/// A static palette colour.
pub open spec fn static_color(index: u8) -> Color {
    Color { color: index, pulse_mode: PulseMode::Static }
}

fn plain(index: u8) -> (r: Color)
    ensures
        r == static_color(index),
{
    Color { color: index, pulse_mode: PulseMode::Static }
}

/// The exit, reset and speed buttons, on the DAW port.
pub open spec fn menu_head() -> Seq<MenuLed> {
    seq![
        MenuLed { session: true, x: 7, y: 8, color: static_color(6) },
        MenuLed { session: true, x: 6, y: 8, color: static_color(7) },
        MenuLed { session: true, x: 5, y: 8, color: static_color(10) },
    ]
}

/// The first four LEDs of the top row, all in one colour.
pub open spec fn top_row(c: Color) -> Seq<MenuLed> {
    Seq::new(4, |i: int| MenuLed { session: false, x: i as u8, y: 8, color: c })
}

/// The right column: before a match, one LED per player in that player's
/// colour; during and after a match, the mover's (or winner's) three
/// shades; the rest dark.
pub open spec fn side_column(s: ChainState, count: u8) -> Seq<MenuLed> {
    Seq::new(
        8,
        |i: int|
            MenuLed {
                session: false,
                x: 8,
                y: i as u8,
                color: match s {
                    ChainState::Empty => if i < count {
                        static_color(palette_index((i + 1) as u8, 3))
                    } else {
                        static_color(0)
                    },
                    _ => if i < 3 {
                        static_color(palette_index(to_move(s), (i + 1) as u8))
                    } else {
                        static_color(0)
                    },
                },
            },
    )
}

/// The whole side menu for a state and a number of players: the buttons,
/// the top row (dark, or the winner's colour once the match is over), the
/// right column, the player-count LED (4, 8) and the corner (8, 8).
pub open spec fn menu_spec(s: ChainState, count: u8) -> Seq<MenuLed> {
    let top = match s {
        ChainState::GameOver(p) => static_color(palette_index(p, 3)),
        _ => static_color(0),
    };
    let corner = match s {
        ChainState::Empty => static_color(palette_index(count, 3)),
        _ => static_color(0),
    };
    menu_head() + top_row(top) + side_column(s, count) + seq![
        MenuLed { session: false, x: 4, y: 8, color: corner },
        MenuLed { session: false, x: 8, y: 8, color: static_color(palette_index(to_move(s), 3)) },
    ]
}

proof fn lemma_menu_on_grid(s: ChainState, count: u8)
    ensures
        forall|j: int|
            0 <= j < menu_spec(s, count).len() ==> (#[trigger] menu_spec(s, count)[j]).x <= 8
                && menu_spec(s, count)[j].y <= 8,
{
    let m = menu_spec(s, count);
    assert forall|j: int| 0 <= j < m.len() implies (#[trigger] m[j]).x <= 8 && m[j].y <= 8 by {
        if j >= 7 && j < 15 {
            assert(m[j] == side_column(s, count)[j - 7]);
        } else if j >= 3 && j < 7 {
            assert(m[j] == top_row(
                match s {
                    ChainState::GameOver(p) => static_color(palette_index(p, 3)),
                    _ => static_color(0),
                },
            )[j - 3]);
        }
    }
}

/// The Chain Reaction board game on the RGB controller's 8x8 pad: players
/// take turns placing markers, full cells explode into their neighbours on
/// each tick, and the last player with a cell wins.
pub struct ChainReaction {
    board: Vec<Field>,
    state: ChainState,
    players_alive: Vec<bool>,
    player_count: u8,
    has_boom: bool,
    launchpad: LaunchpadX,
}

impl ChainReaction {
    /// The controller the game draws on.
    pub closed spec fn controller(&self) -> LaunchpadX {
        self.launchpad
    }

    /// The board, row-major.
    pub closed spec fn board(&self) -> Seq<Field> {
        self.board@
    }

    pub closed spec fn game_state(&self) -> ChainState {
        self.state
    }

    /// Whether each player (index 0 is player 1) held a cell at the last tick.
    pub closed spec fn alive(&self) -> Seq<bool> {
        self.players_alive@
    }

    pub closed spec fn players(&self) -> u8 {
        self.player_count
    }

    /// A cascade is running: input is ignored until it settles.
    pub closed spec fn cascading(&self) -> bool {
        self.has_boom
    }

    pub open spec fn wf(&self) -> bool {
        &&& self.board().len() == 64
        &&& self.alive().len() == 5
        &&& 2 <= self.players() <= MAX_PLAYERS
        &&& match self.game_state() {
            ChainState::Empty => true,
            ChainState::Starting(p) => 1 <= p <= self.players(),
            ChainState::InProgress(p) => 1 <= p <= self.players(),
            ChainState::GameOver(p) => 1 <= p <= MAX_PLAYERS,
        }
    }

    /// `new` is `old` after the player to move tried to place a marker on
    /// (`row`, `col`), and `placed` says whether it was allowed: not once the
    /// match is over, and only on an empty cell or one of the mover's own.
    /// An allowed placement adds a marker and the mover's colour to the cell
    /// and passes the turn on, skipping dead players.
    pub open spec fn is_placement(
        old: ChainReaction,
        new: ChainReaction,
        row: u8,
        col: u8,
        placed: bool,
    ) -> bool {
        let i = row * 8 + col;
        let f = cell_at(old.board(), row as int, col as int);
        &&& placed == (!(old.game_state() is GameOver) && (cell_player(f) == to_move(
            old.game_state(),
        ) || cell_player(f) == 0))
        &&& !placed ==> new == old
        &&& placed ==> {
            &&& new.board().len() == 64
            &&& forall|j: int| 0 <= j < 64 && j != i ==> new.board()[j] == old.board()[j]
            &&& cell_count(new.board()[i].0) == (cell_count(f) + 1) % 16
            &&& cell_player(new.board()[i].0) == to_move(old.game_state())
            &&& cell_boom(new.board()[i].0) == cell_boom(f)
            &&& new.game_state() == skipped(
                advanced(old.game_state(), old.players()),
                old.alive(),
                old.players(),
            )
            &&& new.alive() == old.alive()
            &&& new.players() == old.players()
            &&& new.cascading() == old.cascading()
        }
    }

    /// Board, state, living players, player count and cascade flag agree.
    pub open spec fn same_game(a: ChainReaction, b: ChainReaction) -> bool {
        &&& a.board() == b.board()
        &&& a.game_state() == b.game_state()
        &&& a.alive() == b.alive()
        &&& a.players() == b.players()
        &&& a.cascading() == b.cascading()
    }

    /// A new two-player match on an empty board.
    pub fn new(launchpad: LaunchpadX) -> (r: ChainReaction)
        ensures
            r.wf(),
            r.game_state() == ChainState::Empty,
            r.players() == 2,
            !r.cascading(),
            forall|i: int| 0 <= i < 64 ==> (#[trigger] r.board()[i]).0 == 0,
            forall|i: int| 0 <= i < 5 ==> #[trigger] r.alive()[i],
            owners_consistent(r.board()),
    {
        let r = ChainReaction {
            board: vec![Field(0); 64],
            state: ChainState::Empty,
            players_alive: vec![true; 5],
            player_count: 2,
            has_boom: false,
            launchpad,
        };
        proof {
            lemma_empty_consistent(r.board@);
        }
        r
    }

    pub fn state(&self) -> (r: ChainState)
        ensures
            r == self.game_state(),
    {
        self.state
    }

    pub fn cell(&self, row: usize, col: usize) -> (r: Field)
        requires
            self.wf(),
            row < 8,
            col < 8,
        ensures
            r.0 == cell_at(self.board(), row as int, col as int),
    {
        self.board[row * 8 + col]
    }

    pub fn player_count(&self) -> (r: u8)
        ensures
            r == self.players(),
    {
        self.player_count
    }

    pub fn has_boom(&self) -> (r: bool)
        ensures
            r == self.cascading(),
    {
        self.has_boom
    }

    /// Moves the turn past players that hold no cell (in a running match).
    fn skip_to_next_player(&mut self)
        requires
            old(self).wf(),
        ensures
            final(self).wf(),
            final(self).game_state() == skipped(
                old(self).game_state(),
                old(self).alive(),
                old(self).players(),
            ),
            final(self).board() == old(self).board(),
            final(self).alive() == old(self).alive(),
            final(self).players() == old(self).players(),
            final(self).cascading() == old(self).cascading(),
    {
        let mut next_player = match self.state {
            ChainState::InProgress(player) => player,
            _ => return ,
        };
        let ghost start = next_player;
        let count = self.player_count;
        let mut steps: u8 = count;
        while steps > 0 && !self.players_alive[(next_player - 1) as usize]
            invariant
                1 <= next_player <= count,
                2 <= count <= 5,
                steps <= count,
                self.players_alive@.len() == 5,
                seek_alive(self.players_alive@, count, next_player, steps as nat) == seek_alive(
                    self.players_alive@,
                    count,
                    start,
                    count as nat,
                ),
            decreases steps,
        {
            next_player = (next_player % count) + 1;
            steps = steps - 1;
        }
        self.state = ChainState::InProgress(next_player);
    }

    /// Passes the turn on after a placement and skips dead players.
    fn step_next_player(&mut self)
        requires
            old(self).wf(),
        ensures
            final(self).wf(),
            final(self).game_state() == skipped(
                advanced(old(self).game_state(), old(self).players()),
                old(self).alive(),
                old(self).players(),
            ),
            final(self).board() == old(self).board(),
            final(self).alive() == old(self).alive(),
            final(self).players() == old(self).players(),
            final(self).cascading() == old(self).cascading(),
    {
        self.state = match self.state {
            ChainState::Empty => ChainState::Starting(2),
            ChainState::InProgress(x) => if x == self.player_count {
                ChainState::InProgress(1)
            } else {
                ChainState::InProgress(x + 1)
            },
            ChainState::Starting(x) => if x == self.player_count {
                ChainState::InProgress(1)
            } else {
                ChainState::Starting(x + 1)
            },
            ChainState::GameOver(x) => ChainState::GameOver(x),
        };
        self.skip_to_next_player();
    }

    /// The player to move places a marker on (`row`, `col`). Allowed on an
    /// empty cell or one of their own, unless the match is over; then the
    /// cell gains a marker and the turn passes on.
    pub fn step(&mut self, row: u8, col: u8) -> (r: bool)
        requires
            old(self).wf(),
            row < 8,
            col < 8,
        ensures
            final(self).wf(),
            Self::is_placement(*old(self), *final(self), row, col, r),
            owners_consistent(old(self).board()) && cell_count(
                cell_at(old(self).board(), row as int, col as int),
            ) < 15 ==> owners_consistent(final(self).board()),
    {
        let idx: usize = row as usize * 8 + col as usize;
        let next_player = match self.state {
            ChainState::Empty => 1,
            ChainState::Starting(player) => player,
            ChainState::InProgress(player) => player,
            ChainState::GameOver(_) => return false,
        };
        let mut item = self.board[idx];
        let player = item.player();
        let change = player == next_player || player == 0;
        if change {
            item.add_count(1);
            item.set_player(next_player);
            self.board.set(idx, item);
            proof {
                lemma_cell_index(row as int, col as int, row as int, col as int);
                if owners_consistent(old(self).board@) && cell_count(
                    cell_at(old(self).board@, row as int, col as int),
                ) < 15 {
                    lemma_place_keeps_owners(
                        old(self).board@,
                        self.board@,
                        row as int,
                        col as int,
                        next_player,
                    );
                }
            }
            self.step_next_player();
        }
        change
    }

    /// Recomputes which players hold a cell.
    fn update_alive(&mut self)
        requires
            old(self).wf(),
        ensures
            final(self).wf(),
            forall|k: int| 0 <= k < 5 ==> #[trigger] final(self).alive()[k] == owns_a_cell(
                old(self).board(),
                k + 1,
            ),
            final(self).board() == old(self).board(),
            final(self).game_state() == old(self).game_state(),
            final(self).players() == old(self).players(),
            final(self).cascading() == old(self).cascading(),
    {
        let mut alive: Vec<bool> = vec![false; 5];
        let mut i: usize = 0;
        while i < 64
            invariant
                i <= 64,
                self.board@.len() == 64,
                alive@.len() == 5,
                forall|k: int|
                    0 <= k < 5 ==> #[trigger] alive@[k] == exists|j: int|
                        0 <= j < i && cell_player(#[trigger] self.board@[j].0) == k + 1,
            decreases 64 - i,
        {
            let p = self.board[i].player();
            if p > 0 && p <= 5 {
                alive.set((p - 1) as usize, true);
            }
            proof {
                assert forall|k: int| 0 <= k < 5 implies #[trigger] alive@[k] == exists|j: int|
                    0 <= j < i + 1 && cell_player(#[trigger] self.board@[j].0) == k + 1 by {
                    if cell_player(self.board@[i as int].0) == k + 1 {
                        assert(0 <= i < i + 1);
                    }
                    if exists|j: int| 0 <= j < i + 1 && cell_player(#[trigger] self.board@[j].0) == k + 1 {
                        let j = choose|j: int|
                            0 <= j < i + 1 && cell_player(#[trigger] self.board@[j].0) == k + 1;
                        if j < i {
                        }
                    }
                }
            }
            i = i + 1;
        }
        self.players_alive = alive;
    }

    /// The winner, where exactly one player is alive.
    fn sole_survivor(&self) -> (r: Option<u8>)
        requires
            self.wf(),
        ensures
            r matches Some(w) ==> 1 <= w <= 5 && sole_alive(self.alive(), w - 1),
            r is None ==> forall|k: int| !sole_alive(self.alive(), k),
    {
        let mut winner: Option<u8> = None;
        let mut i: usize = 0;
        while i < 5
            invariant
                i <= 5,
                self.players_alive@.len() == 5,
                winner matches Some(w) ==> 1 <= w <= i && self.players_alive@[w - 1] && forall|
                    j: int,
                | 0 <= j < i && j != w - 1 ==> !self.players_alive@[j],
                winner is None ==> forall|j: int| 0 <= j < i ==> !self.players_alive@[j],
            decreases 5 - i,
        {
            if self.players_alive[i] {
                if winner.is_some() {
                    proof {
                        let w = winner->0;
                        assert forall|k: int| !sole_alive(self.players_alive@, k) by {
                            if sole_alive(self.players_alive@, k) {
                                if k == i {
                                    assert(self.players_alive@[w - 1]);
                                } else {
                                    assert(self.players_alive@[i as int]);
                                }
                            }
                        }
                    }
                    return None;
                }
                winner = Some((i + 1) as u8);
            }
            i = i + 1;
        }
        proof {
            assert forall|k: int| winner is None implies !sole_alive(self.players_alive@, k) by {}
        }
        winner
    }

    /// Advances the game by one tick: cells at or over their threshold
    /// explode into their neighbours (see `tick_board`), the alive players
    /// are recomputed, a running match with one player left is over, and the
    /// turn skips dead players. Then the changed cells and the menu are drawn.
    pub fn tick(&mut self) -> (r: Result<(), ChannelError>)
        requires
            old(self).wf(),
        ensures
            final(self).wf(),
            is_tick_of(old(self).board(), final(self).board()),
            final(self).cascading() == any_explodes(old(self).board()),
            forall|k: int| 0 <= k < 5 ==> #[trigger] final(self).alive()[k] == owns_a_cell(
                final(self).board(),
                k + 1,
            ),
            final(self).players() == old(self).players(),
            owners_consistent(old(self).board()) && tick_fits(old(self).board()) ==> owners_consistent(
                final(self).board(),
            ),
            old(self).game_state() is InProgress && (exists|k: int|
                sole_alive(final(self).alive(), k)) ==> exists|k: int|
                sole_alive(final(self).alive(), k) && final(self).game_state()
                    == ChainState::GameOver((k + 1) as u8),
            old(self).game_state() is InProgress && !(exists|k: int|
                sole_alive(final(self).alive(), k)) ==> final(self).game_state() == skipped(
                old(self).game_state(),
                final(self).alive(),
                final(self).players(),
            ),
            !(old(self).game_state() is InProgress) ==> final(self).game_state() == old(
                self,
            ).game_state(),
    {
        let next = tick_board(&self.board);
        proof {
            lemma_flag_iff_explosion(self.board@, next@);
            if owners_consistent(self.board@) && tick_fits(self.board@) {
                lemma_tick_keeps_owners(self.board@, next@);
            }
        }
        let mut boom = false;
        let mut i: usize = 0;
        while i < 64
            invariant
                i <= 64,
                next@.len() == 64,
                boom == exists|j: int| 0 <= j < i && cell_boom(#[trigger] next@[j].0),
            decreases 64 - i,
        {
            if next[i].boom() {
                boom = true;
            }
            i = i + 1;
        }
        proof {
            assert(boom == exists|r: int, c: int|
                0 <= r < 8 && 0 <= c < 8 && cell_boom(#[trigger] cell_at(next@, r, c))) by {
                if boom {
                    let j = choose|j: int| 0 <= j < 64 && cell_boom(#[trigger] next@[j].0);
                    assert(cell_at(next@, j / 8, j % 8) == next@[j].0);
                }
                if exists|r: int, c: int|
                    0 <= r < 8 && 0 <= c < 8 && cell_boom(#[trigger] cell_at(next@, r, c)) {
                    let (r, c) = choose|r: int, c: int|
                        0 <= r < 8 && 0 <= c < 8 && cell_boom(#[trigger] cell_at(next@, r, c));
                    assert(0 <= r * 8 + c < 64) by (nonlinear_arith)
                        requires
                            0 <= r < 8,
                            0 <= c < 8,
                    ;
                }
            }
        }
        let mut old_board = next;
        core::mem::swap(&mut self.board, &mut old_board);
        self.has_boom = boom;
        self.update_alive();
        if let ChainState::InProgress(_) = self.state {
            if let Some(w) = self.sole_survivor() {
                self.state = ChainState::GameOver(w);
            }
        }
        self.skip_to_next_player();
        self.render_changes(&old_board)?;
        self.render_menu()
    }

    /// Draws every cell that exploded or received markers in the last tick.
    fn render_changes(&self, before: &Vec<Field>) -> Result<(), ChannelError>
        requires
            self.wf(),
            before@.len() == 64,
    {
        let mut row: usize = 0;
        while row < 8
            invariant
                row <= 8,
                self.wf(),
                before@.len() == 64,
            decreases 8 - row,
        {
            let mut col: usize = 0;
            while col < 8
                invariant
                    row < 8,
                    col <= 8,
                    self.wf(),
                    before@.len() == 64,
                decreases 8 - col,
            {
                let f = self.board[row * 8 + col];
                if f.boom() || explodes_at(before, row, col) {
                    self.render(row, col)?;
                }
                col = col + 1;
            }
            row = row + 1;
        }
        Ok(())
    }

    /// Draws cell (`row`, `col`) in its colour (see `cell_color`).
    /// The message that `render(row, col)` posts: the pad LED of the cell
    /// (column `col`, row `row`) in the cell's colour.
    pub fn cell_led(&self, row: usize, col: usize) -> (r: MidiMessage)
        requires
            self.wf(),
            row < 8,
            col < 8,
        ensures
            is_outbound(
                r,
                self.controller().midi_port(),
                MessageType::NoteOn,
                pulse_byte(cell_color(row as int, col as int, cell_at(self.board(), row as int, col as int)).pulse_mode),
                led_index(col as u8, row as u8),
                cell_color(row as int, col as int, cell_at(self.board(), row as int, col as int)).color,
            ),
    {
        let color = render_color(row, col, self.board[row * 8 + col]);
        self.launchpad.led(col as u8, row as u8, color)
    }

    /// Posts `cell_led(row, col)`.
    pub fn render(&self, row: usize, col: usize) -> Result<(), ChannelError>
        requires
            self.wf(),
            row < 8,
            col < 8,
    {
        self.launchpad.send_midi(self.cell_led(row, col))
    }

    /// Empties the board and starts over: no match, everyone alive, no cascade.
    pub fn reset(&mut self) -> (r: Result<(), ChannelError>)
        requires
            old(self).wf(),
        ensures
            final(self).wf(),
            final(self).game_state() == ChainState::Empty,
            final(self).players() == old(self).players(),
            final(self).controller() == old(self).controller(),
            !final(self).cascading(),
            forall|i: int| 0 <= i < 64 ==> (#[trigger] final(self).board()[i]).0 == 0,
            forall|i: int| 0 <= i < 5 ==> #[trigger] final(self).alive()[i],
            owners_consistent(final(self).board()),
    {
        self.board = vec![Field(0); 64];
        proof {
            lemma_empty_consistent(self.board@);
        }
        self.players_alive = vec![true; 5];
        self.has_boom = false;
        self.state = ChainState::Empty;
        let mut row: usize = 0;
        while row < 8
            invariant
                row <= 8,
                self.wf(),
                self.game_state() == ChainState::Empty,
                self.players() == old(self).players(),
                self.controller() == old(self).controller(),
                !self.cascading(),
                forall|i: int| 0 <= i < 64 ==> (#[trigger] self.board()[i]).0 == 0,
                forall|i: int| 0 <= i < 5 ==> #[trigger] self.alive()[i],
                owners_consistent(self.board()),
            decreases 8 - row,
        {
            let mut col: usize = 0;
            while col < 8
                invariant
                    row < 8,
                    col <= 8,
                    self.wf(),
                    self.game_state() == ChainState::Empty,
                    self.players() == old(self).players(),
                self.controller() == old(self).controller(),
                    !self.cascading(),
                    forall|i: int| 0 <= i < 64 ==> (#[trigger] self.board()[i]).0 == 0,
                    forall|i: int| 0 <= i < 5 ==> #[trigger] self.alive()[i],
                owners_consistent(self.board()),
                decreases 8 - col,
            {
                self.render(row, col)?;
                col = col + 1;
            }
            row = row + 1;
        }
        self.render_menu()
    }

    /// The side menu's LEDs, in the order `render_menu` posts them (see `menu_spec`).
    pub fn menu_leds(&self) -> (r: Vec<MenuLed>)
        requires
            self.wf(),
        ensures
            r@ == menu_spec(self.game_state(), self.players()),
    {
        let mut out: Vec<MenuLed> = Vec::new();
        out.push(MenuLed { session: true, x: 7, y: 8, color: plain(6) });
        out.push(MenuLed { session: true, x: 6, y: 8, color: plain(7) });
        out.push(MenuLed { session: true, x: 5, y: 8, color: plain(10) });
        proof {
            assert(out@ =~= menu_head());
        }
        let (top, lead, corner) = match self.state {
            ChainState::Empty => (plain(0), 1u8, palette(self.player_count, 3)),
            ChainState::Starting(p) => (plain(0), p, plain(0)),
            ChainState::InProgress(p) => (plain(0), p, plain(0)),
            ChainState::GameOver(p) => (palette(p, 3), p, plain(0)),
        };
        let ghost head = out@;
        let mut i: u8 = 0;
        while i < 4
            invariant
                i <= 4,
                head == menu_head(),
                out@ == head + top_row(top).subrange(0, i as int),
            decreases 4 - i,
        {
            out.push(MenuLed { session: false, x: i, y: 8, color: top });
            i = i + 1;
            proof {
                assert(out@ =~= head + top_row(top).subrange(0, i as int));
            }
        }
        proof {
            assert(top_row(top).subrange(0, 4) =~= top_row(top));
        }
        let ghost head2 = out@;
        let ghost side = side_column(self.state, self.player_count);
        let mut i: u8 = 0;
        while i < 8
            invariant
                i <= 8,
                2 <= self.player_count <= 5,
                side == side_column(self.state, self.player_count),
                self.wf(),
                out@ == head2 + side.subrange(0, i as int),
            decreases 8 - i,
        {
            let color = match self.state {
                ChainState::Empty => if i < self.player_count {
                    palette(i + 1, 3)
                } else {
                    plain(0)
                },
                ChainState::Starting(p) | ChainState::InProgress(p) | ChainState::GameOver(p) => if i
                    < 3 {
                    palette(p, i + 1)
                } else {
                    plain(0)
                },
            };
            out.push(MenuLed { session: false, x: 8, y: i, color });
            i = i + 1;
            proof {
                assert(out@ =~= head2 + side.subrange(0, i as int));
            }
        }
        proof {
            assert(side.subrange(0, 8) =~= side);
        }
        out.push(MenuLed { session: false, x: 4, y: 8, color: corner });
        out.push(MenuLed { session: false, x: 8, y: 8, color: palette(lead, 3) });
        proof {
            assert(out@ =~= menu_spec(self.state, self.player_count));
        }
        out
    }

    /// Draws the side menu: posts each of `menu_leds()` in order, a session
    /// LED (`session_led`) to the DAW port, the others (`led`) to the MIDI
    /// port, stopping at the first failure.
    pub fn render_menu(&self) -> Result<(), ChannelError>
        requires
            self.wf(),
    {
        let leds = self.menu_leds();
        proof {
            lemma_menu_on_grid(self.game_state(), self.players());
        }
        let mut k: usize = 0;
        while k < leds.len()
            invariant
                k <= leds@.len(),
                forall|j: int| 0 <= j < leds@.len() ==> (#[trigger] leds@[j]).x <= 8 && leds@[j].y <= 8,
            decreases leds@.len() - k,
        {
            let led = leds[k];
            if led.session {
                self.launchpad.send_daw(self.launchpad.session_led(led.x, led.y, led.color))?;
            } else {
                self.launchpad.send_midi(self.launchpad.led(led.x, led.y, led.color))?;
            }
            k = k + 1;
        }
        Ok(())
    }

    /// Handles one input message: exit (CC 98), reset (CC 97), the speed
    /// button (CC 96), cycling the number of players before a match (CC 95),
    /// and pad presses, which place a marker unless a cascade is running.
    pub fn handle_input(&mut self, msg: &MidiMessage) -> (r: Result<Control, ChannelError>)
        requires
            old(self).wf(),
        ensures
            final(self).wf(),
            r matches Ok(c) ==> c == (if msg.msg_type == MessageType::CC && msg.key == 98
                && msg.velocity > 0 {
                Control::Exit
            } else if msg.msg_type == MessageType::CC && msg.key == 96 {
                if msg.velocity > 0 {
                    Control::FastTicks
                } else {
                    Control::NormalTicks
                }
            } else {
                Control::Continue
            }),
            msg.msg_type == MessageType::CC && msg.key == 97 && msg.velocity > 0 ==> {
                &&& final(self).game_state() == ChainState::Empty
                &&& forall|i: int| 0 <= i < 64 ==> (#[trigger] final(self).board()[i]).0 == 0
            },
            msg.msg_type == MessageType::CC && msg.key == 95 && msg.velocity > 0
                && old(self).game_state() == ChainState::Empty ==> final(self).players() == (if old(
                self,
            ).players() == MAX_PLAYERS {
                2
            } else {
                (old(self).players() + 1) as u8
            }),
            msg.msg_type == MessageType::NoteOn && old(self).cascading() ==> Self::same_game(
                *old(self),
                *final(self),
            ),
            msg.msg_type == MessageType::NoteOn && !old(self).cascading() && msg.velocity > 0 && (
            midi_to_item_spec(msg) matches Some((row, col)) && row < 8 && col < 8) ==> exists|
                placed: bool,
            |
                #[trigger] Self::is_placement(
                    *old(self),
                    *final(self),
                    (msg.key / 10 - 1) as u8,
                    (msg.key % 10 - 1) as u8,
                    placed,
                ),
            msg.msg_type == MessageType::NoteOn && msg.velocity == 0 ==> Self::same_game(
                *old(self),
                *final(self),
            ),
    {
        if msg.msg_type == MessageType::CC && msg.key == 98 {
            if msg.velocity > 0 {
                self.launchpad.clear()?;
                return Ok(Control::Exit);
            }
            return Ok(Control::Continue);
        }
        if msg.msg_type == MessageType::CC && msg.key == 97 {
            if msg.velocity > 0 {
                self.reset()?;
            }
            return Ok(Control::Continue);
        }
        if msg.msg_type == MessageType::CC && msg.key == 96 {
            if msg.velocity > 0 {
                return Ok(Control::FastTicks);
            }
            return Ok(Control::NormalTicks);
        }
        if msg.msg_type == MessageType::CC && msg.key == 95 && self.state == ChainState::Empty {
            if msg.velocity > 0 {
                self.player_count = if self.player_count == MAX_PLAYERS {
                    2
                } else {
                    self.player_count + 1
                };
                self.render_menu()?;
            }
            return Ok(Control::Continue);
        }
        if msg.msg_type == MessageType::NoteOn && !self.has_boom {
            if let Some((row, col)) = midi_to_item(msg) {
                if row < 8 && col < 8 {
                    if msg.velocity > 0 {
                        self.step(row, col);
                        self.launchpad.set(col, row, Color { color: 36, pulse_mode: PulseMode::Static })?;
                        self.render_menu()?;
                    } else {
                        self.render(row as usize, col as usize)?;
                    }
                }
            }
        }
        Ok(Control::Continue)
    }

    /// Opens the match screen: programmer mode on, a fresh board.
    pub fn start(&mut self) -> (r: Result<(), ChannelError>)
        requires
            old(self).wf(),
        ensures
            final(self).wf(),
            final(self).players() == old(self).players(),
            r is Ok ==> {
                &&& final(self).controller().programmer_mode()
                &&& final(self).game_state() == ChainState::Empty
                &&& forall|i: int| 0 <= i < 64 ==> (#[trigger] final(self).board()[i]).0 == 0
                &&& !final(self).cascading()
            },
    {
        self.launchpad.set_programmer_mode(true)?;
        self.reset()
    }

    /// Leaves the match screen: programmer mode off.
    pub fn finish(&mut self) -> (r: Result<(), ChannelError>)
        requires
            old(self).wf(),
        ensures
            final(self).wf(),
            Self::same_game(*old(self), *final(self)),
            r is Ok ==> !final(self).controller().programmer_mode(),
    {
        self.launchpad.set_programmer_mode(false)
    }

    /// The input channel of the controller that the game reads.
    pub fn input(&self) -> crossbeam_channel::Receiver<MidiMessage> {
        self.launchpad.input()
    }
}

} // verus!
