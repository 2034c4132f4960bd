use crossbeam_channel::{unbounded, Receiver};
use midichan::chain_reaction::{midi_to_item, tick_board, ChainReaction, ChainState, Control};
use midichan::field::Field;
use midichan::launchpad_x::LaunchpadX;
use midichan::message::{MessageType, MidiMessage};

struct Ports {
    midi: Receiver<MidiMessage>,
    _daw: Receiver<MidiMessage>,
}

fn game() -> (ChainReaction, Ports) {
    let (_in_tx, in_rx) = unbounded();
    let (out_tx, out_rx) = unbounded();
    let (_daw_in_tx, daw_in_rx) = unbounded();
    let (daw_tx, daw_rx) = unbounded();
    let lp = LaunchpadX::new(in_rx, out_tx, daw_in_rx, daw_tx).unwrap();
    (ChainReaction::new(lp), Ports { midi: out_rx, _daw: daw_rx })
}

fn owned(count: u8, player: u8) -> Field {
    let mut f = Field(0);
    f.set_count(count);
    f.set_player(player);
    f
}

fn press(row: u8, col: u8) -> MidiMessage {
    let mut m = MidiMessage::new("Launchpad MIDI");
    m.with_key((row + 1) * 10 + col + 1).with_velocity(127);
    m
}

fn cc(key: u8, velocity: u8) -> MidiMessage {
    let mut m = MidiMessage::new("Launchpad MIDI");
    m.with_msg_type(MessageType::CC).with_key(key).with_velocity(velocity);
    m
}

#[test]
fn corner_explodes_into_its_two_neighbours() {
    let mut board = vec![Field(0); 64];
    board[0] = owned(1, 1);
    board[0].add_count(1);
    let next = tick_board(&board);
    assert_eq!(next[0].count(), 0);
    assert_eq!(next[0].player(), 0);
    for i in [1usize, 8] {
        assert_eq!(next[i].count(), 1);
        assert_eq!(next[i].player(), 1);
        assert!(next[i].boom());
    }
    for (i, f) in next.iter().enumerate() {
        if i != 1 && i != 8 {
            assert_eq!(f.count(), 0, "cell {}", i);
            assert_eq!(f.player(), 0, "cell {}", i);
        }
    }
}

#[test]
fn simultaneous_explosions_accumulate() {
    let mut board = vec![Field(0); 64];
    board[0] = owned(2, 1);
    board[2] = owned(3, 2);
    let next = tick_board(&board);
    assert_eq!(next[1].count(), 2);
    assert_eq!(next[1].player(), 2);
    assert_eq!(next[0].count(), 0);
    assert_eq!(next[2].count(), 0);
    assert_eq!(next[3].count(), 1);
    assert_eq!(next[10].count(), 1);
}

#[test]
fn interior_cell_needs_four() {
    let mut board = vec![Field(0); 64];
    board[27] = owned(3, 1);
    let next = tick_board(&board);
    assert_eq!(next[27].count(), 3);
    board[27] = owned(5, 1);
    let next = tick_board(&board);
    assert_eq!(next[27].count(), 1);
    assert_eq!(next[27].player(), 1);
    for i in [19usize, 26, 28, 35] {
        assert_eq!(next[i].count(), 1);
    }
}

#[test]
fn placing_and_ticking_a_corner() {
    let (mut g, _out) = game();
    assert!(g.step(0, 0));
    assert_eq!(g.state(), ChainState::Starting(2));
    assert!(!g.step(0, 0));
    assert!(g.step(7, 7));
    assert_eq!(g.state(), ChainState::InProgress(1));
    assert!(g.step(0, 0));
    assert_eq!(g.cell(0, 0).count(), 2);
    g.tick().unwrap();
    assert!(g.has_boom());
    assert_eq!(g.cell(0, 0).count(), 0);
    assert_eq!((g.cell(0, 1).count(), g.cell(0, 1).player()), (1, 1));
    assert_eq!((g.cell(1, 0).count(), g.cell(1, 0).player()), (1, 1));
    assert_eq!(g.state(), ChainState::InProgress(2));
    g.tick().unwrap();
    assert!(!g.has_boom());
}

#[test]
fn last_player_holding_cells_wins() {
    let (mut g, _out) = game();
    assert!(g.step(0, 0));
    assert!(g.step(0, 1));
    assert_eq!(g.state(), ChainState::InProgress(1));
    assert!(g.step(0, 0));
    g.tick().unwrap();
    assert_eq!(g.cell(0, 1).player(), 1);
    assert_eq!(g.cell(0, 1).count(), 2);
    assert_eq!(g.state(), ChainState::GameOver(1));
    assert!(!g.step(3, 3));
}

#[test]
fn input_is_ignored_during_a_cascade() {
    let (mut g, _out) = game();
    g.step(0, 0);
    g.step(7, 7);
    g.step(0, 0);
    g.tick().unwrap();
    assert!(g.has_boom());
    let before = g.cell(4, 4);
    assert_eq!(g.handle_input(&press(4, 4)).unwrap(), Control::Continue);
    assert_eq!(g.cell(4, 4), before);
}

#[test]
fn pad_press_places_a_marker() {
    let (mut g, out) = game();
    let _ = out.midi.try_iter().count();
    assert_eq!(g.handle_input(&press(2, 3)).unwrap(), Control::Continue);
    assert_eq!(g.cell(2, 3).count(), 1);
    assert_eq!(g.cell(2, 3).player(), 1);
    let first = out.midi.try_recv().unwrap();
    assert_eq!(first.key, 34);
    assert_eq!(first.velocity, 36);
}

#[test]
fn menu_buttons() {
    let (mut g, _out) = game();
    assert_eq!(g.handle_input(&cc(96, 127)).unwrap(), Control::FastTicks);
    assert_eq!(g.handle_input(&cc(96, 0)).unwrap(), Control::NormalTicks);
    assert_eq!(g.player_count(), 2);
    g.handle_input(&cc(95, 127)).unwrap();
    assert_eq!(g.player_count(), 3);
    g.handle_input(&cc(95, 127)).unwrap();
    g.handle_input(&cc(95, 127)).unwrap();
    assert_eq!(g.player_count(), 5);
    g.handle_input(&cc(95, 127)).unwrap();
    assert_eq!(g.player_count(), 2);
    g.step(1, 1);
    g.handle_input(&cc(97, 127)).unwrap();
    assert_eq!(g.state(), ChainState::Empty);
    assert_eq!(g.cell(1, 1).count(), 0);
    assert_eq!(g.handle_input(&cc(98, 0)).unwrap(), Control::Continue);
    assert_eq!(g.handle_input(&cc(98, 127)).unwrap(), Control::Exit);
}

#[test]
fn turn_skips_players_without_cells() {
    let (mut g, _out) = game();
    g.handle_input(&cc(95, 127)).unwrap();
    assert_eq!(g.player_count(), 3);
    g.step(0, 0);
    g.step(0, 1);
    g.step(7, 0);
    assert_eq!(g.state(), ChainState::InProgress(1));
    g.step(0, 0);
    assert_eq!(g.state(), ChainState::InProgress(2));
    g.tick().unwrap();
    assert_eq!(g.cell(0, 1).player(), 1);
    assert_eq!(g.state(), ChainState::InProgress(3));
}

#[test]
fn pad_decoding() {
    let m = press(0, 0);
    assert_eq!(midi_to_item(&m), Some((0, 0)));
    let m = press(7, 7);
    assert_eq!(midi_to_item(&m), Some((7, 7)));
    let mut top = press(0, 0);
    top.key = 19;
    assert_eq!(midi_to_item(&top), None);
    assert_eq!(midi_to_item(&cc(11, 127)), None);
    let mut low = press(0, 0);
    low.key = 5;
    assert_eq!(midi_to_item(&low), None);
}

#[test]
fn menu_before_a_match_shows_the_players() {
    let (g, _out) = game();
    let leds = g.menu_leds();
    assert_eq!(leds.len(), 17);
    assert!(leds[0].session && (leds[0].x, leds[0].y, leds[0].color.color) == (7, 8, 6));
    assert_eq!((leds[7].x, leds[7].y, leds[7].color.color), (8, 0, 5));
    assert_eq!((leds[8].x, leds[8].y, leds[8].color.color), (8, 1, 41));
    assert_eq!(leds[9].color.color, 0);
    assert_eq!((leds[15].x, leds[15].y, leds[15].color.color), (4, 8, 41));
    assert_eq!((leds[16].x, leds[16].y, leds[16].color.color), (8, 8, 5));
}

#[test]
fn menu_after_a_win_shows_the_winner() {
    let (mut g, ports) = game();
    g.step(0, 0);
    g.step(0, 1);
    g.step(0, 0);
    g.tick().unwrap();
    assert_eq!(g.state(), ChainState::GameOver(1));
    let leds = g.menu_leds();
    for k in 3..7 {
        assert_eq!(leds[k].color.color, 5);
    }
    let _ = ports.midi.try_iter().count();
    g.render_menu().unwrap();
    let sent: Vec<MidiMessage> = ports.midi.try_iter().collect();
    assert_eq!(sent.len(), 14);
    assert_eq!(sent[0].to_raw(), vec![0xB0, 91, 5]);
}

#[test]
fn cell_led_pulses_near_the_threshold() {
    let (mut g, _out) = game();
    g.step(0, 0);
    let m = g.cell_led(0, 0);
    assert_eq!(m.to_raw(), vec![0x92, 11, 7]);
    let m = g.cell_led(3, 3);
    assert_eq!(m.to_raw(), vec![0x90, 44, 0]);
}
