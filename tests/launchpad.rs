use crossbeam_channel::unbounded;
use midichan::launchpad::{Color, Launchpad};
use midichan::message::{MessageType, MidiMessage};

#[test]
fn colour_packs_red_and_green() {
    assert_eq!(Color::new(3, 0).color(), 3);
    assert_eq!(Color::new(0, 3).color(), 0x30);
    assert_eq!(Color::new(2, 1).color(), 0x12);
}

#[test]
fn with_color_replaces_intensities() {
    let mut c = Color::new(3, 3);
    c.with_color(1, 2);
    assert_eq!(c.color(), 0x21);
}

#[test]
fn pad_and_top_row_keys() {
    let (tx, rx) = unbounded::<MidiMessage>();
    let (_itx, irx) = unbounded();
    let lp = Launchpad::new(irx, tx);
    lp.set(2, 3, &Color::new(3, 0)).unwrap();
    let m = rx.try_recv().unwrap();
    assert_eq!((m.msg_type, m.key, m.velocity, m.channel), (MessageType::NoteOn, 50, 3, 0));
    lp.set(7, 8, &Color::new(0, 3)).unwrap();
    let m = rx.try_recv().unwrap();
    assert_eq!((m.msg_type, m.key, m.velocity), (MessageType::CC, 0x6F, 0x30));
    assert_eq!(m.device, "Launchpad");
}

#[test]
fn clear_is_control_change_zero_legacy() {
    let (tx, rx) = unbounded::<MidiMessage>();
    let (_itx, irx) = unbounded();
    let lp = Launchpad::new(irx, tx);
    lp.clear().unwrap();
    assert_eq!(rx.try_recv().unwrap().to_raw(), vec![0xB0, 0, 0]);
}

#[test]
fn fill_pads_rows_and_pairs_cells() {
    let red = Color::new(3, 0);
    let green = Color::new(0, 3);
    let grid = vec![vec![red; 3], vec![green; 10]];
    let plan = Launchpad::fill_plan(&grid);
    assert_eq!(plan.len(), 8);
    assert_eq!(plan[0], (3, 3));
    assert_eq!(plan[1], (3, 0));
    assert_eq!(plan[3], (0, 0));
    assert_eq!(plan[4], (0x30, 0x30));
    let (tx, rx) = unbounded::<MidiMessage>();
    let (_itx, irx) = unbounded();
    let lp = Launchpad::new(irx, tx);
    lp.fill(grid).unwrap();
    let sent: Vec<MidiMessage> = rx.try_iter().collect();
    assert_eq!(sent.len(), 8);
    assert_eq!(sent[0].to_raw(), vec![0x95, 3, 3]);
}

#[test]
fn fill_drops_an_odd_last_cell() {
    let plan = Launchpad::fill_plan(&vec![]);
    assert!(plan.is_empty());
    let one = Launchpad::fill_plan(&vec![vec![Color::new(1, 1); 8]]);
    assert_eq!(one.len(), 4);
}
