use midichan::field::Field;

#[test]
fn set_count_keeps_low_four_bits() {
    for n in [0u8, 1, 7, 15, 16, 17, 200, 255] {
        let mut f = Field(0x50);
        f.set_count(n);
        assert_eq!(f.count(), n & 0xF);
    }
}

#[test]
fn set_count_zero_clears_player() {
    let mut f = Field(0);
    f.set_player(3);
    f.set_count(2);
    assert_eq!(f.player(), 3);
    f.set_count(0);
    assert_eq!(f.player(), 0);
    assert_eq!(f.count(), 0);
}

#[test]
fn set_player_masks_to_three_bits() {
    for p in [0u8, 1, 5, 7, 8, 9, 255] {
        let mut f = Field(0x8F);
        f.set_player(p);
        assert_eq!(f.player(), p & 0x7);
        assert_eq!(f.count(), 0xF);
        assert!(f.boom());
    }
}

#[test]
fn set_boom_round_trips_and_keeps_other_bits() {
    let mut f = Field(0x35);
    f.set_boom(true);
    assert!(f.boom());
    assert_eq!(f.0, 0xB5);
    f.set_boom(false);
    assert!(!f.boom());
    assert_eq!(f.0, 0x35);
}

#[test]
fn setters_preserve_other_fields() {
    let mut f = Field(0);
    f.set_count(9);
    f.set_player(4);
    f.set_boom(true);
    assert_eq!(f.0, 0x80 | 0x40 | 0x09);
    f.set_count(3);
    assert_eq!((f.count(), f.player(), f.boom()), (3, 4, true));
}

#[test]
fn add_and_sub_count() {
    let mut f = Field(0x12);
    f.add_count(3);
    assert_eq!((f.count(), f.player()), (5, 1));
    f.sub_count(5);
    assert_eq!((f.count(), f.player()), (0, 0));
}

#[test]
fn add_count_wraps_within_four_bits() {
    let mut f = Field(0x1F);
    f.add_count(1);
    assert_eq!(f.count(), 0);
    assert_eq!(f.player(), 1);
}

#[test]
fn default_is_empty() {
    let f = Field::default();
    assert_eq!((f.count(), f.player(), f.boom()), (0, 0, false));
}
