use invaders::io::{bit, InputPort, InvadersIOHandler, InvadersKey};

const ALL_KEYS: [InvadersKey; 10] = [
    InvadersKey::P1Start,
    InvadersKey::P1Shoot,
    InvadersKey::P1Left,
    InvadersKey::P1Right,
    InvadersKey::P2Start,
    InvadersKey::P2Shoot,
    InvadersKey::P2Left,
    InvadersKey::P2Right,
    InvadersKey::Coin,
    InvadersKey::Tilt,
];

fn handler_with(shift_data: u16, shift_amount: u8) -> InvadersIOHandler {
    let mut h = InvadersIOHandler::new();
    h.out(4, (shift_data & 0xff) as u8);
    h.out(4, (shift_data >> 8) as u8);
    h.out(2, shift_amount);
    h
}

#[test]
fn new_handler_reads_zero_everywhere() {
    let h = InvadersIOHandler::new();
    for port in 0..=255u8 {
        assert_eq!(h.inp(port), 0);
    }
}

#[test]
fn shift_read_amount_zero_gives_high_byte() {
    let h = handler_with(0xABCD, 0);
    assert_eq!(h.inp(3), 0xAB);
}

#[test]
fn shift_read_amount_seven() {
    let h = handler_with(0xABCD, 7);
    // (0xABCD >> 1) & 0xff = 0x55E6 & 0xff
    assert_eq!(h.inp(3), 0xE6);
}

#[test]
fn shift_read_matches_formula_for_all_amounts() {
    for data in [0x0000u16, 0xFFFF, 0x8001, 0x1234, 0xABCD, 0x00FF, 0xFF00] {
        for amount in 0..8u8 {
            let h = handler_with(data, amount);
            let expected = ((data >> (8 - amount)) & 0xff) as u8;
            assert_eq!(h.inp(3), expected, "data {:#x} amount {}", data, amount);
        }
    }
}

#[test]
fn two_writes_to_port_four_fill_the_register() {
    let mut h = InvadersIOHandler::new();
    h.out(4, 0x99);
    h.out(4, 0x12);
    h.out(4, 0x34);
    assert_eq!(h.shift_data, 0x3412);
    h.out(4, 0x56);
    assert_eq!(h.shift_data, 0x5634);
}

#[test]
fn port_two_masks_shift_amount() {
    for v in 0..=255u8 {
        let mut h = InvadersIOHandler::new();
        let sounds = h.out(2, v);
        assert!(sounds.is_empty());
        assert_eq!(h.shift_amount, v & 0x7);
    }
}

#[test]
fn sound_latch_three_rising_edges() {
    let mut h = InvadersIOHandler::new();
    assert_eq!(h.out(3, 0b0101), vec![0, 2]);
    assert_eq!(h.sound3, 0b0101);
    // 1->1 on bit 0 and 2, 0->1 on bit 1 and 3
    assert_eq!(h.out(3, 0b1111), vec![1, 3]);
    // nothing rises
    assert_eq!(h.out(3, 0b1111), Vec::<usize>::new());
    assert_eq!(h.out(3, 0b0000), Vec::<usize>::new());
    // high bits never start a sound
    assert_eq!(h.out(3, 0b1111_0000), Vec::<usize>::new());
    assert_eq!(h.out(3, 0b1111_0001), vec![0]);
}

#[test]
fn sound_latch_five_maps_to_upper_sounds() {
    let mut h = InvadersIOHandler::new();
    assert_eq!(h.out(5, 0b0001), vec![4]);
    assert_eq!(h.out(5, 0b1110), vec![5, 6, 7]);
    assert_eq!(h.out(5, 0b0110), Vec::<usize>::new());
    assert_eq!(h.sound5, 0b0110);
    // latch 3 keeps its own history
    assert_eq!(h.out(3, 0b0110), vec![1, 2]);
}

#[test]
fn sound_edges_exactly_once_per_transition() {
    for prev in 0..16u8 {
        for next in 0..16u8 {
            let mut h = InvadersIOHandler::new();
            h.out(3, prev);
            h.out(5, prev);
            let expected: Vec<usize> = (0..4).filter(|b| next & (1 << b) != 0 && prev & (1 << b) == 0).collect();
            assert_eq!(h.out(3, next), expected);
            let upper: Vec<usize> = expected.iter().map(|i| i + 4).collect();
            assert_eq!(h.out(5, next), upper);
        }
    }
}

#[test]
fn unmapped_ports_ignore_writes() {
    let mut h = handler_with(0x1234, 3);
    for port in [0u8, 1, 6, 7, 8, 255] {
        assert!(h.out(port, 0xff).is_empty());
    }
    assert_eq!(h.shift_data, 0x1234);
    assert_eq!(h.shift_amount, 3);
    assert_eq!(h.inp(0), 0);
    assert_eq!(h.inp(1), 0);
    assert_eq!(h.inp(2), 0);
    assert_eq!(h.inp(7), 0);
}

#[test]
fn key_table_bits_and_ports() {
    let expected = [
        (InputPort::Port1, 0x04u8),
        (InputPort::Port1, 0x10),
        (InputPort::Port1, 0x20),
        (InputPort::Port1, 0x40),
        (InputPort::Port1, 0x02),
        (InputPort::Port2, 0x10),
        (InputPort::Port2, 0x20),
        (InputPort::Port2, 0x40),
        (InputPort::Port1, 0x01),
        (InputPort::Port2, 0x04),
    ];
    for (key, (port, mask)) in ALL_KEYS.iter().zip(expected.iter()) {
        assert_eq!(key.port(), *port);
        assert_eq!(key.bit(), *mask);
    }
}

#[test]
fn each_key_toggles_only_its_bit() {
    for key in ALL_KEYS {
        for background in [0x00u8, 0xff, 0x5a] {
            let mut h = InvadersIOHandler::new();
            h.port0 = background;
            h.port1 = background;
            h.port2 = background;
            h.handle_key_change(key, true);
            let read = |h: &InvadersIOHandler, p: InputPort| match p {
                InputPort::Port0 => h.inp(0),
                InputPort::Port1 => h.inp(1),
                InputPort::Port2 => h.inp(2),
            };
            for p in [InputPort::Port0, InputPort::Port1, InputPort::Port2] {
                if p == key.port() {
                    assert_eq!(read(&h, p), background | key.bit());
                } else {
                    assert_eq!(read(&h, p), background);
                }
            }
            h.handle_key_change(key, false);
            for p in [InputPort::Port0, InputPort::Port1, InputPort::Port2] {
                if p == key.port() {
                    assert_eq!(read(&h, p), background & !key.bit());
                } else {
                    assert_eq!(read(&h, p), background);
                }
            }
        }
    }
}

#[test]
fn keys_are_independent_and_polling_is_idempotent() {
    let mut h = InvadersIOHandler::new();
    h.handle_key_change(InvadersKey::Coin, true);
    h.handle_key_change(InvadersKey::P1Start, true);
    h.handle_key_change(InvadersKey::P1Start, true);
    assert_eq!(h.inp(1), 0x05);
    h.handle_key_change(InvadersKey::Tilt, true);
    assert_eq!(h.inp(2), 0x04);
    h.handle_key_change(InvadersKey::Coin, false);
    h.handle_key_change(InvadersKey::Coin, false);
    assert_eq!(h.inp(1), 0x04);
    assert_eq!(h.inp(2), 0x04);
    // P1 and P2 shoot share a mask but not a port
    h.handle_key_change(InvadersKey::P2Shoot, true);
    assert_eq!(h.inp(1), 0x04);
    assert_eq!(h.inp(2), 0x14);
}

#[test]
fn bit_helper() {
    assert!(bit(0b1000_0001, 0));
    assert!(bit(0b1000_0001, 7));
    assert!(!bit(0b1000_0001, 1));
    assert!(!bit(0, 3));
}
