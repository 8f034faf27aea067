use ds2480b::codes::{crc8, CRC8, DSCRC_TABLE};
use ds2480b::frame::{decode_frame, encode_frame, get_bit, set_bit, unscramble};

fn reference_crc_byte(x: u8) -> u8 {
    let mut c = x;
    for _ in 0..8 {
        c = if c & 1 == 1 { (c >> 1) ^ 0x8C } else { c >> 1 };
    }
    c
}

fn frame_with(rom: &[u8; 8], flags: u64) -> [u8; 16] {
    let mut f = [0u8; 16];
    for i in 0..64usize {
        let bit = (rom[7 - i / 8] >> (i % 8)) & 1 == 1;
        if bit {
            let j = 2 * i + 1;
            f[15 - j / 8] |= 1 << (j % 8);
        }
        if (flags >> i) & 1 == 1 {
            let j = 2 * i;
            f[15 - j / 8] |= 1 << (j % 8);
        }
    }
    f
}

fn scramble(status: u8, f: &[u8; 16]) -> [u8; 17] {
    let mut raw = [0u8; 17];
    raw[0] = status;
    for k in 0..16usize {
        if k % 2 == 0 {
            raw[k + 2] = f[k];
        } else {
            raw[k] = f[k];
        }
    }
    raw
}

#[test]
fn crc_table_matches_bitwise_polynomial() {
    for i in 0..256usize {
        assert_eq!(DSCRC_TABLE[i], reference_crc_byte(i as u8));
    }
    let mut crc = CRC8::new();
    let mut reference = 0u8;
    for b in [0x28u8, 0xFF, 0x4C, 0x06, 0x15, 0x16, 0x03, 0x9A, 0x00, 0x7F] {
        crc.calc(b);
        reference = reference_crc_byte(reference ^ b);
        assert_eq!(crc.0, reference);
    }
}

#[test]
fn crc_known_values() {
    let mut crc = CRC8::new();
    assert_eq!(crc.0, 0);
    crc.calc(0x01);
    assert_eq!(crc.0, 94);
    crc.calc(0x00);
    assert_eq!(crc.0, DSCRC_TABLE[94]);
    assert_eq!(crc8(&[]), 0);
    assert_eq!(crc8(&[0x02, 0x1C, 0xB8, 0x01, 0x00, 0x00, 0x00]), 0xA2);
    assert_eq!(crc8(&[0x02, 0x1C, 0xB8, 0x01, 0x00, 0x00, 0x00, 0xA2]), 0);
}

#[test]
fn bit_access_is_big_endian() {
    let bytes = [0x80u8, 0x01];
    assert!(get_bit(&bytes, 0));
    assert!(!get_bit(&bytes, 1));
    assert!(get_bit(&bytes, 15));
    let mut a = [0u8; 2];
    set_bit(&mut a, 9);
    assert_eq!(a, [0x02, 0x00]);
}

#[test]
fn encode_first_search_is_unbiased() {
    let rom = [0xFFu8; 8];
    assert_eq!(encode_frame(&rom, 0), [0u8; 16]);
}

#[test]
fn encode_replays_prefix_and_forces_last_discrepancy() {
    let rom = [0u8, 0, 0, 0, 0, 0, 0, 0b0000_0101];
    let f = encode_frame(&rom, 5);
    // logical bits 0 and 2 replayed, bit 4 forced, nothing else
    for i in 0..64usize {
        assert!(!get_bit(&f, 2 * i));
        let expected = i == 0 || i == 2 || i == 4;
        assert_eq!(get_bit(&f, 2 * i + 1), expected, "bit {}", i);
    }
    assert_eq!(f[15], 0b0000_0010 | 0b0010_0000);
    assert_eq!(f[14], 0b0000_0010);
}

#[test]
fn encode_does_not_replay_bits_at_or_after_discrepancy() {
    let rom = [0xFFu8; 8];
    let f = encode_frame(&rom, 3);
    assert_eq!(f[15], 0b0010_1010);
    assert_eq!(&f[..15], &[0u8; 15]);
}

#[test]
fn unscramble_swaps_byte_pairs() {
    let mut raw = [0u8; 17];
    for i in 0..17 {
        raw[i] = i as u8;
    }
    let f = unscramble(&raw);
    assert_eq!(f, [2, 1, 4, 3, 6, 5, 8, 7, 10, 9, 12, 11, 14, 13, 16, 15]);
}

#[test]
fn decode_round_trip() {
    let rom = [0x02u8, 0x1C, 0xB8, 0x01, 0x00, 0x00, 0x00, 0xA2];
    for d in [0usize, 1, 7, 9, 33, 64] {
        // a zero-branch discrepancy at d - 1 only where the ROM bit is zero
        let mut r = rom;
        if d > 0 {
            let i = d - 1;
            r[7 - i / 8] &= !(1 << (i % 8));
        }
        let flags = if d > 0 { 1u64 << (d - 1) } else { 0 };
        let raw = scramble(0xAA, &frame_with(&r, flags));
        let out = decode_frame(&unscramble(&raw));
        assert_eq!(out.rom, r);
        assert_eq!(out.last_zero as usize, d);
        assert_eq!(out.family_zero as usize, if d <= 8 { d } else { 0 });
    }
}

#[test]
fn decode_ignores_discrepancy_on_one_branch() {
    let rom = [0xFFu8; 8];
    let out = decode_frame(&frame_with(&rom, u64::MAX));
    assert_eq!(out.rom, rom);
    assert_eq!(out.last_zero, 0);
    assert_eq!(out.family_zero, 0);
}

#[test]
fn decode_keeps_last_zero_branch() {
    let rom = [0u8; 8];
    let out = decode_frame(&frame_with(&rom, (1u64 << 3) | (1u64 << 20)));
    assert_eq!(out.last_zero, 21);
    assert_eq!(out.family_zero, 4);
}
