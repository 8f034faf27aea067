use ds2480b::codes::{crc8, Mode};
use ds2480b::frame::get_bit;
use ds2480b::search::{Search, SearchError};
use ds2480b::DS2480B;

fn rom_bit(rom: &[u8; 8], i: usize) -> bool {
    (rom[7 - i / 8] >> (i % 8)) & 1 == 1
}

fn set(f: &mut [u8; 16], j: usize) {
    f[15 - j / 8] |= 1 << (j % 8);
}

fn scramble(f: &[u8; 16]) -> [u8; 17] {
    let mut raw = [0u8; 17];
    raw[0] = 0xF0;
    for k in 0..16usize {
        if k % 2 == 0 {
            raw[k + 2] = f[k];
        } else {
            raw[k] = f[k];
        }
    }
    raw
}

/// What the chip's search accelerator answers to a search frame on a bus
/// that holds `devices`.
fn accelerator(devices: &[[u8; 8]], request: &[u8]) -> [u8; 17] {
    let mut active: Vec<[u8; 8]> = devices.to_vec();
    let mut f = [0u8; 16];
    for i in 0..64usize {
        let steer = get_bit(request, 2 * i + 1);
        let ones = active.iter().any(|r| rom_bit(r, i));
        let zeros = active.iter().any(|r| !rom_bit(r, i));
        let chosen = if ones && zeros {
            set(&mut f, 2 * i);
            steer
        } else {
            ones
        };
        if chosen {
            set(&mut f, 2 * i + 1);
        }
        active.retain(|r| rom_bit(r, i) == chosen);
    }
    scramble(&f)
}

fn valid_rom(body: [u8; 7]) -> [u8; 8] {
    let mut rom = [0u8; 8];
    rom[..7].copy_from_slice(&body);
    rom[7] = crc8(&body);
    assert_eq!(crc8(&rom), 0);
    rom
}

fn run_search(devices: &[[u8; 8]]) -> Vec<[u8; 8]> {
    let mut bus = DS2480B::new();
    let mut cursor = bus.search(false);
    let mut found = Vec::new();
    let mut steps = 0;
    while !cursor.is_done() {
        steps += 1;
        assert!(steps <= devices.len() + 1);
        let packet = cursor.request(&mut bus);
        assert_eq!(bus.mode, Mode::Command);
        let pre = packet.len() - 18;
        let raw = accelerator(devices, &packet[pre..pre + 16]);
        match cursor.complete(&raw) {
            Ok((rom, next)) => {
                found.push(rom);
                cursor = next;
            }
            Err(e) => panic!("search step failed: {:?}", e),
        }
    }
    found
}

#[test]
fn search_finds_each_device_once() {
    let devices = vec![
        valid_rom([0x28, 0xFF, 0x4C, 0x06, 0x15, 0x16, 0x03]),
        valid_rom([0x28, 0xFF, 0x4C, 0x06, 0x15, 0x16, 0x04]),
        valid_rom([0x10, 0x01, 0x02, 0x03, 0x04, 0x05, 0x06]),
        valid_rom([0x3A, 0x99, 0x00, 0x00, 0x00, 0x00, 0x01]),
        valid_rom([0x01, 0x80, 0x80, 0x80, 0x80, 0x80, 0x80]),
    ];
    let found = run_search(&devices);
    assert_eq!(found.len(), devices.len());
    for d in &devices {
        assert_eq!(found.iter().filter(|r| *r == d).count(), 1);
    }
    for r in &found {
        assert_eq!(crc8(r), 0);
    }
}

#[test]
fn search_single_device() {
    let devices = vec![valid_rom([0x28, 0x11, 0x22, 0x33, 0x44, 0x55, 0x66])];
    assert_eq!(run_search(&devices), devices);
}

#[test]
fn exhausted_cursor_is_done() {
    let devices = vec![valid_rom([0x28, 0x11, 0x22, 0x33, 0x44, 0x55, 0x66])];
    let mut bus = DS2480B::new();
    let cursor = Search::new(false);
    let packet = cursor.request(&mut bus);
    let raw = accelerator(&devices, &packet[packet.len() - 18..packet.len() - 2]);
    let (_, next) = cursor.complete(&raw).unwrap();
    assert!(next.is_done());
    assert_eq!(next.last_discrepancy, 0);
}

#[test]
fn search_request_bytes() {
    let mut bus = DS2480B::new();
    let cursor = Search::new(true);
    let packet = cursor.request(&mut bus);
    assert_eq!(packet.len(), 23);
    assert_eq!(&packet[..5], &[0xE1, 0xEC, 0xE3, 0xB1, 0xE1]);
    assert_eq!(&packet[5..21], &[0u8; 16]);
    assert_eq!(&packet[21..], &[0xE3, 0xA1]);
    assert_eq!(bus.mode, Mode::Command);
    let mut bus = DS2480B::new();
    bus.mode = Mode::Data;
    let packet = Search::new(false).request(&mut bus);
    assert_eq!(&packet[..4], &[0xF0, 0xE3, 0xB1, 0xE1]);
}

#[test]
fn next_frame_is_biased_by_previous_rom() {
    let a = valid_rom([0x28, 0xFF, 0x4C, 0x06, 0x15, 0x16, 0x03]);
    let b = valid_rom([0x28, 0xFF, 0x4C, 0x06, 0x15, 0x16, 0x04]);
    let devices = vec![a, b];
    let mut bus = DS2480B::new();
    let cursor = Search::new(false);
    let packet = cursor.request(&mut bus);
    let raw = accelerator(&devices, &packet[5..21]);
    let (rom, next) = cursor.complete(&raw).unwrap();
    let k = next.last_discrepancy as usize;
    assert!(k > 0);
    let packet = next.request(&mut bus);
    let frame = &packet[5..21];
    for i in 0..64usize {
        assert!(!get_bit(frame, 2 * i));
        let expected = if i + 1 < k { rom_bit(&rom, i) } else { i + 1 == k };
        assert_eq!(get_bit(frame, 2 * i + 1), expected);
    }
}

#[test]
fn corrupted_frame_is_crc_error() {
    let devices = vec![valid_rom([0x28, 0x11, 0x22, 0x33, 0x44, 0x55, 0x66])];
    let cursor = Search::new(false);
    let mut raw = accelerator(&devices, &[0u8; 16]);
    raw[5] ^= 0x02;
    assert_eq!(cursor.complete(&raw).unwrap_err(), SearchError::CrcMismatch);
}

#[test]
fn zero_family_is_rejected() {
    let cursor = Search::new(false);
    let raw = accelerator(&[[0u8; 8]], &[0u8; 16]);
    assert_eq!(cursor.complete(&raw).unwrap_err(), SearchError::ZeroFamily);
}

#[test]
fn all_ambiguous_is_rejected() {
    let rom = valid_rom([0x28, 0x11, 0x22, 0x33, 0x44, 0x55, 0x66]);
    // two devices that differ only in bit 62, where the zero branch is taken
    assert!(!rom_bit(&rom, 62));
    let mut other = rom;
    other[0] |= 0x40;
    let cursor = Search::new(false);
    let raw = accelerator(&[rom, other], &[0u8; 16]);
    assert_eq!(cursor.complete(&raw).unwrap_err(), SearchError::AllAmbiguous);
}
