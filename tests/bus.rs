use ds2480b::codes::{Command, Level, Mode, SlewRate};
use ds2480b::{DS2480B, BREAK_FILLER, BAUD_RATE, BREAK_BAUD_RATE};

#[test]
fn new_bus_is_normal_command() {
    let bus = DS2480B::new();
    assert_eq!(bus.level, Level::Normal);
    assert_eq!(bus.mode, Mode::Command);
    assert_eq!(BAUD_RATE, 9600);
    assert_eq!(BREAK_BAUD_RATE, 2400);
    assert_eq!(BREAK_FILLER, [0u8; 3]);
}

#[test]
fn command_codes() {
    assert_eq!(Command::Reset.code(), 0xC1);
    assert_eq!(Command::SearchAlarm.code(), 0xEC);
    assert_eq!(Command::PulseTerminate.code(), 0xF1);
    assert_eq!(SlewRate::Slew1p37Vus.code(), 0x06);
    assert_eq!(Level::Break.code(), 0x08);
    assert_eq!(Mode::Command.code(), 0x02);
}

#[test]
fn reset_request_in_command_mode() {
    let mut bus = DS2480B::new();
    assert_eq!(bus.reset_request(), vec![0xC1]);
    assert_eq!(bus.mode, Mode::Command);
}

#[test]
fn reset_request_leaves_data_mode() {
    let mut bus = DS2480B::new();
    bus.mode = Mode::Data;
    assert_eq!(bus.reset_request(), vec![0xE3, 0xC1]);
    assert_eq!(bus.mode, Mode::Command);
}

#[test]
fn reset_with_presence() {
    let r = DS2480B::reset_reply(0xCD);
    assert!(r.presence);
    assert!(!r.resync);
    let r = DS2480B::reset_reply(0xCE);
    assert!(r.presence);
    assert!(!r.resync);
}

#[test]
fn reset_on_idle_bus_reports_no_presence() {
    let r = DS2480B::reset_reply(0xCF);
    assert!(!r.presence);
    assert!(!r.resync);
    let r = DS2480B::reset_reply(0xCC);
    assert!(!r.presence);
    assert!(!r.resync);
}

#[test]
fn reset_out_of_step_asks_for_detect() {
    let r = DS2480B::reset_reply(0x03);
    assert!(!r.presence);
    assert!(r.resync);
    let r = DS2480B::reset_reply(0x4D);
    assert!(r.presence);
    assert!(r.resync);
}

#[test]
fn detect_packets() {
    assert_eq!(DS2480B::detect_reset_packet(), [0xC1]);
    assert_eq!(DS2480B::detect_probe(), [0x15, 0x45, 0x5B, 0x0F, 0x91]);
    let mut bus = DS2480B::new();
    bus.mode = Mode::Data;
    bus.detect_start();
    assert_eq!(bus.mode, Mode::Command);
}

#[test]
fn detect_accepts_chip_echo() {
    assert!(DS2480B::detect_accepts(&[0x16, 0x44, 0x5A, 0x00, 0x93]));
    assert!(DS2480B::detect_accepts(&[0, 0, 0, 0x00, 0x90]));
}

#[test]
fn detect_rejects_garbage() {
    assert!(!DS2480B::detect_accepts(&[0xFF; 5]));
    assert!(!DS2480B::detect_accepts(&[0; 5]));
    assert!(!DS2480B::detect_accepts(&[0, 0, 0, 0x01, 0x90]));
    assert!(!DS2480B::detect_accepts(&[0, 0, 0, 0x00, 0x94]));
    assert!(!DS2480B::detect_accepts(&[0, 0, 0, 0x00, 0xB0]));
}

#[test]
fn level_unchanged_is_no_op() {
    let mut bus = DS2480B::new();
    assert!(bus.level_request(Level::Normal).is_none());
    assert_eq!(bus.level, Level::Normal);
}

#[test]
fn level_to_strong_pullup() {
    let mut bus = DS2480B::new();
    bus.mode = Mode::Data;
    let q = bus.level_request(Level::Strong5).unwrap();
    assert_eq!(q.packet, vec![0xE3, 0x3F, 0xED]);
    assert_eq!(q.reply_len, 1);
    assert_eq!(bus.mode, Mode::Command);
    assert_eq!(bus.level, Level::Normal);
    assert!(bus.level_confirm(Level::Strong5, &[0x3C]));
    assert_eq!(bus.level, Level::Strong5);
}

#[test]
fn level_back_to_normal() {
    let mut bus = DS2480B::new();
    bus.level = Level::Program;
    let q = bus.level_request(Level::Normal).unwrap();
    assert_eq!(q.packet, vec![0xF1, 0xED, 0xF1]);
    assert_eq!(q.reply_len, 2);
    assert!(!bus.level_confirm(Level::Normal, &[0xE0, 0x20]));
    assert_eq!(bus.level, Level::Program);
    assert!(bus.level_confirm(Level::Normal, &[0xEF, 0xF0]));
    assert_eq!(bus.level, Level::Normal);
}

#[test]
fn level_rejected_confirmation() {
    let mut bus = DS2480B::new();
    let _ = bus.level_request(Level::Overdrive);
    assert!(!bus.level_confirm(Level::Overdrive, &[0x80]));
    assert!(!bus.level_confirm(Level::Overdrive, &[0x01]));
    assert_eq!(bus.level, Level::Normal);
}

#[test]
fn notification_scan() {
    let mut bus = DS2480B::new();
    let reply = [0x00u8, 0x01, 0x02, 0x03, 0xFF];
    assert_eq!(bus.find_notification(&reply, 0), None);
    bus.mode = Mode::Data;
    assert_eq!(bus.find_notification(&reply, 0), None);
}

#[test]
fn notification_removed_in_place() {
    let mut buf = [1u8, 2, 3, 4, 5];
    DS2480B::drop_notification(&mut buf, 1, 9);
    assert_eq!(buf, [1, 3, 4, 5, 9]);
    let mut buf = [1u8, 2, 3];
    DS2480B::drop_notification(&mut buf, 2, 7);
    assert_eq!(buf, [1, 2, 7]);
}
