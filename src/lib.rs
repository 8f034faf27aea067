//! Driver logic for a DS2480B serial-to-1-Wire bridge: command bytes,
//! CRC8, the search frame codec, bus-controller bookkeeping and the ROM
//! search cursor.
//!
//! The transport stays with the caller. Each operation is split into steps:
//! a step returns the bytes to write, and the next step takes the reply
//! that was read and decides what follows, updating the tracked mode and
//! line level.
use vstd::prelude::*;

pub mod codes;
pub mod frame;
pub mod search;

use codes::{
    BitPolarity, Command, FunctionSelect, Level, Mode, ParameterSelect, PulseTime, SampleOffset,
    SlewRate, SpeedSelect, Write1LowTime,
};

verus! {

/// Baud rate of normal operation.
pub const BAUD_RATE: u32 = 9600;

/// Lower baud rate at which zero bytes stretch into a line break.
pub const BREAK_BAUD_RATE: u32 = 2400;

/// Zero bytes written at the break baud rate to emulate a break.
pub const BREAK_FILLER: [u8; 3] = [0u8, 0u8, 0u8];

/// Settle delay around the emulated break, in milliseconds.
pub const SETTLE_DELAY_MS: u64 = 2;

/// Read and write deadline of the transport, in milliseconds.
pub const IO_TIMEOUT_MS: u64 = 200;

/// Bytes that leave the chip's data mode, if it is in it.
pub open spec fn command_switch(m: Mode) -> Seq<u8> {
    if m == Mode::Command {
        seq![]
    } else {
        seq![0xE3u8]
    }
}

/// Bytes that enter the chip's data mode, if it is not in it.
pub open spec fn data_switch(m: Mode) -> Seq<u8> {
    if m == Mode::Data {
        seq![]
    } else {
        seq![0xE1u8]
    }
}

/// The reset status byte reports a presence or an alarm-presence pulse.
pub open spec fn reset_presence(status: u8) -> bool {
    status & 0x03u8 == 0x01u8 || status & 0x03u8 == 0x02u8
}

/// The reset status byte carries the chip identification pattern.
pub open spec fn reset_in_sync(status: u8) -> bool {
    status & 0x1Cu8 == 0x0Cu8 && status >> 6u8 == 3u8
}

/// The answer to the configuration probe shows a chip that echoes its
/// configuration: the baud-rate readback is zero and the single-bit test
/// returns 0x90 in its upper six bits.
pub open spec fn probe_accepted(reply: Seq<u8>) -> bool {
    reply[3] == 0u8 && reply[4] & 0xFCu8 == 0x90u8
}

/// The confirmation bytes of a level change are those the chip sends
/// when it accepts the change.
pub open spec fn level_reply_ok(target: Level, reply: Seq<u8>) -> bool {
    if target == Level::Normal {
        reply[0] & 0xE0u8 == 0xE0u8 && reply[1] & 0xE0u8 == 0xE0u8
    } else {
        reply[0] & 0x81u8 == 0u8
    }
}

/// Bytes written to change the line level towards `target`.
pub open spec fn level_bytes(target: Level) -> Seq<u8> {
    if target == Level::Normal {
        seq![0xF1u8, 0xEDu8, 0xF1u8]
    } else {
        seq![0x3Fu8, 0xEDu8]
    }
}

/// A byte that is an unsolicited device notification, not response data.
pub open spec fn is_notification(b: u8) -> bool {
    b & 0x2u8 == 0x1u8
}

/// What the controller concludes from the status byte of a bus reset.
#[derive(Clone, Copy, Debug)]
pub struct ResetReply {
    /// Devices answered with a presence pulse.
    pub presence: bool,
    /// The chip is out of step and must be detected again.
    pub resync: bool,
}

/// Bytes to write for a level change, and the length of the confirmation.
#[derive(Debug)]
pub struct LevelRequest {
    pub packet: Vec<u8>,
    pub reply_len: usize,
}

pub(crate) proof fn lemma_command_bytes()
    ensures
        0x81u8 | 0x40u8 == 0xC1u8,
        0x81u8 | 0x60u8 | 0x0Cu8 == 0xEDu8,
        0x01u8 | 0x30u8 | 0x0Eu8 == 0x3Fu8,
        0x01u8 | 0x10u8 | 0x04u8 == 0x15u8,
        0x01u8 | 0x40u8 | 0x04u8 == 0x45u8,
        0x01u8 | 0x50u8 | 0x0Au8 == 0x5Bu8,
        0x01u8 | 0x00u8 | (0x70u8 >> 3u8) == 0x0Fu8,
        0x81u8 | 0x00u8 | 0x10u8 == 0x91u8,
        0x81u8 | 0x30u8 == 0xB1u8,
        0x81u8 | 0x20u8 == 0xA1u8,
{
    assert(0x81u8 | 0x40u8 == 0xC1u8 && 0x81u8 | 0x60u8 | 0x0Cu8 == 0xEDu8 && 0x01u8 | 0x30u8
        | 0x0Eu8 == 0x3Fu8 && 0x01u8 | 0x10u8 | 0x04u8 == 0x15u8 && 0x01u8 | 0x40u8 | 0x04u8
        == 0x45u8 && 0x01u8 | 0x50u8 | 0x0Au8 == 0x5Bu8 && 0x01u8 | 0x00u8 | (0x70u8 >> 3u8)
        == 0x0Fu8 && 0x81u8 | 0x00u8 | 0x10u8 == 0x91u8 && 0x81u8 | 0x30u8 == 0xB1u8 && 0x81u8
        | 0x20u8 == 0xA1u8) by (bit_vector);
}

/// State of a DS2480B bridge: the interpretation mode and the line level
/// that the controller last set.
#[derive(Clone, Copy, Debug)]
pub struct DS2480B {
    pub level: Level,
    pub mode: Mode,
}

impl DS2480B {
    /// A freshly opened chip: normal level, command mode.
    pub fn new() -> (r: Self)
        ensures
            r.level == Level::Normal,
            r.mode == Mode::Command,
    {
        DS2480B { level: Level::Normal, mode: Mode::Command }
    }

    /// Appends the switch to command mode where the chip is in data mode.
    fn enter_command_mode(&mut self, packet: &mut Vec<u8>)
        ensures
            final(packet)@ == old(packet)@ + command_switch(old(self).mode),
            final(self).mode == Mode::Command,
            final(self).level == old(self).level,
    {
        if self.mode != Mode::Command {
            self.mode = Mode::Command;
            packet.push(Command::CommandMode.code());
            assert(packet@ =~= old(packet)@ + command_switch(old(self).mode));
        } else {
            assert(packet@ =~= old(packet)@ + command_switch(old(self).mode));
        }
    }

    /// Bytes of a bus reset. The line level is to be normal beforehand
    /// (see `level_request`); the chip is left in command mode.
    pub fn reset_request(&mut self) -> (packet: Vec<u8>)
        ensures
            packet@ == command_switch(old(self).mode) + seq![0xC1u8],
            final(self).mode == Mode::Command,
            final(self).level == old(self).level,
    {
        let mut packet: Vec<u8> = Vec::new();
        self.enter_command_mode(&mut packet);
        proof {
            lemma_command_bytes();
        }
        packet.push(Command::Comm.code() | FunctionSelect::Reset.code());
        assert(packet@ =~= command_switch(old(self).mode) + seq![0xC1u8]);
        packet
    }

    /// Reads the status byte that answers a bus reset.
    pub fn reset_reply(status: u8) -> (r: ResetReply)
        ensures
            r.presence == reset_presence(status),
            r.resync == !reset_in_sync(status),
    {
        let code: u8 = status & codes::RESET_MASK;
        let presence = code == codes::PRESENCE || code == codes::ALARMPRESENCE;
        let in_sync = (status & codes::CHIPID_MASK) == 0x0C && (status >> 6u8) == 0x3;
        ResetReply { presence, resync: !in_sync }
    }

    /// Starts a detection: the chip comes out of it in command mode. The
    /// caller then emulates a break (`BREAK_FILLER` at `BREAK_BAUD_RATE`),
    /// writes `detect_reset_packet` and `detect_probe`, and reads five bytes.
    pub fn detect_start(&mut self)
        ensures
            final(self).mode == Mode::Command,
            final(self).level == old(self).level,
    {
        self.mode = Mode::Command;
    }

    /// The chip-level reset written after the emulated break.
    pub fn detect_reset_packet() -> (r: [u8; 1])
        ensures
            r@ == seq![0xC1u8],
    {
        let r = [Command::Reset.code()];
        assert(r@ =~= seq![0xC1u8]);
        r
    }

    /// The configuration probe: slew rate, write-one low time, sample
    /// offset, a baud-rate readback and a single-bit bus test.
    pub fn detect_probe() -> (r: [u8; 5])
        ensures
            r@ == seq![0x15u8, 0x45u8, 0x5Bu8, 0x0Fu8, 0x91u8],
    {
        proof {
            lemma_command_bytes();
        }
        let config: u8 = Command::Config.code();
        let r = [
            config | ParameterSelect::Slew.code() | SlewRate::Slew1p65Vus.code(),
            config | ParameterSelect::Write1Low.code() | Write1LowTime::Write10us.code(),
            config | ParameterSelect::SampleOffset.code() | SampleOffset::SampOff8us.code(),
            config | ParameterSelect::ParmRead.code() | (ParameterSelect::Baudrate.code() >> 3u8),
            Command::Comm.code() | FunctionSelect::Bit.code() | BitPolarity::One.code(),
        ];
        assert(r@ =~= seq![0x15u8, 0x45u8, 0x5Bu8, 0x0Fu8, 0x91u8]);
        r
    }

    /// Whether the answer to the configuration probe shows a chip in step.
    pub fn detect_accepts(reply: &[u8; 5]) -> (r: bool)
        ensures
            r == probe_accepted(reply@),
    {
        let a: u8 = reply[3];
        let b: u8 = reply[4];
        let r = (a & 0xF1u8) == 0x00u8 && (a & 0x0Eu8) == 0x00u8 && (b & 0xF0u8) == 0x90u8 && (b
            & 0x0Cu8) == 0x00u8;
        assert(r == (a == 0u8 && b & 0xFCu8 == 0x90u8)) by (bit_vector)
            requires
                r == ((a & 0xF1u8) == 0x00u8 && (a & 0x0Eu8) == 0x00u8 && (b & 0xF0u8) == 0x90u8
                    && (b & 0x0Cu8) == 0x00u8),
        ;
        r
    }

    /// First step of a level change: nothing to do where the line is at
    /// `target` already; else the bytes to write and the length of the
    /// confirmation to read. The chip is left in command mode.
    pub fn level_request(&mut self, target: Level) -> (r: Option<LevelRequest>)
        ensures
            target == old(self).level ==> r is None && *final(self) == *old(self),
            target != old(self).level ==> (r matches Some(q) && q.packet@ == command_switch(
                old(self).mode,
            ) + level_bytes(target) && q.reply_len == (if target == Level::Normal {
                2usize
            } else {
                1usize
            })),
            target != old(self).level ==> final(self).mode == Mode::Command,
            final(self).level == old(self).level,
    {
        if target == self.level {
            return None;
        }
        let mut packet: Vec<u8> = Vec::new();
        self.enter_command_mode(&mut packet);
        let ghost pre = packet@;
        proof {
            lemma_command_bytes();
        }
        let chmod_pulse: u8 = Command::Comm.code() | FunctionSelect::Chmod.code()
            | SpeedSelect::Pulse.code();
        let reply_len: usize;
        if target == Level::Normal {
            packet.push(Command::PulseTerminate.code());
            packet.push(chmod_pulse);
            packet.push(Command::PulseTerminate.code());
            reply_len = 2;
        } else {
            packet.push(
                Command::Config.code() | ParameterSelect::Pulse5V.code()
                    | PulseTime::PulseInfinite.code(),
            );
            packet.push(chmod_pulse);
            reply_len = 1;
        }
        assert(packet@ =~= pre + level_bytes(target));
        Some(LevelRequest { packet, reply_len })
    }

    /// Second step of a level change: takes the confirmation that was read.
    /// Where it is accepted the line is at `target`; where not, the level
    /// stays as it was and the caller detects the chip again.
    pub fn level_confirm(&mut self, target: Level, reply: &[u8]) -> (accepted: bool)
        requires
            reply@.len() == (if target == Level::Normal { 2int } else { 1int }),
        ensures
            accepted == level_reply_ok(target, reply@),
            final(self).level == (if accepted { target } else { old(self).level }),
            final(self).mode == old(self).mode,
    {
        let accepted = if target == Level::Normal {
            (reply[0] & 0xE0u8) == 0xE0u8 && (reply[1] & 0xE0u8) == 0xE0u8
        } else {
            (reply[0] & 0x81u8) == 0u8
        };
        if accepted {
            self.level = target;
        }
        accepted
    }

    /// Position of the first device notification at or after `from` in a
    /// reply, where replies are scanned (in command mode only).
    pub fn find_notification(&self, buf: &[u8], from: usize) -> (r: Option<usize>)
        ensures
            self.mode == Mode::Data ==> r is None,
            self.mode == Mode::Command ==> match r {
                Some(i) => from <= i < buf@.len() && is_notification(buf@[i as int]) && forall|
                    j: int,
                | from <= j < i ==> !is_notification(buf@[j]),
                None => forall|j: int| from <= j < buf@.len() ==> !is_notification(buf@[j]),
            },
    {
        if self.mode != Mode::Command {
            return None;
        }
        let mut i: usize = from;
        while i < buf.len()
            invariant
                from <= i,
                self.mode == Mode::Command,
                forall|j: int| from <= j < i ==> !is_notification(buf@[j]),
            decreases buf@.len() - i,
        {
            if (buf[i] & 0x2u8) == 0x1u8 {
                return Some(i);
            }
            i = i + 1;
        }
        None
    }

    /// Removes the notification at `at` from a reply: the bytes after it
    /// move up by one and `fill`, the byte read in its place, goes last.
    pub fn drop_notification<const N: usize>(buf: &mut [u8; N], at: usize, fill: u8)
        requires
            at < N,
        ensures
            final(buf)@ == old(buf)@.remove(at as int).push(fill),
    {
        let mut k: usize = at;
        while k + 1 < N
            invariant
                at <= k < N,
                buf@.len() == N,
                forall|j: int| 0 <= j < at ==> buf@[j] == old(buf)@[j],
                forall|j: int| at <= j < k ==> buf@[j] == old(buf)@[j + 1],
                forall|j: int| k <= j < N ==> buf@[j] == old(buf)@[j],
            decreases N - k,
        {
            buf[k] = buf[k + 1];
            k = k + 1;
        }
        buf[N - 1] = fill;
        assert(buf@ =~= old(buf)@.remove(at as int).push(fill));
    }

    /// Starts a ROM search on this bus, or an alarm search where
    /// `alarm_only` holds.
    pub fn search(&self, alarm_only: bool) -> (r: search::Search)
        ensures
            r.is_initial(alarm_only),
    {
        search::Search::new(alarm_only)
    }
}

} // verus!
