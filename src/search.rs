use vstd::prelude::*;

use crate::codes::{crc8, crc8_of, Command, FunctionSelect, Mode};
use crate::frame::{
    bit_of, decode_frame, encode_frame, frame_rom, is_search_frame, last_zero, lemma_frame_rom,
    response_frame, steering, unscramble,
};
use crate::{data_switch, lemma_command_bytes, DS2480B};

verus! {

/// Why a search step was refused: the response frame is not a valid ROM.
#[derive(PartialEq, Eq, Structural, Clone, Copy, Debug)]
pub enum SearchError {
    /// The CRC8 over the ROM value is not zero.
    CrcMismatch,
    /// Every position was ambiguous: a shorted bus or a lost step.
    AllAmbiguous,
    /// The family code is zero.
    ZeroFamily,
}

/// Search command byte: the alarm search or the plain ROM search.
pub open spec fn search_command(alarm_only: bool) -> u8 {
    if alarm_only {
        0xECu8
    } else {
        0xF0u8
    }
}

/// Bytes written before the search frame.
pub open spec fn search_prefix(mode: Mode, alarm_only: bool) -> Seq<u8> {
    data_switch(mode) + seq![search_command(alarm_only), 0xE3u8, 0xB1u8, 0xE1u8]
}

/// The error, if any, of a response frame whose ROM value is `rom` and
/// whose last zero-branch discrepancy is `lz`; the checks come in this
/// order.
pub open spec fn frame_error(rom: Seq<u8>, lz: int) -> Option<SearchError> {
    if crc8_of(0, rom) != 0 {
        Some(SearchError::CrcMismatch)
    } else if lz == 63 {
        Some(SearchError::AllAmbiguous)
    } else if rom[0] == 0 {
        Some(SearchError::ZeroFamily)
    } else {
        None
    }
}

/// Cursor of a ROM search.
#[derive(Clone, Copy, Debug)]
pub struct Search {
    pub alarm_only: bool,
    pub last_discrepancy: u32,
    pub last_family_discrepancy: u32,
    pub last_device: bool,
    pub rom: [u8; 8],
}

impl Search {
    /// The discrepancy positions are in range: at most 64 for the ROM,
    /// at most 8 for the family code.
    pub open spec fn wf(self) -> bool {
        self.last_discrepancy <= 64 && self.last_family_discrepancy <= 8
    }

    /// The cursor that follows `self` after a step that read the frame `f`.
    pub open spec fn advanced(self, f: Seq<u8>, next: Search) -> bool {
        &&& next.alarm_only == self.alarm_only
        &&& next.rom@ == frame_rom(f)
        &&& next.last_discrepancy == last_zero(f, 64)
        &&& next.last_family_discrepancy == (if last_zero(f, 8) != 0 {
            last_zero(f, 8)
        } else {
            self.last_family_discrepancy as int
        })
        &&& next.last_device == (last_zero(f, 64) == 0)
    }

    /// A cursor before its first step: no discrepancy seen yet, and a
    /// previous ROM value of all zeros.
    pub open spec fn is_initial(self, alarm_only: bool) -> bool {
        &&& self.alarm_only == alarm_only
        &&& self.last_discrepancy == 0
        &&& self.last_family_discrepancy == 0
        &&& !self.last_device
        &&& forall|k: int| 0 <= k < 8 ==> self.rom@[k] == 0u8
    }

    /// A cursor for a new search.
    pub fn new(alarm_only: bool) -> (r: Self)
        ensures
            r.is_initial(alarm_only),
    {
        Search {
            alarm_only,
            last_discrepancy: 0,
            last_family_discrepancy: 0,
            last_device: false,
            rom: [0u8; 8],
        }
    }

    /// Whether the search has yielded its last device.
    pub fn is_done(&self) -> (r: bool)
        ensures
            r == self.last_device,
    {
        self.last_device
    }

    /// Bytes of one search step, to be written after a bus reset that found
    /// a presence pulse: enter data mode, send the search command, turn the
    /// search accelerator on, send the search frame in data mode, and turn
    /// the accelerator off. The chip is left in command mode; seventeen
    /// bytes answer.
    pub fn request(&self, bus: &mut DS2480B) -> (packet: Vec<u8>)
        requires
            self.wf(),
        ensures
            ({
                let pre = search_prefix(old(bus).mode, self.alarm_only);
                &&& packet@.len() == pre.len() + 18
                &&& packet@.subrange(0, pre.len() as int) == pre
                &&& is_search_frame(
                    packet@.subrange(pre.len() as int, pre.len() as int + 16),
                    self.rom@,
                    self.last_discrepancy as int,
                )
                &&& packet@.subrange(pre.len() as int + 16, pre.len() as int + 18) == seq![0xE3u8, 0xA1u8]
            }),
            final(bus).mode == Mode::Command,
            final(bus).level == old(bus).level,
    {
        let ghost pre = search_prefix(old(bus).mode, self.alarm_only);
        let mut packet: Vec<u8> = Vec::new();
        if bus.mode != Mode::Data {
            packet.push(Command::DataMode.code());
        }
        if self.alarm_only {
            packet.push(Command::SearchAlarm.code());
        } else {
            packet.push(Command::SearchROM.code());
        }
        proof {
            lemma_command_bytes();
        }
        packet.push(Command::CommandMode.code());
        packet.push(Command::Comm.code() | FunctionSelect::SearchOn.code());
        packet.push(Command::DataMode.code());
        assert(packet@ =~= pre);
        let frame = encode_frame(&self.rom, self.last_discrepancy);
        let mut k: usize = 0;
        while k < 16
            invariant
                k <= 16,
                packet@.len() == pre.len() + k,
                packet@.subrange(0, pre.len() as int) == pre,
                forall|q: int| 0 <= q < k ==> packet@[pre.len() + q] == frame@[q],
            decreases 16 - k,
        {
            packet.push(frame[k]);
            k = k + 1;
            assert(packet@.subrange(0, pre.len() as int) =~= pre);
        }
        packet.push(Command::CommandMode.code());
        packet.push(Command::Comm.code() | FunctionSelect::SearchOff.code());
        assert(packet@.subrange(0, pre.len() as int) =~= pre);
        assert(packet@.subrange(pre.len() as int, pre.len() as int + 16) =~= frame@);
        assert(packet@.subrange(pre.len() as int + 16, pre.len() as int + 18) =~= seq![0xE3u8, 0xA1u8]);
        bus.mode = Mode::Command;
        packet
    }

    /// Completes a search step from the seventeen bytes that answered the
    /// request: corrects their byte order, decodes the frame, checks the
    /// ROM value, and returns it with the cursor for the next step.
    pub fn complete(self, raw: &[u8; 17]) -> (r: Result<([u8; 8], Search), SearchError>)
        requires
            self.wf(),
        ensures
            ({
                let f = response_frame(raw@);
                match r {
                    Ok((rom, next)) => {
                        &&& frame_error(frame_rom(f), last_zero(f, 64)) is None
                        &&& rom@ == frame_rom(f)
                        &&& self.advanced(f, next)
                        &&& next.wf()
                    },
                    Err(e) => frame_error(frame_rom(f), last_zero(f, 64)) == Some(e),
                }
            }),
    {
        let frame = unscramble(raw);
        let d = decode_frame(&frame);
        proof {
            lemma_frame_rom(d.rom@, frame@);
        }
        let crc = crc8(&d.rom);
        if crc != 0 {
            return Err(SearchError::CrcMismatch);
        }
        if d.last_zero == 63 {
            return Err(SearchError::AllAmbiguous);
        }
        if d.rom[0] == 0 {
            return Err(SearchError::ZeroFamily);
        }
        proof {
            lemma_last_zero_bound(frame@, 64);
            lemma_last_zero_bound(frame@, 8);
        }
        let family = if d.family_zero != 0 {
            d.family_zero
        } else {
            self.last_family_discrepancy
        };
        let next = Search {
            alarm_only: self.alarm_only,
            last_discrepancy: d.last_zero,
            last_family_discrepancy: family,
            last_device: d.last_zero == 0,
            rom: d.rom,
        };
        Ok((d.rom, next))
    }
}

proof fn lemma_last_zero_bound(f: Seq<u8>, n: int)
    requires
        0 <= n,
    ensures
        0 <= last_zero(f, n) <= n,
    decreases n,
{
    if n > 0 {
        lemma_last_zero_bound(f, n - 1);
    }
}

/// Steering bit `i` of the step after a step that yielded `rom` with last
/// discrepancy `k`: below position `k - 1` the bit of `rom`, at `k - 1` a
/// one, above it a zero.
pub open spec fn replayed(rom: Seq<u8>, k: int, i: int) -> bool {
    if i < k - 1 {
        bit_of(rom, i)
    } else {
        k != 0 && i == k - 1
    }
}

/// The step after a yielded ROM value is biased by it: where a step read
/// the frame `f` and left the cursor `next`, the frame of the following
/// step replays the yielded ROM's bits below the last discrepancy, forces
/// the last discrepancy to one, and leaves every later steering bit at
/// zero.
pub proof fn lemma_next_frame_biased(cur: Search, f: Seq<u8>, next: Search, p: Seq<u8>)
    requires
        cur.advanced(f, next),
        is_search_frame(p, next.rom@, next.last_discrepancy as int),
    ensures
        forall|i: int|
            #![trigger replayed(frame_rom(f), last_zero(f, 64), i)]
            0 <= i < 64 ==> bit_of(p, 2 * i + 1) == replayed(
                frame_rom(f),
                last_zero(f, 64),
                i,
            ),
{
    assert forall|i: int|
        #![trigger replayed(frame_rom(f), last_zero(f, 64), i)]
        0 <= i < 64 implies bit_of(p, 2 * i + 1) == replayed(
            frame_rom(f),
            last_zero(f, 64),
            i,
        ) by {
        assert(steering(next.rom@, next.last_discrepancy as int, i) == bit_of(p, 2 * i + 1));
    }
}

} // verus!
