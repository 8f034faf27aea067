use vstd::prelude::*;

verus! {

/// Command bytes understood by the bridge chip and by 1-Wire devices.
pub enum Command {
    Reset,
    Pullup,
    DataMode,
    CommandMode,
    SearchAccelleratorOn,
    SearchAccelleratorOff,
    ConvertT,
    PullupArm,
    PullupDisarm,
    PulseTerminate,
    ReadScratchpad,
    SkipROM,
    MatchROM,
    SearchROM,
    SearchAlarm,
    Comm,
    Config,
}

impl Command {
    pub open spec fn spec_code(self) -> u8 {
        match self {
            Command::Reset => 0xC1,
            Command::Pullup => 0x3B,
            Command::DataMode => 0xE1,
            Command::CommandMode => 0xE3,
            Command::SearchAccelleratorOn => 0xB1,
            Command::SearchAccelleratorOff => 0xA1,
            Command::ConvertT => 0x44,
            Command::PullupArm => 0xEF,
            Command::PullupDisarm => 0xED,
            Command::PulseTerminate => 0xF1,
            Command::ReadScratchpad => 0xBE,
            Command::SkipROM => 0xCC,
            Command::MatchROM => 0x55,
            Command::SearchROM => 0xF0,
            Command::SearchAlarm => 0xEC,
            Command::Comm => 0x81,
            Command::Config => 0x01,
        }
    }

    /// The byte that encodes this command.
    pub fn code(&self) -> (r: u8)
        ensures
            r == self.spec_code(),
    {
        match self {
            Command::Reset => 0xC1,
            Command::Pullup => 0x3B,
            Command::DataMode => 0xE1,
            Command::CommandMode => 0xE3,
            Command::SearchAccelleratorOn => 0xB1,
            Command::SearchAccelleratorOff => 0xA1,
            Command::ConvertT => 0x44,
            Command::PullupArm => 0xEF,
            Command::PullupDisarm => 0xED,
            Command::PulseTerminate => 0xF1,
            Command::ReadScratchpad => 0xBE,
            Command::SkipROM => 0xCC,
            Command::MatchROM => 0x55,
            Command::SearchROM => 0xF0,
            Command::SearchAlarm => 0xEC,
            Command::Comm => 0x81,
            Command::Config => 0x01,
        }
    }
}

/// Function-select bits of a communication command.
pub enum FunctionSelect {
    Bit,
    SearchOn,
    SearchOff,
    Reset,
    Chmod,
}

impl FunctionSelect {
    pub open spec fn spec_code(self) -> u8 {
        match self {
            FunctionSelect::Bit => 0x00,
            FunctionSelect::SearchOn => 0x30,
            FunctionSelect::SearchOff => 0x20,
            FunctionSelect::Reset => 0x40,
            FunctionSelect::Chmod => 0x60,
        }
    }

    /// The bits that encode this value.
    pub fn code(&self) -> (r: u8)
        ensures
            r == self.spec_code(),
    {
        match self {
            FunctionSelect::Bit => 0x00,
            FunctionSelect::SearchOn => 0x30,
            FunctionSelect::SearchOff => 0x20,
            FunctionSelect::Reset => 0x40,
            FunctionSelect::Chmod => 0x60,
        }
    }
}

/// Speed-select bits of a communication command.
pub enum SpeedSelect {
    Standard,
    Flex,
    Overdrive,
    Pulse,
}

impl SpeedSelect {
    pub open spec fn spec_code(self) -> u8 {
        match self {
            SpeedSelect::Standard => 0x00,
            SpeedSelect::Flex => 0x04,
            SpeedSelect::Overdrive => 0x08,
            SpeedSelect::Pulse => 0x0C,
        }
    }

    /// The bits that encode this value.
    pub fn code(&self) -> (r: u8)
        ensures
            r == self.spec_code(),
    {
        match self {
            SpeedSelect::Standard => 0x00,
            SpeedSelect::Flex => 0x04,
            SpeedSelect::Overdrive => 0x08,
            SpeedSelect::Pulse => 0x0C,
        }
    }
}

/// Parameter-select bits of a configuration command.
pub enum ParameterSelect {
    ParmRead,
    Slew,
    Pulse12V,
    Pulse5V,
    Write1Low,
    SampleOffset,
    ActivePullupTime,
    Baudrate,
}

impl ParameterSelect {
    pub open spec fn spec_code(self) -> u8 {
        match self {
            ParameterSelect::ParmRead => 0x00,
            ParameterSelect::Slew => 0x10,
            ParameterSelect::Pulse12V => 0x20,
            ParameterSelect::Pulse5V => 0x30,
            ParameterSelect::Write1Low => 0x40,
            ParameterSelect::SampleOffset => 0x50,
            ParameterSelect::ActivePullupTime => 0x60,
            ParameterSelect::Baudrate => 0x70,
        }
    }

    /// The bits that encode this value.
    pub fn code(&self) -> (r: u8)
        ensures
            r == self.spec_code(),
    {
        match self {
            ParameterSelect::ParmRead => 0x00,
            ParameterSelect::Slew => 0x10,
            ParameterSelect::Pulse12V => 0x20,
            ParameterSelect::Pulse5V => 0x30,
            ParameterSelect::Write1Low => 0x40,
            ParameterSelect::SampleOffset => 0x50,
            ParameterSelect::ActivePullupTime => 0x60,
            ParameterSelect::Baudrate => 0x70,
        }
    }
}

/// Pull-down slew rate values of the slew configuration parameter.
pub enum SlewRate {
    Slew15Vus,
    Slew2p2Vus,
    Slew1p65Vus,
    Slew1p37Vus,
    Slew1p1Vus,
    Slew0p83Vus,
    Slew0p7Vus,
    Slew0p55Vus,
}

impl SlewRate {
    pub open spec fn spec_code(self) -> u8 {
        match self {
            SlewRate::Slew15Vus => 0x00,
            SlewRate::Slew2p2Vus => 0x02,
            SlewRate::Slew1p65Vus => 0x04,
            SlewRate::Slew1p37Vus => 0x06,
            SlewRate::Slew1p1Vus => 0x08,
            SlewRate::Slew0p83Vus => 0x0A,
            SlewRate::Slew0p7Vus => 0x0C,
            SlewRate::Slew0p55Vus => 0x0E,
        }
    }

    /// The bits that encode this value.
    pub fn code(&self) -> (r: u8)
        ensures
            r == self.spec_code(),
    {
        match self {
            SlewRate::Slew15Vus => 0x00,
            SlewRate::Slew2p2Vus => 0x02,
            SlewRate::Slew1p65Vus => 0x04,
            SlewRate::Slew1p37Vus => 0x06,
            SlewRate::Slew1p1Vus => 0x08,
            SlewRate::Slew0p83Vus => 0x0A,
            SlewRate::Slew0p7Vus => 0x0C,
            SlewRate::Slew0p55Vus => 0x0E,
        }
    }
}

/// Write-one low time values.
pub enum Write1LowTime {
    Write8us,
    Write9us,
    Write10us,
    Write11us,
    Write12us,
    Write13us,
    Write14us,
    Write15us,
}

impl Write1LowTime {
    pub open spec fn spec_code(self) -> u8 {
        match self {
            Write1LowTime::Write8us => 0x00,
            Write1LowTime::Write9us => 0x02,
            Write1LowTime::Write10us => 0x04,
            Write1LowTime::Write11us => 0x06,
            Write1LowTime::Write12us => 0x08,
            Write1LowTime::Write13us => 0x0A,
            Write1LowTime::Write14us => 0x0C,
            Write1LowTime::Write15us => 0x0E,
        }
    }

    /// The bits that encode this value.
    pub fn code(&self) -> (r: u8)
        ensures
            r == self.spec_code(),
    {
        match self {
            Write1LowTime::Write8us => 0x00,
            Write1LowTime::Write9us => 0x02,
            Write1LowTime::Write10us => 0x04,
            Write1LowTime::Write11us => 0x06,
            Write1LowTime::Write12us => 0x08,
            Write1LowTime::Write13us => 0x0A,
            Write1LowTime::Write14us => 0x0C,
            Write1LowTime::Write15us => 0x0E,
        }
    }
}

/// Data sample offset / write-zero recovery time values.
pub enum SampleOffset {
    SampOff3us,
    SampOff4us,
    SampOff5us,
    SampOff6us,
    SampOff7us,
    SampOff8us,
    SampOff9us,
    SampOff10us,
}

impl SampleOffset {
    pub open spec fn spec_code(self) -> u8 {
        match self {
            SampleOffset::SampOff3us => 0x00,
            SampleOffset::SampOff4us => 0x02,
            SampleOffset::SampOff5us => 0x04,
            SampleOffset::SampOff6us => 0x06,
            SampleOffset::SampOff7us => 0x08,
            SampleOffset::SampOff8us => 0x0A,
            SampleOffset::SampOff9us => 0x0C,
            SampleOffset::SampOff10us => 0x0E,
        }
    }

    /// The bits that encode this value.
    pub fn code(&self) -> (r: u8)
        ensures
            r == self.spec_code(),
    {
        match self {
            SampleOffset::SampOff3us => 0x00,
            SampleOffset::SampOff4us => 0x02,
            SampleOffset::SampOff5us => 0x04,
            SampleOffset::SampOff6us => 0x06,
            SampleOffset::SampOff7us => 0x08,
            SampleOffset::SampOff8us => 0x0A,
            SampleOffset::SampOff9us => 0x0C,
            SampleOffset::SampOff10us => 0x0E,
        }
    }
}

/// Strong pull-up / programming pulse durations.
pub enum PulseTime {
    Pulse32us,
    Pulse64us,
    Pulse128us,
    Pulse256us,
    Pulse512us,
    Pulse1024us,
    Pulse2048us,
    PulseInfinite,
}

impl PulseTime {
    pub open spec fn spec_code(self) -> u8 {
        match self {
            PulseTime::Pulse32us => 0x00,
            PulseTime::Pulse64us => 0x02,
            PulseTime::Pulse128us => 0x04,
            PulseTime::Pulse256us => 0x06,
            PulseTime::Pulse512us => 0x08,
            PulseTime::Pulse1024us => 0x0A,
            PulseTime::Pulse2048us => 0x0C,
            PulseTime::PulseInfinite => 0x0E,
        }
    }

    /// The bits that encode this value.
    pub fn code(&self) -> (r: u8)
        ensures
            r == self.spec_code(),
    {
        match self {
            PulseTime::Pulse32us => 0x00,
            PulseTime::Pulse64us => 0x02,
            PulseTime::Pulse128us => 0x04,
            PulseTime::Pulse256us => 0x06,
            PulseTime::Pulse512us => 0x08,
            PulseTime::Pulse1024us => 0x0A,
            PulseTime::Pulse2048us => 0x0C,
            PulseTime::PulseInfinite => 0x0E,
        }
    }
}

/// Electrical level asserted on the 1-Wire line.
#[derive(PartialEq, Eq, Structural, Clone, Copy, Debug)]
pub enum Level {
    Normal,
    Overdrive,
    Strong5,
    Program,
    Break,
}

impl Level {
    pub open spec fn spec_code(self) -> u8 {
        match self {
            Level::Normal => 0x00,
            Level::Overdrive => 0x01,
            Level::Strong5 => 0x02,
            Level::Program => 0x04,
            Level::Break => 0x08,
        }
    }

    /// The bits that encode this value.
    pub fn code(&self) -> (r: u8)
        ensures
            r == self.spec_code(),
    {
        match self {
            Level::Normal => 0x00,
            Level::Overdrive => 0x01,
            Level::Strong5 => 0x02,
            Level::Program => 0x04,
            Level::Break => 0x08,
        }
    }
}

/// How the chip interprets the next bytes it receives.
#[derive(PartialEq, Eq, Structural, Clone, Copy, Debug)]
pub enum Mode {
    Data,
    Command,
}

impl Mode {
    pub open spec fn spec_code(self) -> u8 {
        match self {
            Mode::Data => 0x00,
            Mode::Command => 0x02,
        }
    }

    /// The bits that encode this value.
    pub fn code(&self) -> (r: u8)
        ensures
            r == self.spec_code(),
    {
        match self {
            Mode::Data => 0x00,
            Mode::Command => 0x02,
        }
    }
}

/// Value written by a single-bit operation.
pub enum BitPolarity {
    One,
    Zero,
}

impl BitPolarity {
    pub open spec fn spec_code(self) -> u8 {
        match self {
            BitPolarity::One => 0x10,
            BitPolarity::Zero => 0x00,
        }
    }

    /// The bits that encode this value.
    pub fn code(&self) -> (r: u8)
        ensures
            r == self.spec_code(),
    {
        match self {
            BitPolarity::One => 0x10,
            BitPolarity::Zero => 0x00,
        }
    }
}

/// Masks and values of the status byte that answers a bus reset.
pub const CHIPID_MASK: u8 = 0x1C;
pub const RESET_MASK: u8 = 0x03;
pub const ONEWIRESHORT: u8 = 0x00;
pub const PRESENCE: u8 = 0x01;
pub const ALARMPRESENCE: u8 = 0x02;
pub const NOPRESENCE: u8 = 0x03;


/// Lookup table of the Dallas/Maxim CRC8: entry `i` is `i` run through
/// the reflected polynomial 0x8C for eight bit steps.
pub const DSCRC_TABLE: [u8; 256] = [
    0, 94, 188, 226, 97, 63, 221, 131, 194, 156, 126, 32, 163, 253, 31, 65,
    157, 195, 33, 127, 252, 162, 64, 30, 95, 1, 227, 189, 62, 96, 130, 220,
    35, 125, 159, 193, 66, 28, 254, 160, 225, 191, 93, 3, 128, 222, 60, 98,
    190, 224, 2, 92, 223, 129, 99, 61, 124, 34, 192, 158, 29, 67, 161, 255,
    70, 24, 250, 164, 39, 121, 155, 197, 132, 218, 56, 102, 229, 187, 89, 7,
    219, 133, 103, 57, 186, 228, 6, 88, 25, 71, 165, 251, 120, 38, 196, 154,
    101, 59, 217, 135, 4, 90, 184, 230, 167, 249, 27, 69, 198, 152, 122, 36,
    248, 166, 68, 26, 153, 199, 37, 123, 58, 100, 134, 216, 91, 5, 231, 185,
    140, 210, 48, 110, 237, 179, 81, 15, 78, 16, 242, 172, 47, 113, 147, 205,
    17, 79, 173, 243, 112, 46, 204, 146, 211, 141, 111, 49, 178, 236, 14, 80,
    175, 241, 19, 77, 206, 144, 114, 44, 109, 51, 209, 143, 12, 82, 176, 238,
    50, 108, 142, 208, 83, 13, 239, 177, 240, 174, 76, 18, 145, 207, 45, 115,
    202, 148, 118, 40, 171, 245, 23, 73, 8, 86, 180, 234, 105, 55, 213, 139,
    87, 9, 235, 181, 54, 104, 138, 212, 149, 203, 41, 119, 244, 170, 72, 22,
    233, 183, 85, 11, 136, 214, 52, 106, 43, 117, 151, 201, 74, 20, 246, 168,
    116, 42, 200, 150, 21, 75, 169, 247, 182, 232, 10, 84, 215, 137, 107, 53,
];

/// One bit step of the reflected CRC8 polynomial 0x8C.
#[verifier::inline]
pub open spec fn crc_step(c: u8) -> u8 {
    if c & 1u8 == 1u8 {
        (c >> 1u8) ^ 0x8Cu8
    } else {
        c >> 1u8
    }
}

/// The bitwise CRC8 of one byte: eight polynomial steps.
pub open spec fn crc8_byte(x: u8) -> u8 {
    crc_step(crc_step(crc_step(crc_step(crc_step(crc_step(crc_step(crc_step(x))))))))
}

/// Running CRC8 over `bytes`, starting from `state`, folded one byte at a
/// time by the bitwise polynomial.
pub open spec fn crc8_of(state: u8, bytes: Seq<u8>) -> u8
    decreases bytes.len(),
{
    if bytes.len() == 0 {
        state
    } else {
        crc8_byte(crc8_of(state, bytes.drop_last()) ^ bytes.last())
    }
}

#[verifier::inline]
spec fn table_select(x: u8) -> u8 {
    if x == 0 { 0 } else
    if x == 1 { 94 } else
    if x == 2 { 188 } else
    if x == 3 { 226 } else
    if x == 4 { 97 } else
    if x == 5 { 63 } else
    if x == 6 { 221 } else
    if x == 7 { 131 } else
    if x == 8 { 194 } else
    if x == 9 { 156 } else
    if x == 10 { 126 } else
    if x == 11 { 32 } else
    if x == 12 { 163 } else
    if x == 13 { 253 } else
    if x == 14 { 31 } else
    if x == 15 { 65 } else
    if x == 16 { 157 } else
    if x == 17 { 195 } else
    if x == 18 { 33 } else
    if x == 19 { 127 } else
    if x == 20 { 252 } else
    if x == 21 { 162 } else
    if x == 22 { 64 } else
    if x == 23 { 30 } else
    if x == 24 { 95 } else
    if x == 25 { 1 } else
    if x == 26 { 227 } else
    if x == 27 { 189 } else
    if x == 28 { 62 } else
    if x == 29 { 96 } else
    if x == 30 { 130 } else
    if x == 31 { 220 } else
    if x == 32 { 35 } else
    if x == 33 { 125 } else
    if x == 34 { 159 } else
    if x == 35 { 193 } else
    if x == 36 { 66 } else
    if x == 37 { 28 } else
    if x == 38 { 254 } else
    if x == 39 { 160 } else
    if x == 40 { 225 } else
    if x == 41 { 191 } else
    if x == 42 { 93 } else
    if x == 43 { 3 } else
    if x == 44 { 128 } else
    if x == 45 { 222 } else
    if x == 46 { 60 } else
    if x == 47 { 98 } else
    if x == 48 { 190 } else
    if x == 49 { 224 } else
    if x == 50 { 2 } else
    if x == 51 { 92 } else
    if x == 52 { 223 } else
    if x == 53 { 129 } else
    if x == 54 { 99 } else
    if x == 55 { 61 } else
    if x == 56 { 124 } else
    if x == 57 { 34 } else
    if x == 58 { 192 } else
    if x == 59 { 158 } else
    if x == 60 { 29 } else
    if x == 61 { 67 } else
    if x == 62 { 161 } else
    if x == 63 { 255 } else
    if x == 64 { 70 } else
    if x == 65 { 24 } else
    if x == 66 { 250 } else
    if x == 67 { 164 } else
    if x == 68 { 39 } else
    if x == 69 { 121 } else
    if x == 70 { 155 } else
    if x == 71 { 197 } else
    if x == 72 { 132 } else
    if x == 73 { 218 } else
    if x == 74 { 56 } else
    if x == 75 { 102 } else
    if x == 76 { 229 } else
    if x == 77 { 187 } else
    if x == 78 { 89 } else
    if x == 79 { 7 } else
    if x == 80 { 219 } else
    if x == 81 { 133 } else
    if x == 82 { 103 } else
    if x == 83 { 57 } else
    if x == 84 { 186 } else
    if x == 85 { 228 } else
    if x == 86 { 6 } else
    if x == 87 { 88 } else
    if x == 88 { 25 } else
    if x == 89 { 71 } else
    if x == 90 { 165 } else
    if x == 91 { 251 } else
    if x == 92 { 120 } else
    if x == 93 { 38 } else
    if x == 94 { 196 } else
    if x == 95 { 154 } else
    if x == 96 { 101 } else
    if x == 97 { 59 } else
    if x == 98 { 217 } else
    if x == 99 { 135 } else
    if x == 100 { 4 } else
    if x == 101 { 90 } else
    if x == 102 { 184 } else
    if x == 103 { 230 } else
    if x == 104 { 167 } else
    if x == 105 { 249 } else
    if x == 106 { 27 } else
    if x == 107 { 69 } else
    if x == 108 { 198 } else
    if x == 109 { 152 } else
    if x == 110 { 122 } else
    if x == 111 { 36 } else
    if x == 112 { 248 } else
    if x == 113 { 166 } else
    if x == 114 { 68 } else
    if x == 115 { 26 } else
    if x == 116 { 153 } else
    if x == 117 { 199 } else
    if x == 118 { 37 } else
    if x == 119 { 123 } else
    if x == 120 { 58 } else
    if x == 121 { 100 } else
    if x == 122 { 134 } else
    if x == 123 { 216 } else
    if x == 124 { 91 } else
    if x == 125 { 5 } else
    if x == 126 { 231 } else
    if x == 127 { 185 } else
    if x == 128 { 140 } else
    if x == 129 { 210 } else
    if x == 130 { 48 } else
    if x == 131 { 110 } else
    if x == 132 { 237 } else
    if x == 133 { 179 } else
    if x == 134 { 81 } else
    if x == 135 { 15 } else
    if x == 136 { 78 } else
    if x == 137 { 16 } else
    if x == 138 { 242 } else
    if x == 139 { 172 } else
    if x == 140 { 47 } else
    if x == 141 { 113 } else
    if x == 142 { 147 } else
    if x == 143 { 205 } else
    if x == 144 { 17 } else
    if x == 145 { 79 } else
    if x == 146 { 173 } else
    if x == 147 { 243 } else
    if x == 148 { 112 } else
    if x == 149 { 46 } else
    if x == 150 { 204 } else
    if x == 151 { 146 } else
    if x == 152 { 211 } else
    if x == 153 { 141 } else
    if x == 154 { 111 } else
    if x == 155 { 49 } else
    if x == 156 { 178 } else
    if x == 157 { 236 } else
    if x == 158 { 14 } else
    if x == 159 { 80 } else
    if x == 160 { 175 } else
    if x == 161 { 241 } else
    if x == 162 { 19 } else
    if x == 163 { 77 } else
    if x == 164 { 206 } else
    if x == 165 { 144 } else
    if x == 166 { 114 } else
    if x == 167 { 44 } else
    if x == 168 { 109 } else
    if x == 169 { 51 } else
    if x == 170 { 209 } else
    if x == 171 { 143 } else
    if x == 172 { 12 } else
    if x == 173 { 82 } else
    if x == 174 { 176 } else
    if x == 175 { 238 } else
    if x == 176 { 50 } else
    if x == 177 { 108 } else
    if x == 178 { 142 } else
    if x == 179 { 208 } else
    if x == 180 { 83 } else
    if x == 181 { 13 } else
    if x == 182 { 239 } else
    if x == 183 { 177 } else
    if x == 184 { 240 } else
    if x == 185 { 174 } else
    if x == 186 { 76 } else
    if x == 187 { 18 } else
    if x == 188 { 145 } else
    if x == 189 { 207 } else
    if x == 190 { 45 } else
    if x == 191 { 115 } else
    if x == 192 { 202 } else
    if x == 193 { 148 } else
    if x == 194 { 118 } else
    if x == 195 { 40 } else
    if x == 196 { 171 } else
    if x == 197 { 245 } else
    if x == 198 { 23 } else
    if x == 199 { 73 } else
    if x == 200 { 8 } else
    if x == 201 { 86 } else
    if x == 202 { 180 } else
    if x == 203 { 234 } else
    if x == 204 { 105 } else
    if x == 205 { 55 } else
    if x == 206 { 213 } else
    if x == 207 { 139 } else
    if x == 208 { 87 } else
    if x == 209 { 9 } else
    if x == 210 { 235 } else
    if x == 211 { 181 } else
    if x == 212 { 54 } else
    if x == 213 { 104 } else
    if x == 214 { 138 } else
    if x == 215 { 212 } else
    if x == 216 { 149 } else
    if x == 217 { 203 } else
    if x == 218 { 41 } else
    if x == 219 { 119 } else
    if x == 220 { 244 } else
    if x == 221 { 170 } else
    if x == 222 { 72 } else
    if x == 223 { 22 } else
    if x == 224 { 233 } else
    if x == 225 { 183 } else
    if x == 226 { 85 } else
    if x == 227 { 11 } else
    if x == 228 { 136 } else
    if x == 229 { 214 } else
    if x == 230 { 52 } else
    if x == 231 { 106 } else
    if x == 232 { 43 } else
    if x == 233 { 117 } else
    if x == 234 { 151 } else
    if x == 235 { 201 } else
    if x == 236 { 74 } else
    if x == 237 { 20 } else
    if x == 238 { 246 } else
    if x == 239 { 168 } else
    if x == 240 { 116 } else
    if x == 241 { 42 } else
    if x == 242 { 200 } else
    if x == 243 { 150 } else
    if x == 244 { 21 } else
    if x == 245 { 75 } else
    if x == 246 { 169 } else
    if x == 247 { 247 } else
    if x == 248 { 182 } else
    if x == 249 { 232 } else
    if x == 250 { 10 } else
    if x == 251 { 84 } else
    if x == 252 { 215 } else
    if x == 253 { 137 } else
    if x == 254 { 107 } else
    { 53 }
}

/// Every entry of the lookup table is the bitwise CRC8 of its index.
#[verifier::rlimit(40)]
pub proof fn lemma_table_is_polynomial(x: u8)
    ensures
        DSCRC_TABLE@[x as int] == crc8_byte(x),
{
    assert(DSCRC_TABLE@[x as int] == table_select(x));
    let c1 = crc_step(x);
    let c2 = crc_step(c1);
    let c3 = crc_step(c2);
    let c4 = crc_step(c3);
    let c5 = crc_step(c4);
    let c6 = crc_step(c5);
    let c7 = crc_step(c6);
    let c8 = crc_step(c7);
    assert(c8 == table_select(x)) by (bit_vector)
        requires
            c1 == crc_step(x),
            c2 == crc_step(c1),
            c3 == crc_step(c2),
            c4 == crc_step(c3),
            c5 == crc_step(c4),
            c6 == crc_step(c5),
            c7 == crc_step(c6),
            c8 == crc_step(c7),
    ;
}

/// Running CRC8 checksum.
pub struct CRC8(pub u8);

impl CRC8 {
    /// A checksum over no bytes yet.
    pub fn new() -> (r: Self)
        ensures
            r.0 == 0,
    {
        CRC8(0)
    }

    /// Folds one byte into the checksum through the lookup table.
    pub fn calc(&mut self, value: u8)
        ensures
            final(self).0 == DSCRC_TABLE@[(old(self).0 ^ value) as int],
            final(self).0 == crc8_byte(old(self).0 ^ value),
    {
        proof {
            lemma_table_is_polynomial(self.0 ^ value);
        }
        self.0 = DSCRC_TABLE[(self.0 ^ value) as usize];
    }
}

/// Table-driven CRC8 over a byte slice, from a zero state.
pub fn crc8(bytes: &[u8]) -> (r: u8)
    ensures
        r == crc8_of(0, bytes@),
{
    let mut crc = CRC8::new();
    let mut i: usize = 0;
    while i < bytes.len()
        invariant
            i <= bytes@.len(),
            crc.0 == crc8_of(0, bytes@.subrange(0, i as int)),
        decreases bytes@.len() - i,
    {
        proof {
            let p = bytes@.subrange(0, i as int + 1);
            assert(p.drop_last() =~= bytes@.subrange(0, i as int));
        }
        crc.calc(bytes[i]);
        i = i + 1;
    }
    assert(bytes@.subrange(0, bytes@.len() as int) =~= bytes@);
    crc.0
}

} // verus!
