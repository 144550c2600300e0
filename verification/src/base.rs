//! Protocol-level building blocks: the CRC-16 engine, the closed code
//! tables, the frame codec with its error taxonomy, and the transport
//! capability trait.

use vstd::assert_seqs_equal;
use vstd::prelude::*;

verus! {

// ---------------------------------------------------------------------------
// CRC-16 engine (polynomial 0xA001, initial register 0xFFFF)
// ---------------------------------------------------------------------------

/// One shift step of the CRC register: shift right, folding the polynomial
/// back in when the dropped bit was set.
pub open spec fn crc_shift(c: u16) -> u16 {
    if c & 1 == 1 {
        (c >> 1) ^ 0xA001
    } else {
        c >> 1
    }
}

/// `n` shift steps applied to the register.
pub open spec fn crc_shift_n(c: u16, n: nat) -> u16
    decreases n,
{
    if n == 0 {
        c
    } else {
        crc_shift(crc_shift_n(c, (n - 1) as nat))
    }
}

/// Absorbing one input byte: XOR it into the low byte of the register,
/// then shift eight times.
pub open spec fn crc_byte(c: u16, b: u8) -> u16 {
    crc_shift_n(c ^ (b as u16), 8)
}

/// CRC register after absorbing the first `n` bytes of `data`.
pub open spec fn crc16_prefix(data: Seq<u8>, n: int) -> u16
    decreases n,
{
    if n <= 0 {
        0xFFFF
    } else {
        crc_byte(crc16_prefix(data, n - 1), data[n - 1])
    }
}

/// The 16-bit integrity check over a whole byte sequence.
pub open spec fn crc16_spec(data: Seq<u8>) -> u16 {
    crc16_prefix(data, data.len() as int)
}

/// High (first-on-wire) byte of a CRC value.
pub open spec fn crc_hi(c: u16) -> u8 {
    ((c >> 8) & 0xFF) as u8
}

/// Low (second-on-wire) byte of a CRC value.
pub open spec fn crc_lo(c: u16) -> u8 {
    (c & 0xFF) as u8
}

/// Big-endian reassembly of two trailer bytes into a 16-bit value.
pub open spec fn u16_from_be_pair(hi: u8, lo: u8) -> u16 {
    ((hi as u16) << 8) | (lo as u16)
}

fn crc_update(crc: u16, b: u8) -> (r: u16)
    ensures
        r == crc_byte(crc, b),
{
    let mut c: u16 = crc ^ (b as u16);
    let mut j: usize = 0;
    while j < 8
        invariant
            j <= 8,
            c == crc_shift_n((crc ^ (b as u16)) as u16, j as nat),
        decreases 8 - j,
    {
        let lsb: u16 = c & 1;
        c = c >> 1u16;
        if lsb == 1 {
            c = c ^ 0xA001;
        }
        j = j + 1;
    }
    c
}

/// Compute the CRC-16 over `data`.
pub fn crc16(data: &[u8]) -> (r: u16)
    ensures
        r == crc16_spec(data@),
{
    let mut crc: u16 = 0xFFFF;
    let mut i: usize = 0;
    while i < data.len()
        invariant
            i <= data@.len(),
            crc == crc16_prefix(data@, i as int),
        decreases data@.len() - i,
    {
        crc = crc_update(crc, data[i]);
        i = i + 1;
    }
    crc
}

/// Compute the CRC-16 over `data` and split it into its wire order:
/// high byte first, low byte second.
pub fn crc16_hi_lo(data: &[u8]) -> (r: (u8, u8))
    ensures
        r.0 == crc_hi(crc16_spec(data@)),
        r.1 == crc_lo(crc16_spec(data@)),
{
    let c = crc16(data);
    (((c >> 8u16) & 0xFF) as u8, (c & 0xFF) as u8)
}

// ---------------------------------------------------------------------------
// Closed code tables
// ---------------------------------------------------------------------------

/// Device-resident calibration coefficients, addressed by a small identifier
/// and read/written as 32-bit floats.
#[derive(Debug, Copy, Clone, PartialEq, Eq)]
pub enum Coefficients {
    /// 53 — Threshold value of the square root function (>0 if sqrt is used).
    ThresholdSquareRoot,
    /// 64 — Offset of pressure sensor P1, default 0.0 bar.
    PressureOffsetP1,
    /// 65 — Gain factor of pressure sensor P1, default 1.0.
    GainFactorP1,
    /// 66 — Offset of pressure sensor P2, default 0.0 bar.
    PressureOffsetP2,
    /// 67 — Gain factor of pressure sensor P2, default 1.0.
    GainFactorP2,
    /// 68 — Offset of the analogue output, bar.
    OffsetAnalogOutput,
    /// 69 — Gain factor of the analogue output.
    GainFactorAnalogOutput,
    /// 70 — Offset of CH0, default 0.0.
    OffsetCh0,
    /// 71 — Gain factor of CH0, default 1.0.
    GainFactorCh0,
    /// 72 — Offset of temperature sensor T; on some firmware lines this
    /// identifier is the upper threshold for switching output 1.
    TemperatureOffsetTorUpperThresSw1,
    /// 73 — Lower threshold for switching output 1.
    LowerThresSw1,
    /// 74 — Offset of temperature sensor TOB1, °C.
    TemperatureOffsetTOB1,
    /// 76 — Offset of temperature sensor TOB2, °C.
    TemperatureOffsetTOB2,
    /// 78 — Upper threshold for switching output 2.
    UpperThresSw2,
    /// 79 — Lower threshold for switching output 2.
    LowerThresSw2,
    /// 100…111 — Free coefficients for customer use.
    Free100,
    Free101,
    Free102,
    Free103,
    Free104,
    Free105,
    Free106,
    Free107,
    Free108,
    Free109,
    Free110,
    Free111,
    /// 121 — Gain Conductivity Range 1.
    GainCondRange1,
    /// 122 — Gain Conductivity Range 2.
    GainCondRange2,
    /// 123 — Gain Conductivity Range 3.
    GainCondRange3,
    /// 124 — Gain Conductivity Range 4.
    GainCondRange4,
    /// 126 — Conductivity Temperature Coefficient (default 0.022 → water).
    ConductivityTempCoeff,
    /// 127 — Conductivity Cell Constant (default 1.00).
    ConductivityCellConstant,
    /// 140…156 — Coefficients for CH0 straight-line curve fitting of P1.
    Ch0CurveP1_140,
    Ch0CurveP1_141,
    Ch0CurveP1_142,
    Ch0CurveP1_143,
    Ch0CurveP1_144,
    Ch0CurveP1_145,
    Ch0CurveP1_146,
    Ch0CurveP1_147,
    Ch0CurveP1_148,
    Ch0CurveP1_149,
    Ch0CurveP1_150,
    Ch0CurveP1_151,
    Ch0CurveP1_152,
    Ch0CurveP1_153,
    Ch0CurveP1_154,
    Ch0CurveP1_155,
    Ch0CurveP1_156,
}

impl Coefficients {
    /// Wire identifier of this coefficient.
    pub open spec fn spec_code(self) -> u8 {
        match self {
            Coefficients::ThresholdSquareRoot => 53,
            Coefficients::PressureOffsetP1 => 64,
            Coefficients::GainFactorP1 => 65,
            Coefficients::PressureOffsetP2 => 66,
            Coefficients::GainFactorP2 => 67,
            Coefficients::OffsetAnalogOutput => 68,
            Coefficients::GainFactorAnalogOutput => 69,
            Coefficients::OffsetCh0 => 70,
            Coefficients::GainFactorCh0 => 71,
            Coefficients::TemperatureOffsetTorUpperThresSw1 => 72,
            Coefficients::LowerThresSw1 => 73,
            Coefficients::TemperatureOffsetTOB1 => 74,
            Coefficients::TemperatureOffsetTOB2 => 76,
            Coefficients::UpperThresSw2 => 78,
            Coefficients::LowerThresSw2 => 79,
            Coefficients::Free100 => 100,
            Coefficients::Free101 => 101,
            Coefficients::Free102 => 102,
            Coefficients::Free103 => 103,
            Coefficients::Free104 => 104,
            Coefficients::Free105 => 105,
            Coefficients::Free106 => 106,
            Coefficients::Free107 => 107,
            Coefficients::Free108 => 108,
            Coefficients::Free109 => 109,
            Coefficients::Free110 => 110,
            Coefficients::Free111 => 111,
            Coefficients::GainCondRange1 => 121,
            Coefficients::GainCondRange2 => 122,
            Coefficients::GainCondRange3 => 123,
            Coefficients::GainCondRange4 => 124,
            Coefficients::ConductivityTempCoeff => 126,
            Coefficients::ConductivityCellConstant => 127,
            Coefficients::Ch0CurveP1_140 => 140,
            Coefficients::Ch0CurveP1_141 => 141,
            Coefficients::Ch0CurveP1_142 => 142,
            Coefficients::Ch0CurveP1_143 => 143,
            Coefficients::Ch0CurveP1_144 => 144,
            Coefficients::Ch0CurveP1_145 => 145,
            Coefficients::Ch0CurveP1_146 => 146,
            Coefficients::Ch0CurveP1_147 => 147,
            Coefficients::Ch0CurveP1_148 => 148,
            Coefficients::Ch0CurveP1_149 => 149,
            Coefficients::Ch0CurveP1_150 => 150,
            Coefficients::Ch0CurveP1_151 => 151,
            Coefficients::Ch0CurveP1_152 => 152,
            Coefficients::Ch0CurveP1_153 => 153,
            Coefficients::Ch0CurveP1_154 => 154,
            Coefficients::Ch0CurveP1_155 => 155,
            Coefficients::Ch0CurveP1_156 => 156,
        }
    }

    /// Wire identifier of this coefficient.
    pub fn code(self) -> (r: u8)
        ensures
            r == self.spec_code(),
    {
        match self {
            Coefficients::ThresholdSquareRoot => 53,
            Coefficients::PressureOffsetP1 => 64,
            Coefficients::GainFactorP1 => 65,
            Coefficients::PressureOffsetP2 => 66,
            Coefficients::GainFactorP2 => 67,
            Coefficients::OffsetAnalogOutput => 68,
            Coefficients::GainFactorAnalogOutput => 69,
            Coefficients::OffsetCh0 => 70,
            Coefficients::GainFactorCh0 => 71,
            Coefficients::TemperatureOffsetTorUpperThresSw1 => 72,
            Coefficients::LowerThresSw1 => 73,
            Coefficients::TemperatureOffsetTOB1 => 74,
            Coefficients::TemperatureOffsetTOB2 => 76,
            Coefficients::UpperThresSw2 => 78,
            Coefficients::LowerThresSw2 => 79,
            Coefficients::Free100 => 100,
            Coefficients::Free101 => 101,
            Coefficients::Free102 => 102,
            Coefficients::Free103 => 103,
            Coefficients::Free104 => 104,
            Coefficients::Free105 => 105,
            Coefficients::Free106 => 106,
            Coefficients::Free107 => 107,
            Coefficients::Free108 => 108,
            Coefficients::Free109 => 109,
            Coefficients::Free110 => 110,
            Coefficients::Free111 => 111,
            Coefficients::GainCondRange1 => 121,
            Coefficients::GainCondRange2 => 122,
            Coefficients::GainCondRange3 => 123,
            Coefficients::GainCondRange4 => 124,
            Coefficients::ConductivityTempCoeff => 126,
            Coefficients::ConductivityCellConstant => 127,
            Coefficients::Ch0CurveP1_140 => 140,
            Coefficients::Ch0CurveP1_141 => 141,
            Coefficients::Ch0CurveP1_142 => 142,
            Coefficients::Ch0CurveP1_143 => 143,
            Coefficients::Ch0CurveP1_144 => 144,
            Coefficients::Ch0CurveP1_145 => 145,
            Coefficients::Ch0CurveP1_146 => 146,
            Coefficients::Ch0CurveP1_147 => 147,
            Coefficients::Ch0CurveP1_148 => 148,
            Coefficients::Ch0CurveP1_149 => 149,
            Coefficients::Ch0CurveP1_150 => 150,
            Coefficients::Ch0CurveP1_151 => 151,
            Coefficients::Ch0CurveP1_152 => 152,
            Coefficients::Ch0CurveP1_153 => 153,
            Coefficients::Ch0CurveP1_154 => 154,
            Coefficients::Ch0CurveP1_155 => 155,
            Coefficients::Ch0CurveP1_156 => 156,
        }
    }

    /// Look a coefficient up by its wire identifier; identifiers outside
    /// the closed table are rejected.
    pub fn try_from_u8(v: u8) -> (r: Result<Coefficients, ()>)
        ensures
            r matches Ok(c) ==> c.spec_code() == v,
            r is Err ==> forall|c: Coefficients| c.spec_code() != v,
    {
        match v {
            53 => Ok(Coefficients::ThresholdSquareRoot),
            64 => Ok(Coefficients::PressureOffsetP1),
            65 => Ok(Coefficients::GainFactorP1),
            66 => Ok(Coefficients::PressureOffsetP2),
            67 => Ok(Coefficients::GainFactorP2),
            68 => Ok(Coefficients::OffsetAnalogOutput),
            69 => Ok(Coefficients::GainFactorAnalogOutput),
            70 => Ok(Coefficients::OffsetCh0),
            71 => Ok(Coefficients::GainFactorCh0),
            72 => Ok(Coefficients::TemperatureOffsetTorUpperThresSw1),
            73 => Ok(Coefficients::LowerThresSw1),
            74 => Ok(Coefficients::TemperatureOffsetTOB1),
            76 => Ok(Coefficients::TemperatureOffsetTOB2),
            78 => Ok(Coefficients::UpperThresSw2),
            79 => Ok(Coefficients::LowerThresSw2),
            100 => Ok(Coefficients::Free100),
            101 => Ok(Coefficients::Free101),
            102 => Ok(Coefficients::Free102),
            103 => Ok(Coefficients::Free103),
            104 => Ok(Coefficients::Free104),
            105 => Ok(Coefficients::Free105),
            106 => Ok(Coefficients::Free106),
            107 => Ok(Coefficients::Free107),
            108 => Ok(Coefficients::Free108),
            109 => Ok(Coefficients::Free109),
            110 => Ok(Coefficients::Free110),
            111 => Ok(Coefficients::Free111),
            121 => Ok(Coefficients::GainCondRange1),
            122 => Ok(Coefficients::GainCondRange2),
            123 => Ok(Coefficients::GainCondRange3),
            124 => Ok(Coefficients::GainCondRange4),
            126 => Ok(Coefficients::ConductivityTempCoeff),
            127 => Ok(Coefficients::ConductivityCellConstant),
            140 => Ok(Coefficients::Ch0CurveP1_140),
            141 => Ok(Coefficients::Ch0CurveP1_141),
            142 => Ok(Coefficients::Ch0CurveP1_142),
            143 => Ok(Coefficients::Ch0CurveP1_143),
            144 => Ok(Coefficients::Ch0CurveP1_144),
            145 => Ok(Coefficients::Ch0CurveP1_145),
            146 => Ok(Coefficients::Ch0CurveP1_146),
            147 => Ok(Coefficients::Ch0CurveP1_147),
            148 => Ok(Coefficients::Ch0CurveP1_148),
            149 => Ok(Coefficients::Ch0CurveP1_149),
            150 => Ok(Coefficients::Ch0CurveP1_150),
            151 => Ok(Coefficients::Ch0CurveP1_151),
            152 => Ok(Coefficients::Ch0CurveP1_152),
            153 => Ok(Coefficients::Ch0CurveP1_153),
            154 => Ok(Coefficients::Ch0CurveP1_154),
            155 => Ok(Coefficients::Ch0CurveP1_155),
            156 => Ok(Coefficients::Ch0CurveP1_156),
            _ => Err(()),
        }
    }
}

/// Operations of the protocol, selected by a small function code.
#[derive(Debug, Copy, Clone, PartialEq, Eq)]
pub enum FunctionCodes {
    /// 30
    ReadCoefficients,
    /// 31
    WriteCoefficients,
    /// 32
    ReadConfigurations,
    /// 33
    WriteConfiguration,
    /// 48
    InitializeAndRealese,
    /// 66
    WriteAndReadNewDeviceAddress,
    /// 67
    ReadSerialNumber,
    /// 73
    ReadChannelValueFloat,
    /// 74
    ReadChannelValueInteger,
    /// 95
    ZeroCommand,
}

impl FunctionCodes {
    /// Wire value of this function code.
    pub open spec fn spec_code(self) -> u8 {
        match self {
            FunctionCodes::ReadCoefficients => 30,
            FunctionCodes::WriteCoefficients => 31,
            FunctionCodes::ReadConfigurations => 32,
            FunctionCodes::WriteConfiguration => 33,
            FunctionCodes::InitializeAndRealese => 48,
            FunctionCodes::WriteAndReadNewDeviceAddress => 66,
            FunctionCodes::ReadSerialNumber => 67,
            FunctionCodes::ReadChannelValueFloat => 73,
            FunctionCodes::ReadChannelValueInteger => 74,
            FunctionCodes::ZeroCommand => 95,
        }
    }

    /// Wire value of this function code.
    pub fn code(self) -> (r: u8)
        ensures
            r == self.spec_code(),
    {
        match self {
            FunctionCodes::ReadCoefficients => 30,
            FunctionCodes::WriteCoefficients => 31,
            FunctionCodes::ReadConfigurations => 32,
            FunctionCodes::WriteConfiguration => 33,
            FunctionCodes::InitializeAndRealese => 48,
            FunctionCodes::WriteAndReadNewDeviceAddress => 66,
            FunctionCodes::ReadSerialNumber => 67,
            FunctionCodes::ReadChannelValueFloat => 73,
            FunctionCodes::ReadChannelValueInteger => 74,
            FunctionCodes::ZeroCommand => 95,
        }
    }

    /// Fixed whole-frame reply length for this function code. The protocol
    /// carries no length prefix: the expected reply length is a static
    /// property of the function code issued.
    pub open spec fn spec_response_len(self) -> usize {
        match self {
            FunctionCodes::ReadCoefficients => 8,
            FunctionCodes::WriteCoefficients => 5,
            FunctionCodes::ReadConfigurations => 8,
            FunctionCodes::WriteConfiguration => 5,
            FunctionCodes::InitializeAndRealese => 10,
            FunctionCodes::WriteAndReadNewDeviceAddress => 5,
            FunctionCodes::ReadSerialNumber => 8,
            FunctionCodes::ReadChannelValueFloat => 9,
            FunctionCodes::ReadChannelValueInteger => 9,
            FunctionCodes::ZeroCommand => 5,
        }
    }

    /// Fixed whole-frame reply length for this function code.
    pub fn response_len(&self) -> (r: usize)
        ensures
            r == self.spec_response_len(),
    {
        match self {
            FunctionCodes::ReadCoefficients => 8,
            FunctionCodes::WriteCoefficients => 5,
            FunctionCodes::ReadConfigurations => 8,
            FunctionCodes::WriteConfiguration => 5,
            FunctionCodes::InitializeAndRealese => 10,
            FunctionCodes::WriteAndReadNewDeviceAddress => 5,
            FunctionCodes::ReadSerialNumber => 8,
            FunctionCodes::ReadChannelValueFloat => 9,
            FunctionCodes::ReadChannelValueInteger => 9,
            FunctionCodes::ZeroCommand => 5,
        }
    }
}

/// Zero/tare commands, one set/reset pair per measurand.
#[derive(Debug, Copy, Clone, PartialEq, Eq)]
pub enum ZeroCommands {
    /// 0
    SetZeroP1,
    /// 1
    ResetZeroP1,
    /// 2
    SetZeroP2,
    /// 3
    ResetZeroP2,
    /// 6
    SetZeroCH0,
    /// 7
    ResetZeroCH0,
    /// 8
    SetZeroT,
    /// 9
    ResetZeroT,
    /// 10
    SetZeroTOB1,
    /// 11
    ResetZeroTOB1,
    /// 12
    SetZeroTOB2,
    /// 13
    ResetZeroTOB2,
}

impl ZeroCommands {
    /// Wire value of this zero command.
    pub open spec fn spec_code(self) -> u8 {
        match self {
            ZeroCommands::SetZeroP1 => 0,
            ZeroCommands::ResetZeroP1 => 1,
            ZeroCommands::SetZeroP2 => 2,
            ZeroCommands::ResetZeroP2 => 3,
            ZeroCommands::SetZeroCH0 => 6,
            ZeroCommands::ResetZeroCH0 => 7,
            ZeroCommands::SetZeroT => 8,
            ZeroCommands::ResetZeroT => 9,
            ZeroCommands::SetZeroTOB1 => 10,
            ZeroCommands::ResetZeroTOB1 => 11,
            ZeroCommands::SetZeroTOB2 => 12,
            ZeroCommands::ResetZeroTOB2 => 13,
        }
    }

    /// Wire value of this zero command.
    pub fn code(self) -> (r: u8)
        ensures
            r == self.spec_code(),
    {
        match self {
            ZeroCommands::SetZeroP1 => 0,
            ZeroCommands::ResetZeroP1 => 1,
            ZeroCommands::SetZeroP2 => 2,
            ZeroCommands::ResetZeroP2 => 3,
            ZeroCommands::SetZeroCH0 => 6,
            ZeroCommands::ResetZeroCH0 => 7,
            ZeroCommands::SetZeroT => 8,
            ZeroCommands::ResetZeroT => 9,
            ZeroCommands::SetZeroTOB1 => 10,
            ZeroCommands::ResetZeroTOB1 => 11,
            ZeroCommands::SetZeroTOB2 => 12,
            ZeroCommands::ResetZeroTOB2 => 13,
        }
    }
}

/// Measurement channels a float read can target.
#[derive(Debug, Copy, Clone, PartialEq, Eq)]
pub enum Channels {
    /// 0
    CH0,
    /// 1
    P1,
    /// 2
    P2,
    /// 3
    T,
    /// 4
    TOB1,
    /// 5
    TOB2,
    /// 10
    ConTc,
    /// 11
    ConRaw,
}

impl Channels {
    /// Wire value of this channel.
    pub open spec fn spec_code(self) -> u8 {
        match self {
            Channels::CH0 => 0,
            Channels::P1 => 1,
            Channels::P2 => 2,
            Channels::T => 3,
            Channels::TOB1 => 4,
            Channels::TOB2 => 5,
            Channels::ConTc => 10,
            Channels::ConRaw => 11,
        }
    }

    /// Wire value of this channel.
    pub fn code(self) -> (r: u8)
        ensures
            r == self.spec_code(),
    {
        match self {
            Channels::CH0 => 0,
            Channels::P1 => 1,
            Channels::P2 => 2,
            Channels::T => 3,
            Channels::TOB1 => 4,
            Channels::TOB2 => 5,
            Channels::ConTc => 10,
            Channels::ConRaw => 11,
        }
    }
}

/// Device-resident single-byte configuration variables.
#[derive(Debug, Copy, Clone, PartialEq, Eq)]
pub enum ConfigurationCommands {
    /// 0
    CfgPressure,
    /// 1
    CfgTemperature,
    /// 2
    Ch0Config,
    /// 3
    TempIntervalSeconds,
    /// 4
    TempComp,
    /// 7
    Filter,
    /// 9
    DAC,
    /// 10
    Uart,
    /// 11
    FilterFactory,
    /// 12
    Status,
    /// 13
    DeviceAddress,
    /// 14
    Pmode,
    /// 15
    SPS,
    /// 20
    SDI12,
    /// 25
    ModbusInterframeTime9k6,
    /// 26
    ModbusInterframeTime115k2,
    /// 28
    ConOn,
    /// 31
    ConRange,
    /// 32
    ConTempCompMode,
    /// 33
    SDI12Available,
}

impl ConfigurationCommands {
    /// Wire identifier of this configuration variable.
    pub open spec fn spec_code(self) -> u8 {
        match self {
            ConfigurationCommands::CfgPressure => 0,
            ConfigurationCommands::CfgTemperature => 1,
            ConfigurationCommands::Ch0Config => 2,
            ConfigurationCommands::TempIntervalSeconds => 3,
            ConfigurationCommands::TempComp => 4,
            ConfigurationCommands::Filter => 7,
            ConfigurationCommands::DAC => 9,
            ConfigurationCommands::Uart => 10,
            ConfigurationCommands::FilterFactory => 11,
            ConfigurationCommands::Status => 12,
            ConfigurationCommands::DeviceAddress => 13,
            ConfigurationCommands::Pmode => 14,
            ConfigurationCommands::SPS => 15,
            ConfigurationCommands::SDI12 => 20,
            ConfigurationCommands::ModbusInterframeTime9k6 => 25,
            ConfigurationCommands::ModbusInterframeTime115k2 => 26,
            ConfigurationCommands::ConOn => 28,
            ConfigurationCommands::ConRange => 31,
            ConfigurationCommands::ConTempCompMode => 32,
            ConfigurationCommands::SDI12Available => 33,
        }
    }

    /// Wire identifier of this configuration variable.
    pub fn code(self) -> (r: u8)
        ensures
            r == self.spec_code(),
    {
        match self {
            ConfigurationCommands::CfgPressure => 0,
            ConfigurationCommands::CfgTemperature => 1,
            ConfigurationCommands::Ch0Config => 2,
            ConfigurationCommands::TempIntervalSeconds => 3,
            ConfigurationCommands::TempComp => 4,
            ConfigurationCommands::Filter => 7,
            ConfigurationCommands::DAC => 9,
            ConfigurationCommands::Uart => 10,
            ConfigurationCommands::FilterFactory => 11,
            ConfigurationCommands::Status => 12,
            ConfigurationCommands::DeviceAddress => 13,
            ConfigurationCommands::Pmode => 14,
            ConfigurationCommands::SPS => 15,
            ConfigurationCommands::SDI12 => 20,
            ConfigurationCommands::ModbusInterframeTime9k6 => 25,
            ConfigurationCommands::ModbusInterframeTime115k2 => 26,
            ConfigurationCommands::ConOn => 28,
            ConfigurationCommands::ConRange => 31,
            ConfigurationCommands::ConTempCompMode => 32,
            ConfigurationCommands::SDI12Available => 33,
        }
    }
}

// ---------------------------------------------------------------------------
// Device-reported errors
// ---------------------------------------------------------------------------

/// Error codes a device reports in an error reply (function code > 127);
/// codes outside the documented set are carried through as `Other`.
#[derive(Debug, Copy, Clone, PartialEq, Eq)]
pub enum KellerErrors {
    /// 1
    NonImplementedFunction,
    /// 2
    InvalidAddress,
    /// 3
    IncorrectMessageLength,
    /// 4
    ErrorSavingValue,
    /// 32
    DeviceNotInitialized,
    /// Any other device-specific code.
    Other(u8),
}

/// Classification of a raw device error byte.
pub open spec fn spec_keller_error(data: u8) -> KellerErrors {
    match data {
        1u8 => KellerErrors::NonImplementedFunction,
        2u8 => KellerErrors::InvalidAddress,
        3u8 => KellerErrors::IncorrectMessageLength,
        4u8 => KellerErrors::ErrorSavingValue,
        32u8 => KellerErrors::DeviceNotInitialized,
        _ => KellerErrors::Other(data),
    }
}

impl KellerErrors {
    /// Classify a raw device error byte.
    pub fn from_u8(data: u8) -> (r: KellerErrors)
        ensures
            r == spec_keller_error(data),
    {
        match data {
            1 => KellerErrors::NonImplementedFunction,
            2 => KellerErrors::InvalidAddress,
            3 => KellerErrors::IncorrectMessageLength,
            4 => KellerErrors::ErrorSavingValue,
            32 => KellerErrors::DeviceNotInitialized,
            _ => KellerErrors::Other(data),
        }
    }
}

/// Cap on a whole frame's wire length, in bytes.
pub const MAX_FRAME_LEN: usize = 250;

// ---------------------------------------------------------------------------
// Transport capability and the unified error taxonomy
// ---------------------------------------------------------------------------

/// Byte-transport capability the transaction engine consumes: a timed full
/// write, a timed exact-length read, and a best-effort receive-buffer clear.
/// Implementations live outside the library (serial ports, test doubles);
/// the engine relies only on the stated contract.
///
/// Two ghost histories abstract what passed over the wire: `spec_written`,
/// the buffers the transport accepted in full, and `spec_read`, the buffers
/// it delivered in full, each oldest first. Every contract of the engine
/// that says what a call sent or received says it over these histories.
pub trait XLineIO {
    type Error;

    /// Buffers this transport has accepted in full, oldest first.
    spec fn spec_written(&self) -> Seq<Seq<u8>>;

    /// Buffers this transport has delivered in full, oldest first.
    spec fn spec_read(&self) -> Seq<Seq<u8>>;

    /// Write all of `buf` within `timeout_ms` milliseconds, or fail; a
    /// failed write accepts nothing.
    fn write_all(&mut self, buf: &[u8], timeout_ms: u64) -> (r: Result<(), Self::Error>)
        ensures
            r is Ok ==> final(self).spec_written() == old(self).spec_written().push(buf@),
            r is Err ==> final(self).spec_written() == old(self).spec_written(),
            final(self).spec_read() == old(self).spec_read(),
    ;

    /// Read exactly `len` bytes within `timeout_ms` milliseconds, or fail;
    /// no partial read is ever delivered.
    fn read_exact(&mut self, len: usize, timeout_ms: u64) -> (r: Result<Vec<u8>, Self::Error>)
        ensures
            r matches Ok(bytes) ==> bytes@.len() == len && final(self).spec_read() == old(
                self,
            ).spec_read().push(bytes@),
            r is Err ==> final(self).spec_read() == old(self).spec_read(),
            final(self).spec_written() == old(self).spec_written(),
    ;

    /// Best-effort discard of any bytes already buffered for reading;
    /// discarded bytes are never part of either history.
    fn clear_rx(&mut self) -> (r: Result<(), Self::Error>)
        ensures
            final(self).spec_written() == old(self).spec_written(),
            final(self).spec_read() == old(self).spec_read(),
    {
        Ok(())
    }
}

/// Everything a transaction can fail with: transport failures wrapped
/// transparently, a timeout category, frame-level errors, and the two
/// protocol-consistency violations.
#[derive(Debug)]
pub enum ProtocolError<TE> {
    /// A failure originating in the byte-transport layer.
    Transport(TE),
    /// A transport operation exceeded the session timeout.
    Timeout,
    /// Reserved for a half-duplex line-echo verification step; the engine
    /// never produces it, but downstream consumers may match on it.
    EchoMismatch,
    /// The response bytes failed structural, CRC, or device-error validation.
    FrameError(XLineFrameError),
    /// A unicast exchange got a valid reply from a different device address.
    WrongAddress,
    /// The response echoed a different function code than requested.
    NonMatchingFunctionCode,
}

/// The single conversion rule for transport failures: every transport error
/// becomes `Transport`, at every point such a result is propagated.
impl<E> From<E> for ProtocolError<E> {
    fn from(error: E) -> (r: ProtocolError<E>) {
        ProtocolError::Transport(error)
    }
}

impl<E> vstd::std_specs::convert::FromSpecImpl<E> for ProtocolError<E> {
    open spec fn obeys_from_spec() -> bool {
        true
    }

    open spec fn from_spec(error: E) -> Self {
        ProtocolError::Transport(error)
    }
}

// ---------------------------------------------------------------------------
// Frame codec
// ---------------------------------------------------------------------------

/// Errors that can occur while parsing a response frame from raw bytes.
#[derive(Debug, Copy, Clone, PartialEq, Eq)]
pub enum XLineFrameError {
    /// Buffer is shorter than the 5-byte minimum
    /// (address, function, at least one payload byte, CRC high, CRC low).
    TooShort,
    /// Function code above 127: the device reported an error.
    DeviceError(KellerErrors),
    /// CRC trailer does not match the CRC recomputed over the frame body.
    BadCrc { expected: u16, got: u16 },
}

/// An outbound request frame, built per call and never persisted.
pub struct XLineFrame {
    pub address: u8,
    pub function_code: FunctionCodes,
    pub data: Vec<u8>,
}

/// Mathematical model of a validated response frame.
#[verifier::ext_equal]
pub struct SpecResponseFrame {
    pub address: u8,
    pub function_code: u8,
    pub payload: Seq<u8>,
    pub crc: u16,
}

/// A validated inbound response frame.
#[derive(Debug, Clone, PartialEq, Eq)]
pub struct XLineResponseFrame {
    pub address: u8,
    pub function_code: u8,
    pub payload: Vec<u8>,
    pub crc: u16,
}

impl View for XLineResponseFrame {
    type V = SpecResponseFrame;

    open spec fn view(&self) -> SpecResponseFrame {
        SpecResponseFrame {
            address: self.address,
            function_code: self.function_code,
            payload: self.payload@,
            crc: self.crc,
        }
    }
}

/// The body of a request frame: address, function code, then the payload.
pub open spec fn spec_request_body(address: u8, function_code: u8, data: Seq<u8>) -> Seq<u8> {
    seq![address, function_code] + data
}

/// The full wire form of a request frame: the body followed by the CRC
/// computed over the body, high byte first.
pub open spec fn spec_encode(address: u8, function_code: u8, data: Seq<u8>) -> Seq<u8> {
    let body = spec_request_body(address, function_code, data);
    body.push(crc_hi(crc16_spec(body))).push(crc_lo(crc16_spec(body)))
}

/// What decoding a raw buffer yields: the device-error check by fixed byte
/// position comes before any CRC validation, because error replies use a
/// minimal fixed layout distinct from normal payload framing.
pub open spec fn spec_decode(buf: Seq<u8>) -> Result<SpecResponseFrame, XLineFrameError> {
    if buf.len() < 5 {
        Err(XLineFrameError::TooShort)
    } else if buf[1] > 127 {
        Err(XLineFrameError::DeviceError(spec_keller_error(buf[2])))
    } else {
        let data_len = buf.len() - 2;
        let got = u16_from_be_pair(buf[data_len], buf[data_len + 1]);
        let expected = crc16_spec(buf.take(data_len));
        if got != expected {
            Err(XLineFrameError::BadCrc { expected, got })
        } else {
            Ok(
                SpecResponseFrame {
                    address: buf[0],
                    function_code: buf[1],
                    payload: buf.subrange(2, data_len),
                    crc: got,
                },
            )
        }
    }
}

/// Reassemble two wire bytes, high byte first, into a 16-bit value.
pub fn u16_from_be(hi: u8, lo: u8) -> (r: u16)
    ensures
        r == u16_from_be_pair(hi, lo),
{
    ((hi as u16) << 8u16) | (lo as u16)
}

/// Build the wire bytes of a request frame: address, function code, payload,
/// then the two CRC bytes computed over everything preceding them.
pub fn encode_frame(address: u8, function_code: u8, data: &[u8]) -> (r: Vec<u8>)
    requires
        data@.len() + 4 <= MAX_FRAME_LEN,
    ensures
        r@ == spec_encode(address, function_code, data@),
{
    let mut out: Vec<u8> = Vec::new();
    out.push(address);
    out.push(function_code);
    let mut i: usize = 0;
    while i < data.len()
        invariant
            i <= data@.len(),
            out@ == spec_request_body(address, function_code, data@.take(i as int)),
        decreases data@.len() - i,
    {
        out.push(data[i]);
        i = i + 1;
        proof {
            assert_seqs_equal!(
                out@,
                spec_request_body(address, function_code, data@.take(i as int))
            );
        }
    }
    proof {
        assert_seqs_equal!(data@.take(data@.len() as int), data@);
    }
    let (hi, lo) = crc16_hi_lo(out.as_slice());
    out.push(hi);
    out.push(lo);
    out
}

impl XLineResponseFrame {
    /// Parse and validate a raw buffer: length floor, device-error marker,
    /// then the CRC trailer against the CRC recomputed over the body.
    pub fn from_buffer(buf: &[u8]) -> (r: Result<Self, XLineFrameError>)
        ensures
            match r {
                Ok(f) => spec_decode(buf@) == Ok::<SpecResponseFrame, XLineFrameError>(f@),
                Err(e) => spec_decode(buf@) == Err::<SpecResponseFrame, XLineFrameError>(e),
            },
            buf@.len() < 5 ==> r == Err::<Self, XLineFrameError>(XLineFrameError::TooShort),
    {
        if buf.len() < 5 {
            return Err(XLineFrameError::TooShort);
        }
        let addr = buf[0];
        let func = buf[1];

        if func > 127 {
            return Err(XLineFrameError::DeviceError(KellerErrors::from_u8(buf[2])));
        }
        let data_len = buf.len() - 2;
        let (body, trailer) = buf.split_at(data_len);
        let got_crc = u16_from_be(trailer[0], trailer[1]);
        let expected_crc = crc16(body);

        if got_crc != expected_crc {
            return Err(XLineFrameError::BadCrc { expected: expected_crc, got: got_crc });
        }
        let (_, payload_bytes) = body.split_at(2);
        let payload: Vec<u8> = vstd::slice::slice_to_vec(payload_bytes);
        proof {
            assert_seqs_equal!(body@, buf@.take(data_len as int));
            assert_seqs_equal!(payload@, buf@.subrange(2, data_len as int));
        }
        Ok(Self { address: addr, function_code: func, payload, crc: got_crc })
    }

    /// Total number of bytes this frame occupied on the wire.
    pub fn wire_len(&self) -> (r: usize)
        requires
            self.payload@.len() + 4 <= usize::MAX,
        ensures
            r == self@.payload.len() + 4,
    {
        2 + self.payload.len() + 2
    }

    /// The first payload byte, for byte-valued replies.
    pub fn data_as_u8(&self) -> (r: u8)
        requires
            self.payload@.len() >= 1,
        ensures
            r == self@.payload[0],
    {
        self.payload[0]
    }

    /// The first four payload bytes reassembled big-endian: the raw bit
    /// pattern of an IEEE-754 single-precision float reply.
    pub fn data_as_f32_bits(&self) -> (r: u32)
        requires
            self.payload@.len() >= 4,
        ensures
            r == spec_u32_from_be(self@.payload),
    {
        ((self.payload[0] as u32) << 24u32) | ((self.payload[1] as u32) << 16u32) | ((
        self.payload[2] as u32) << 8u32) | (self.payload[3] as u32)
    }
}

/// Big-endian reassembly of the first four bytes of a sequence.
pub open spec fn spec_u32_from_be(s: Seq<u8>) -> u32 {
    ((s[0] as u32) << 24) | ((s[1] as u32) << 16) | ((s[2] as u32) << 8) | (s[3] as u32)
}

/// Big-endian byte decomposition of a 32-bit value.
pub open spec fn spec_u32_to_be(v: u32) -> Seq<u8> {
    seq![
        ((v >> 24) & 0xFF) as u8,
        ((v >> 16) & 0xFF) as u8,
        ((v >> 8) & 0xFF) as u8,
        (v & 0xFF) as u8,
    ]
}

/// Reassemble exactly four big-endian bytes into a 32-bit value; any other
/// length is rejected.
pub fn u32_from_be_bytes(buf: &[u8]) -> (r: Option<u32>)
    ensures
        buf@.len() == 4 ==> r == Some(spec_u32_from_be(buf@)),
        buf@.len() != 4 ==> r is None,
{
    if buf.len() != 4 {
        return None;
    }
    Some(
        ((buf[0] as u32) << 24u32) | ((buf[1] as u32) << 16u32) | ((buf[2] as u32) << 8u32) | (
        buf[3] as u32),
    )
}

/// Split a 32-bit value into its four big-endian bytes.
pub fn u32_to_be_bytes(value: u32) -> (r: Vec<u8>)
    ensures
        r@ == spec_u32_to_be(value),
        r@.len() == 4,
{
    let mut out: Vec<u8> = Vec::new();
    out.push(((value >> 24u32) & 0xFF) as u8);
    out.push(((value >> 16u32) & 0xFF) as u8);
    out.push(((value >> 8u32) & 0xFF) as u8);
    out.push((value & 0xFF) as u8);
    proof {
        assert_seqs_equal!(out@, spec_u32_to_be(value));
    }
    out
}

// ---------------------------------------------------------------------------
// Laws of the codec
// ---------------------------------------------------------------------------

/// Splitting a 16-bit value into its two wire bytes and reassembling them
/// big-endian gives the value back.
proof fn lemma_be_pair_split(c: u16)
    ensures
        u16_from_be_pair(crc_hi(c), crc_lo(c)) == c,
{
    assert(u16_from_be_pair(crc_hi(c), crc_lo(c)) == c) by (bit_vector);
}

/// Big-endian reassembly determines both wire bytes.
proof fn lemma_be_pair_components(h: u8, l: u8)
    ensures
        crc_hi(u16_from_be_pair(h, l)) == h,
        crc_lo(u16_from_be_pair(h, l)) == l,
{
    assert(crc_hi(u16_from_be_pair(h, l)) == h && crc_lo(u16_from_be_pair(h, l)) == l)
        by (bit_vector);
}

/// Two distinct byte pairs reassemble to distinct 16-bit values.
proof fn lemma_be_pair_injective(h1: u8, l1: u8, h2: u8, l2: u8)
    requires
        h1 != h2 || l1 != l2,
    ensures
        u16_from_be_pair(h1, l1) != u16_from_be_pair(h2, l2),
{
    assert(u16_from_be_pair(h1, l1) != u16_from_be_pair(h2, l2)) by (bit_vector)
        requires
            h1 != h2 || l1 != l2,
    ;
}

/// One CRC shift step is injective on the register.
proof fn lemma_crc_shift_injective(a: u16, b: u16)
    requires
        a != b,
    ensures
        crc_shift(a) != crc_shift(b),
{
    assert(crc_shift(a) != crc_shift(b)) by (bit_vector)
        requires
            a != b,
    ;
}

/// Any number of CRC shift steps is injective on the register.
proof fn lemma_crc_shift_n_injective(a: u16, b: u16, n: nat)
    requires
        a != b,
    ensures
        crc_shift_n(a, n) != crc_shift_n(b, n),
    decreases n,
{
    if n > 0 {
        lemma_crc_shift_n_injective(a, b, (n - 1) as nat);
        lemma_crc_shift_injective(crc_shift_n(a, (n - 1) as nat), crc_shift_n(b, (n - 1) as nat));
    }
}

/// Absorbing the same byte from distinct register states keeps them distinct.
proof fn lemma_crc_byte_state_injective(c1: u16, c2: u16, x: u8)
    requires
        c1 != c2,
    ensures
        crc_byte(c1, x) != crc_byte(c2, x),
{
    assert(c1 ^ (x as u16) != c2 ^ (x as u16)) by (bit_vector)
        requires
            c1 != c2,
    ;
    lemma_crc_shift_n_injective(c1 ^ (x as u16), c2 ^ (x as u16), 8);
}

/// Absorbing distinct bytes from the same register state separates it.
proof fn lemma_crc_byte_byte_injective(c: u16, x: u8, y: u8)
    requires
        x != y,
    ensures
        crc_byte(c, x) != crc_byte(c, y),
{
    assert(c ^ (x as u16) != c ^ (y as u16)) by (bit_vector)
        requires
            x != y,
    ;
    lemma_crc_shift_n_injective(c ^ (x as u16), c ^ (y as u16), 8);
}

/// The CRC over the first `n` bytes reads only those bytes.
proof fn lemma_crc_prefix_congruent(d1: Seq<u8>, d2: Seq<u8>, n: int)
    requires
        forall|k: int| 0 <= k < n ==> d1[k] == d2[k],
    ensures
        crc16_prefix(d1, n) == crc16_prefix(d2, n),
    decreases n,
{
    if n > 0 {
        lemma_crc_prefix_congruent(d1, d2, n - 1);
    }
}

/// Two inputs that differ in exactly one byte of their first `n` bytes
/// leave the CRC register in distinct states.
proof fn lemma_crc_prefix_single_diff(d1: Seq<u8>, d2: Seq<u8>, i: int, n: int)
    requires
        0 <= i < n,
        d1[i] != d2[i],
        forall|k: int| 0 <= k < n && k != i ==> d1[k] == d2[k],
    ensures
        crc16_prefix(d1, n) != crc16_prefix(d2, n),
    decreases n,
{
    if n == i + 1 {
        lemma_crc_prefix_congruent(d1, d2, i);
        lemma_crc_byte_byte_injective(crc16_prefix(d1, i), d1[i], d2[i]);
    } else {
        lemma_crc_prefix_single_diff(d1, d2, i, n - 1);
        lemma_crc_byte_state_injective(
            crc16_prefix(d1, n - 1),
            crc16_prefix(d2, n - 1),
            d1[n - 1],
        );
    }
}

/// CRC round trip: append the CRC computed over `d` in wire order (high byte
/// first), and re-reading the trailer big-endian matches the CRC recomputed
/// over the same prefix.
pub proof fn lemma_crc_round_trip(d: Seq<u8>)
    ensures
        ({
            let framed = d.push(crc_hi(crc16_spec(d))).push(crc_lo(crc16_spec(d)));
            u16_from_be_pair(framed[d.len() as int], framed[d.len() as int + 1]) == crc16_spec(
                framed.take(d.len() as int),
            )
        }),
{
    let framed = d.push(crc_hi(crc16_spec(d))).push(crc_lo(crc16_spec(d)));
    assert_seqs_equal!(framed.take(d.len() as int), d);
    lemma_be_pair_split(crc16_spec(d));
}

/// A response frame whose stored CRC is consistent with its own bytes and
/// whose function code is a normal (non-error) one.
pub open spec fn frame_checks_out(f: SpecResponseFrame) -> bool {
    &&& f.function_code <= 127
    &&& f.crc == crc16_spec(spec_request_body(f.address, f.function_code, f.payload))
}

/// A buffer that decodes successfully is exactly the wire encoding of the
/// decoded frame's own fields: the codec accepts nothing else.
pub proof fn lemma_decode_ok(buf: Seq<u8>)
    requires
        spec_decode(buf) is Ok,
    ensures
        ({
            let f = spec_decode(buf)->Ok_0;
            &&& frame_checks_out(f)
            &&& f.payload.len() + 4 == buf.len()
            &&& buf == spec_encode(f.address, f.function_code, f.payload)
        }),
{
    let n = buf.len() as int;
    let m = n - 2;
    let f = spec_decode(buf)->Ok_0;
    assert_seqs_equal!(spec_request_body(f.address, f.function_code, f.payload), buf.take(m));
    lemma_be_pair_components(buf[m], buf[m + 1]);
    assert_seqs_equal!(spec_encode(f.address, f.function_code, f.payload), buf);
}

/// Frame round trip: decoding an encoded frame with a non-error function
/// code and a non-empty payload recovers the address, the function code,
/// and the payload exactly.
pub proof fn lemma_frame_round_trip(address: u8, function_code: u8, payload: Seq<u8>)
    requires
        function_code <= 127,
        1 <= payload.len(),
    ensures
        ({
            let c = crc16_spec(spec_request_body(address, function_code, payload));
            spec_decode(spec_encode(address, function_code, payload)) == Ok::<
                SpecResponseFrame,
                XLineFrameError,
            >(SpecResponseFrame { address, function_code, payload, crc: c })
        }),
{
    let body = spec_request_body(address, function_code, payload);
    let c = crc16_spec(body);
    let buf = spec_encode(address, function_code, payload);
    let n = buf.len() as int;
    let m = n - 2;
    assert(buf[0] == address);
    assert(buf[1] == function_code);
    assert(buf[m] == crc_hi(c));
    assert(buf[m + 1] == crc_lo(c));
    assert_seqs_equal!(buf.take(m), body);
    lemma_be_pair_split(c);
    assert_seqs_equal!(buf.subrange(2, m), payload);
    assert(spec_decode(buf)->Ok_0 =~= SpecResponseFrame { address, function_code, payload, crc: c });
}

/// Corruption detection: flipping any single byte of a frame that decodes
/// successfully (without recomputing its CRC) makes decoding fail with
/// `BadCrc` — provided the flip does not turn the function-code byte into a
/// device-error marker (> 127), which decodes to `DeviceError` instead.
pub proof fn lemma_single_flip_bad_crc(buf: Seq<u8>, corrupt: Seq<u8>, i: int)
    requires
        spec_decode(buf) is Ok,
        corrupt.len() == buf.len(),
        0 <= i < buf.len(),
        corrupt[i] != buf[i],
        forall|k: int| 0 <= k < buf.len() && k != i ==> corrupt[k] == buf[k],
        corrupt[1] <= 127,
    ensures
        spec_decode(corrupt) is Err,
        spec_decode(corrupt)->Err_0 is BadCrc,
{
    let n = buf.len() as int;
    let m = n - 2;
    let got = u16_from_be_pair(buf[m], buf[m + 1]);
    let got_c = u16_from_be_pair(corrupt[m], corrupt[m + 1]);
    if i < m {
        assert(got_c == got);
        lemma_crc_prefix_single_diff(buf.take(m), corrupt.take(m), i, m);
        assert(crc16_spec(buf.take(m)) == crc16_prefix(buf.take(m), m));
        assert(crc16_spec(corrupt.take(m)) == crc16_prefix(corrupt.take(m), m));
    } else {
        assert_seqs_equal!(buf.take(m), corrupt.take(m));
        lemma_be_pair_injective(buf[m], buf[m + 1], corrupt[m], corrupt[m + 1]);
    }
}

} // verus!
