//! The register file: every register of the chip with its addresses and named bit
//! ranges, and typed reads, writes and field updates on top of the transport.
use vstd::prelude::*;

use crate::bits::{extract, get_bits, insert, set_bits, valid_range};
use crate::interface::{
    aborted_within, byte_ops, reset_ops, write_ops, zeros, BusOp, InterfaceError, ShiftBus,
    ShiftInterface, REGISTER_SPACE,
};

verus! {

/// Number of operators; the operator registers repeat once for each.
pub const OPERATOR_COUNT: usize = 22;

/// Number of channels; the channel registers repeat once for each.
pub const CHANNEL_COUNT: usize = 9;

/// The chip's registers. A register either stands at one address or repeats at
/// consecutive addresses, one for each operator or each channel.
#[derive(Debug, Clone, Copy, PartialEq, Eq, Structural)]
pub enum Register {
    /// Waveform select enable and test bits.
    WaveformSelectEnable,
    /// Preset of timer 1.
    Timer1Count,
    /// Preset of timer 2.
    Timer2Count,
    /// Timer and IRQ control.
    TimerControl,
    /// Composite sine wave mode and keyboard split.
    NoteSelect,
    /// Tremolo, vibrato, sustain, key scaling rate and frequency multiple, one per operator.
    OperatorSettings0,
    /// Key scaling level and output level, one per operator.
    OperatorSettings1,
    /// Attack and decay rates, one per operator.
    OperatorSettings2,
    /// Sustain level and release rate, one per operator.
    OperatorSettings3,
    /// Low byte of the frequency number, one per channel.
    ChannelSettings0,
    /// Key-on, octave and high frequency bits, one per channel.
    ChannelSettings1,
    /// Modulation depths, rhythm mode and the five percussion voices.
    RhythmSettings,
    /// Feedback and synthesis type, one per channel.
    ChannelSettings2,
    /// Waveform, one per operator.
    OperatorSettings4,
}

impl Register {
    /// The register's first address.
    pub open spec fn spec_base(self) -> u8 {
        match self {
            Register::WaveformSelectEnable => 0x01,
            Register::Timer1Count => 0x02,
            Register::Timer2Count => 0x03,
            Register::TimerControl => 0x04,
            Register::NoteSelect => 0x08,
            Register::OperatorSettings0 => 0x20,
            Register::OperatorSettings1 => 0x40,
            Register::OperatorSettings2 => 0x60,
            Register::OperatorSettings3 => 0x80,
            Register::ChannelSettings0 => 0xA0,
            Register::ChannelSettings1 => 0xB0,
            Register::RhythmSettings => 0xBD,
            Register::ChannelSettings2 => 0xC0,
            Register::OperatorSettings4 => 0xE0,
        }
    }

    /// How many addresses the register repeats at.
    pub open spec fn spec_len(self) -> nat {
        match self {
            Register::WaveformSelectEnable => 1,
            Register::Timer1Count => 1,
            Register::Timer2Count => 1,
            Register::TimerControl => 1,
            Register::NoteSelect => 1,
            Register::OperatorSettings0 => OPERATOR_COUNT as nat,
            Register::OperatorSettings1 => OPERATOR_COUNT as nat,
            Register::OperatorSettings2 => OPERATOR_COUNT as nat,
            Register::OperatorSettings3 => OPERATOR_COUNT as nat,
            Register::ChannelSettings0 => CHANNEL_COUNT as nat,
            Register::ChannelSettings1 => CHANNEL_COUNT as nat,
            Register::RhythmSettings => 1,
            Register::ChannelSettings2 => CHANNEL_COUNT as nat,
            Register::OperatorSettings4 => OPERATOR_COUNT as nat,
        }
    }

    /// The address of entry `index` of the register.
    pub open spec fn spec_address(self, index: int) -> int {
        self.spec_base() + index
    }

    /// The register's first address.
    pub fn base(&self) -> (r: u8)
        ensures
            r == self.spec_base(),
    {
        match self {
            Register::WaveformSelectEnable => 0x01,
            Register::Timer1Count => 0x02,
            Register::Timer2Count => 0x03,
            Register::TimerControl => 0x04,
            Register::NoteSelect => 0x08,
            Register::OperatorSettings0 => 0x20,
            Register::OperatorSettings1 => 0x40,
            Register::OperatorSettings2 => 0x60,
            Register::OperatorSettings3 => 0x80,
            Register::ChannelSettings0 => 0xA0,
            Register::ChannelSettings1 => 0xB0,
            Register::RhythmSettings => 0xBD,
            Register::ChannelSettings2 => 0xC0,
            Register::OperatorSettings4 => 0xE0,
        }
    }

    /// How many addresses the register repeats at.
    pub fn len(&self) -> (r: usize)
        ensures
            r == self.spec_len(),
    {
        match self {
            Register::WaveformSelectEnable => 1,
            Register::Timer1Count => 1,
            Register::Timer2Count => 1,
            Register::TimerControl => 1,
            Register::NoteSelect => 1,
            Register::OperatorSettings0 => OPERATOR_COUNT,
            Register::OperatorSettings1 => OPERATOR_COUNT,
            Register::OperatorSettings2 => OPERATOR_COUNT,
            Register::OperatorSettings3 => OPERATOR_COUNT,
            Register::ChannelSettings0 => CHANNEL_COUNT,
            Register::ChannelSettings1 => CHANNEL_COUNT,
            Register::RhythmSettings => 1,
            Register::ChannelSettings2 => CHANNEL_COUNT,
            Register::OperatorSettings4 => OPERATOR_COUNT,
        }
    }
}

/// The named bit ranges of the registers.
#[derive(Debug, Clone, Copy, PartialEq, Eq, Structural)]
pub enum Field {
    /// Must be zero for normal operation.
    Test0,
    /// When set, each operator uses the waveform of its waveform register; when clear, all use a sine.
    WaveformSelectEnable,
    /// Must be zero for normal operation.
    Test1,
    /// Value reloaded into timer 1 (80 µs steps) on overflow.
    Timer1Preset,
    /// Value reloaded into timer 2 (320 µs steps) on overflow.
    Timer2Preset,
    /// Resets the timers and the IRQ flags of the status register.
    IrqReset,
    /// When set, a timer 1 overflow leaves the status register alone.
    Timer1Mask,
    /// When set, a timer 2 overflow leaves the status register alone.
    Timer2Mask,
    /// Runs timer 2.
    Timer2Start,
    /// Runs timer 1.
    Timer1Start,
    /// Composite sine wave mode; every key-on bit must be clear to use it.
    CompositeSineWave,
    /// Keyboard split point: which bit of the frequency number selects the split.
    NoteSelect,
    /// Applies amplitude modulation (tremolo).
    AmplitudeModulation,
    /// Applies vibrato.
    Vibrato,
    /// Holds the sustain level until the key is released.
    Sustain,
    /// Shortens the envelope as the pitch rises.
    KeyboardScalingRate,
    /// Harmonic of the channel frequency the operator sounds at; see [`ModulatorFrequencyMultiple`].
    ModulatorFrequencyMultiple,
    /// Output attenuation as the pitch rises; see [`ScalingLevel`].
    LevelKeyScaling,
    /// Attenuation of the operator output: 0 is loudest, 63 softest.
    OutputLevel,
    /// Rising speed of the envelope; higher is faster.
    AttackRate,
    /// Speed of the decay towards the sustain level; higher is faster.
    DecayRate,
    /// Level held after the decay: 0 is loudest, 15 softest.
    SustainLevel,
    /// Speed of the release after key-off; higher is faster.
    ReleaseRate,
    /// Low eight bits of the channel's frequency number.
    FrequencyNumberLow,
    /// The channel sounds while set and is silent while clear.
    KeyOn,
    /// Octave of the channel, 0 to 7.
    BlockNumber,
    /// High two bits of the channel's frequency number.
    FrequencyNumberHigh,
    /// Depth of amplitude modulation; see [`TremoloDepth`].
    TremoloDepth,
    /// Depth of vibrato; see [`VibratoDepth`].
    VibratoDepth,
    /// Melodic or percussion mode; see [`InstrumentMode`].
    InstrumentMode,
    /// Bass drum voice on.
    BassDrumOn,
    /// Snare drum voice on.
    SnareDrumOn,
    /// Tom-tom voice on.
    TomTomOn,
    /// Cymbal voice on.
    CymbalOn,
    /// Hi-hat voice on.
    HiHatOn,
    /// Feedback strength of the first operator.
    Feedback,
    /// How the two operators combine; see [`SynthesisType`].
    SynthesisType,
    /// Waveform of the operator; see [`WaveformType`].
    Waveform,
}

impl Field {
    /// The register the field belongs to, and its lowest and highest bit.
    pub open spec fn spec_layout(self) -> (Register, u8, u8) {
        match self {
            Field::Test0 => (Register::WaveformSelectEnable, 6, 7),
            Field::WaveformSelectEnable => (Register::WaveformSelectEnable, 5, 5),
            Field::Test1 => (Register::WaveformSelectEnable, 0, 4),
            Field::Timer1Preset => (Register::Timer1Count, 0, 7),
            Field::Timer2Preset => (Register::Timer2Count, 0, 7),
            Field::IrqReset => (Register::TimerControl, 7, 7),
            Field::Timer1Mask => (Register::TimerControl, 6, 6),
            Field::Timer2Mask => (Register::TimerControl, 5, 5),
            Field::Timer2Start => (Register::TimerControl, 1, 1),
            Field::Timer1Start => (Register::TimerControl, 0, 0),
            Field::CompositeSineWave => (Register::NoteSelect, 7, 7),
            Field::NoteSelect => (Register::NoteSelect, 6, 6),
            Field::AmplitudeModulation => (Register::OperatorSettings0, 7, 7),
            Field::Vibrato => (Register::OperatorSettings0, 6, 6),
            Field::Sustain => (Register::OperatorSettings0, 5, 5),
            Field::KeyboardScalingRate => (Register::OperatorSettings0, 4, 4),
            Field::ModulatorFrequencyMultiple => (Register::OperatorSettings0, 0, 3),
            Field::LevelKeyScaling => (Register::OperatorSettings1, 6, 7),
            Field::OutputLevel => (Register::OperatorSettings1, 0, 5),
            Field::AttackRate => (Register::OperatorSettings2, 4, 7),
            Field::DecayRate => (Register::OperatorSettings2, 0, 3),
            Field::SustainLevel => (Register::OperatorSettings3, 4, 7),
            Field::ReleaseRate => (Register::OperatorSettings3, 0, 3),
            Field::FrequencyNumberLow => (Register::ChannelSettings0, 0, 7),
            Field::KeyOn => (Register::ChannelSettings1, 5, 5),
            Field::BlockNumber => (Register::ChannelSettings1, 2, 4),
            Field::FrequencyNumberHigh => (Register::ChannelSettings1, 0, 1),
            Field::TremoloDepth => (Register::RhythmSettings, 7, 7),
            Field::VibratoDepth => (Register::RhythmSettings, 6, 6),
            Field::InstrumentMode => (Register::RhythmSettings, 5, 5),
            Field::BassDrumOn => (Register::RhythmSettings, 4, 4),
            Field::SnareDrumOn => (Register::RhythmSettings, 3, 3),
            Field::TomTomOn => (Register::RhythmSettings, 2, 2),
            Field::CymbalOn => (Register::RhythmSettings, 1, 1),
            Field::HiHatOn => (Register::RhythmSettings, 0, 0),
            Field::Feedback => (Register::ChannelSettings2, 1, 3),
            Field::SynthesisType => (Register::ChannelSettings2, 0, 0),
            Field::Waveform => (Register::OperatorSettings4, 0, 1),
        }
    }

    pub open spec fn spec_register(self) -> Register {
        self.spec_layout().0
    }

    pub open spec fn spec_low(self) -> u8 {
        self.spec_layout().1
    }

    pub open spec fn spec_high(self) -> u8 {
        self.spec_layout().2
    }

    /// The register the field belongs to, and its lowest and highest bit.
    pub fn layout(&self) -> (r: (Register, u8, u8))
        ensures
            r == self.spec_layout(),
            valid_range(r.1, r.2),
    {
        match self {
            Field::Test0 => (Register::WaveformSelectEnable, 6, 7),
            Field::WaveformSelectEnable => (Register::WaveformSelectEnable, 5, 5),
            Field::Test1 => (Register::WaveformSelectEnable, 0, 4),
            Field::Timer1Preset => (Register::Timer1Count, 0, 7),
            Field::Timer2Preset => (Register::Timer2Count, 0, 7),
            Field::IrqReset => (Register::TimerControl, 7, 7),
            Field::Timer1Mask => (Register::TimerControl, 6, 6),
            Field::Timer2Mask => (Register::TimerControl, 5, 5),
            Field::Timer2Start => (Register::TimerControl, 1, 1),
            Field::Timer1Start => (Register::TimerControl, 0, 0),
            Field::CompositeSineWave => (Register::NoteSelect, 7, 7),
            Field::NoteSelect => (Register::NoteSelect, 6, 6),
            Field::AmplitudeModulation => (Register::OperatorSettings0, 7, 7),
            Field::Vibrato => (Register::OperatorSettings0, 6, 6),
            Field::Sustain => (Register::OperatorSettings0, 5, 5),
            Field::KeyboardScalingRate => (Register::OperatorSettings0, 4, 4),
            Field::ModulatorFrequencyMultiple => (Register::OperatorSettings0, 0, 3),
            Field::LevelKeyScaling => (Register::OperatorSettings1, 6, 7),
            Field::OutputLevel => (Register::OperatorSettings1, 0, 5),
            Field::AttackRate => (Register::OperatorSettings2, 4, 7),
            Field::DecayRate => (Register::OperatorSettings2, 0, 3),
            Field::SustainLevel => (Register::OperatorSettings3, 4, 7),
            Field::ReleaseRate => (Register::OperatorSettings3, 0, 3),
            Field::FrequencyNumberLow => (Register::ChannelSettings0, 0, 7),
            Field::KeyOn => (Register::ChannelSettings1, 5, 5),
            Field::BlockNumber => (Register::ChannelSettings1, 2, 4),
            Field::FrequencyNumberHigh => (Register::ChannelSettings1, 0, 1),
            Field::TremoloDepth => (Register::RhythmSettings, 7, 7),
            Field::VibratoDepth => (Register::RhythmSettings, 6, 6),
            Field::InstrumentMode => (Register::RhythmSettings, 5, 5),
            Field::BassDrumOn => (Register::RhythmSettings, 4, 4),
            Field::SnareDrumOn => (Register::RhythmSettings, 3, 3),
            Field::TomTomOn => (Register::RhythmSettings, 2, 2),
            Field::CymbalOn => (Register::RhythmSettings, 1, 1),
            Field::HiHatOn => (Register::RhythmSettings, 0, 0),
            Field::Feedback => (Register::ChannelSettings2, 1, 3),
            Field::SynthesisType => (Register::ChannelSettings2, 0, 0),
            Field::Waveform => (Register::OperatorSettings4, 0, 1),
        }
    }
}
/// Harmonic an operator sounds at, relative to the channel frequency (4 bits).
#[derive(Debug, Clone, Copy, PartialEq, Eq, Structural)]
pub enum ModulatorFrequencyMultiple {
    /// Factor 0.5
    OneOctaveBelow,
    /// Factor 1
    AtSpecified,
    /// Factor 2
    OneOctaveAbove,
    /// Factor 3
    OneOctaveFifthAbove,
    /// Factor 4
    TwoOctaveAbove,
    /// Factor 5
    TwoOctaveMajorThirdAbove,
    /// Factor 6
    TwoOctaveFifthAbove,
    /// Factor 7
    TwoOctaveMinorSeventhAbove,
    /// Factor 8
    ThreeOctaveAbove,
    /// Factor 9
    ThreeOctaveMajorSecondAbove,
    /// Factor 10
    ThreeOctaveMajorThirdAbove,
    /// Same as `ThreeOctaveMajorThirdAbove`
    ThreeOctaveMajorThirdAboveAlt,
    /// Factor 12
    ThreeOctaveFifthAbove,
    /// Same as `ThreeOctaveFifthAbove`
    ThreeOctaveFifthAboveAlt,
    /// Factor 15
    ThreeOctaveMajorSeventhAbove,
    /// Same as `ThreeOctaveMajorSeventhAbove`
    ThreeOctaveMajorSeventhAboveAlt,
}

impl ModulatorFrequencyMultiple {
    /// The field value that selects this variant.
    pub open spec fn spec_bits(self) -> u8 {
        self as u8
    }

    /// The field value that selects this variant.
    pub fn bits(self) -> (r: u8)
        ensures
            r == self.spec_bits(),
            r < 16,
    {
        self as u8
    }

    /// The variant that a field value selects, if any.
    pub fn from_bits(value: u8) -> (r: Option<Self>)
        ensures
            r is Some <==> value < 16,
            r matches Some(v) ==> v.spec_bits() == value,
    {
        match value {
            0 => Some(ModulatorFrequencyMultiple::OneOctaveBelow),
            1 => Some(ModulatorFrequencyMultiple::AtSpecified),
            2 => Some(ModulatorFrequencyMultiple::OneOctaveAbove),
            3 => Some(ModulatorFrequencyMultiple::OneOctaveFifthAbove),
            4 => Some(ModulatorFrequencyMultiple::TwoOctaveAbove),
            5 => Some(ModulatorFrequencyMultiple::TwoOctaveMajorThirdAbove),
            6 => Some(ModulatorFrequencyMultiple::TwoOctaveFifthAbove),
            7 => Some(ModulatorFrequencyMultiple::TwoOctaveMinorSeventhAbove),
            8 => Some(ModulatorFrequencyMultiple::ThreeOctaveAbove),
            9 => Some(ModulatorFrequencyMultiple::ThreeOctaveMajorSecondAbove),
            10 => Some(ModulatorFrequencyMultiple::ThreeOctaveMajorThirdAbove),
            11 => Some(ModulatorFrequencyMultiple::ThreeOctaveMajorThirdAboveAlt),
            12 => Some(ModulatorFrequencyMultiple::ThreeOctaveFifthAbove),
            13 => Some(ModulatorFrequencyMultiple::ThreeOctaveFifthAboveAlt),
            14 => Some(ModulatorFrequencyMultiple::ThreeOctaveMajorSeventhAbove),
            15 => Some(ModulatorFrequencyMultiple::ThreeOctaveMajorSeventhAboveAlt),
            _ => None,
        }
    }
}

/// Output attenuation as the pitch rises (2 bits).
#[derive(Debug, Clone, Copy, PartialEq, Eq, Structural)]
pub enum ScalingLevel {
    /// No attenuation
    NoChange,
    /// 3 dB per octave
    DB3PerOctave,
    /// 1.5 dB per octave
    DB1_5PerOctave,
    /// 6 dB per octave
    DB6PerOctave,
}

impl ScalingLevel {
    /// The field value that selects this variant.
    pub open spec fn spec_bits(self) -> u8 {
        self as u8
    }

    /// The field value that selects this variant.
    pub fn bits(self) -> (r: u8)
        ensures
            r == self.spec_bits(),
            r < 4,
    {
        self as u8
    }

    /// The variant that a field value selects, if any.
    pub fn from_bits(value: u8) -> (r: Option<Self>)
        ensures
            r is Some <==> value < 4,
            r matches Some(v) ==> v.spec_bits() == value,
    {
        match value {
            0 => Some(ScalingLevel::NoChange),
            1 => Some(ScalingLevel::DB3PerOctave),
            2 => Some(ScalingLevel::DB1_5PerOctave),
            3 => Some(ScalingLevel::DB6PerOctave),
            _ => None,
        }
    }
}

/// Depth of amplitude modulation (1 bit).
#[derive(Debug, Clone, Copy, PartialEq, Eq, Structural)]
pub enum TremoloDepth {
    /// 1.0 dB
    Low,
    /// 4.8 dB
    High,
}

impl TremoloDepth {
    /// The field value that selects this variant.
    pub open spec fn spec_bits(self) -> u8 {
        self as u8
    }

    /// The field value that selects this variant.
    pub fn bits(self) -> (r: u8)
        ensures
            r == self.spec_bits(),
            r < 2,
    {
        self as u8
    }

    /// The variant that a field value selects, if any.
    pub fn from_bits(value: u8) -> (r: Option<Self>)
        ensures
            r is Some <==> value < 2,
            r matches Some(v) ==> v.spec_bits() == value,
    {
        match value {
            0 => Some(TremoloDepth::Low),
            1 => Some(TremoloDepth::High),
            _ => None,
        }
    }
}

/// Depth of vibrato (1 bit).
#[derive(Debug, Clone, Copy, PartialEq, Eq, Structural)]
pub enum VibratoDepth {
    /// 7 cents
    Low,
    /// 14 cents
    High,
}

impl VibratoDepth {
    /// The field value that selects this variant.
    pub open spec fn spec_bits(self) -> u8 {
        self as u8
    }

    /// The field value that selects this variant.
    pub fn bits(self) -> (r: u8)
        ensures
            r == self.spec_bits(),
            r < 2,
    {
        self as u8
    }

    /// The variant that a field value selects, if any.
    pub fn from_bits(value: u8) -> (r: Option<Self>)
        ensures
            r is Some <==> value < 2,
            r matches Some(v) ==> v.spec_bits() == value,
    {
        match value {
            0 => Some(VibratoDepth::Low),
            1 => Some(VibratoDepth::High),
            _ => None,
        }
    }
}

/// Whether channels 6 to 8 play melody or percussion (1 bit).
#[derive(Debug, Clone, Copy, PartialEq, Eq, Structural)]
pub enum InstrumentMode {
    /// Nine melodic channels
    Melodic,
    /// Six melodic channels and five percussion voices
    Percussion,
}

impl InstrumentMode {
    /// The field value that selects this variant.
    pub open spec fn spec_bits(self) -> u8 {
        self as u8
    }

    /// The field value that selects this variant.
    pub fn bits(self) -> (r: u8)
        ensures
            r == self.spec_bits(),
            r < 2,
    {
        self as u8
    }

    /// The variant that a field value selects, if any.
    pub fn from_bits(value: u8) -> (r: Option<Self>)
        ensures
            r is Some <==> value < 2,
            r matches Some(v) ==> v.spec_bits() == value,
    {
        match value {
            0 => Some(InstrumentMode::Melodic),
            1 => Some(InstrumentMode::Percussion),
            _ => None,
        }
    }
}

/// How the two operators of a channel combine (1 bit).
#[derive(Debug, Clone, Copy, PartialEq, Eq, Structural)]
pub enum SynthesisType {
    /// The first operator modulates the second
    FrequencyModulation,
    /// Both operators sound, added together
    AdditiveSynthesis,
}

impl SynthesisType {
    /// The field value that selects this variant.
    pub open spec fn spec_bits(self) -> u8 {
        self as u8
    }

    /// The field value that selects this variant.
    pub fn bits(self) -> (r: u8)
        ensures
            r == self.spec_bits(),
            r < 2,
    {
        self as u8
    }

    /// The variant that a field value selects, if any.
    pub fn from_bits(value: u8) -> (r: Option<Self>)
        ensures
            r is Some <==> value < 2,
            r matches Some(v) ==> v.spec_bits() == value,
    {
        match value {
            0 => Some(SynthesisType::FrequencyModulation),
            1 => Some(SynthesisType::AdditiveSynthesis),
            _ => None,
        }
    }
}

/// Waveform of an operator (2 bits).
#[derive(Debug, Clone, Copy, PartialEq, Eq, Structural)]
pub enum WaveformType {
    /// Full sine
    Sine,
    /// Positive half of the sine, silent in the other half
    HalfSine,
    /// Absolute value of the sine
    AbsSine,
    /// Rising quarter of the sine, silent in the falling quarters
    PulseSine,
}

impl WaveformType {
    /// The field value that selects this variant.
    pub open spec fn spec_bits(self) -> u8 {
        self as u8
    }

    /// The field value that selects this variant.
    pub fn bits(self) -> (r: u8)
        ensures
            r == self.spec_bits(),
            r < 4,
    {
        self as u8
    }

    /// The variant that a field value selects, if any.
    pub fn from_bits(value: u8) -> (r: Option<Self>)
        ensures
            r is Some <==> value < 4,
            r matches Some(v) ==> v.spec_bits() == value,
    {
        match value {
            0 => Some(WaveformType::Sine),
            1 => Some(WaveformType::HalfSine),
            2 => Some(WaveformType::AbsSine),
            3 => Some(WaveformType::PulseSine),
            _ => None,
        }
    }
}

/// Errors of the register file.
#[derive(Debug, Clone, Copy, PartialEq, Eq, Structural)]
pub enum LowLevelError {
    /// A line of the transport failed.
    InterfaceError(InterfaceError),
    /// The index is past the last address of a repeated register.
    IndexOutOfRange,
}

impl From<InterfaceError> for LowLevelError {
    fn from(e: InterfaceError) -> (r: Self)
        ensures
            r == LowLevelError::InterfaceError(e),
    {
        LowLevelError::InterfaceError(e)
    }
}

impl vstd::std_specs::convert::FromSpecImpl<InterfaceError> for LowLevelError {
    open spec fn obeys_from_spec() -> bool {
        true
    }

    open spec fn from_spec(e: InterfaceError) -> Self {
        LowLevelError::InterfaceError(e)
    }
}

/// The value of `field` in the byte `byte` of its register.
pub open spec fn field_value(byte: u8, field: Field) -> u8 {
    extract(byte, field.spec_low(), field.spec_high())
}

/// The byte `byte` of `field`'s register with `field` set to `value`, masked to the
/// field's width.
pub open spec fn with_field(byte: u8, field: Field, value: u8) -> u8 {
    insert(byte, field.spec_low(), field.spec_high(), value)
}

/// Reads `field` out of a byte of its register.
pub fn get_field(byte: u8, field: Field) -> (r: u8)
    ensures
        r == field_value(byte, field),
{
    let (_, low, high) = field.layout();
    get_bits(byte, low, high)
}

/// Sets `field` in a byte of its register; the other bits stay as they are, and the
/// bits of `value` that do not fit the field are dropped.
pub fn set_field(byte: u8, field: Field, value: u8) -> (r: u8)
    ensures
        r == with_field(byte, field, value),
{
    let (_, low, high) = field.layout();
    set_bits(byte, low, high, value)
}

/// Two different fields of one register share no bit.
pub proof fn lemma_fields_disjoint(field: Field, other: Field)
    requires
        field != other,
        field.spec_register() == other.spec_register(),
    ensures
        field.spec_high() < other.spec_low() || other.spec_high() < field.spec_low(),
{
}

/// Setting a field and reading it back gives the value set, masked to the field's width.
pub proof fn lemma_field_round_trip(byte: u8, field: Field, value: u8)
    ensures
        field_value(with_field(byte, field, value), field) == value & crate::bits::range_max(
            field.spec_low(),
            field.spec_high(),
        ),
{
    crate::bits::lemma_extract_insert(byte, field.spec_low(), field.spec_high(), value);
}

/// Setting one field of a register leaves every other field of that register as it was.
pub proof fn lemma_other_field_kept(byte: u8, field: Field, other: Field, value: u8)
    requires
        field != other,
        field.spec_register() == other.spec_register(),
    ensures
        field_value(with_field(byte, field, value), other) == field_value(byte, other),
{
    lemma_fields_disjoint(field, other);
    crate::bits::lemma_insert_keeps_other_range(
        byte,
        field.spec_low(),
        field.spec_high(),
        value,
        other.spec_low(),
        other.spec_high(),
    );
}

/// Setting a field leaves every bit of the byte outside the field as it was.
pub proof fn lemma_bits_outside_field_kept(byte: u8, field: Field, value: u8, bit: u8)
    requires
        bit <= 7,
        bit < field.spec_low() || field.spec_high() < bit,
    ensures
        (with_field(byte, field, value) >> bit) & 1 == (byte >> bit) & 1,
{
    crate::bits::lemma_insert_keeps_other_bits(
        byte,
        field.spec_low(),
        field.spec_high(),
        value,
        bit,
    );
}

/// A shadow image after the single-byte register writes `writes`, given as
/// `(address, value)` pairs, were applied in order to `s`.
pub open spec fn apply_writes(s: Seq<u8>, writes: Seq<(u8, u8)>) -> Seq<u8>
    decreases writes.len(),
{
    if writes.len() == 0 {
        s
    } else {
        let (address, value) = writes.last();
        apply_writes(s, writes.drop_last()).update(address as int, value)
    }
}

/// The shadow image went from `before` to `after` by the register writes `writes`: all
/// of them when `r` is `Ok`; on a line failure, the writes up to and including the one
/// that failed.
pub open spec fn writes_done(
    before: Seq<u8>,
    after: Seq<u8>,
    writes: Seq<(u8, u8)>,
    r: Result<(), LowLevelError>,
) -> bool {
    match r {
        Ok(()) => after == apply_writes(before, writes),
        Err(LowLevelError::InterfaceError(_)) => exists|k: int|
            0 < k <= writes.len() && after == apply_writes(before, writes.take(k)),
        Err(LowLevelError::IndexOutOfRange) => false,
    }
}

/// Applying two lists of writes one after the other is applying their concatenation.
pub proof fn lemma_apply_writes_concat(s: Seq<u8>, a: Seq<(u8, u8)>, b: Seq<(u8, u8)>)
    ensures
        apply_writes(apply_writes(s, a), b) == apply_writes(s, a + b),
    decreases b.len(),
{
    if b.len() == 0 {
        assert(a + b =~= a);
    } else {
        lemma_apply_writes_concat(s, a, b.drop_last());
        assert((a + b).drop_last() =~= a + b.drop_last());
    }
}

/// Two write lists done one after the other, the first in full, make their
/// concatenation done.
pub proof fn lemma_writes_done_chain(
    s0: Seq<u8>,
    s1: Seq<u8>,
    s2: Seq<u8>,
    a: Seq<(u8, u8)>,
    b: Seq<(u8, u8)>,
    r: Result<(), LowLevelError>,
)
    requires
        writes_done(s0, s1, a, Ok(())),
        writes_done(s1, s2, b, r),
    ensures
        writes_done(s0, s2, a + b, r),
{
    lemma_apply_writes_concat(s0, a, b);
    if let Err(LowLevelError::InterfaceError(_)) = r {
        let k = choose|k: int| 0 < k <= b.len() && s2 == apply_writes(s1, b.take(k));
        lemma_apply_writes_concat(s0, a, b.take(k));
        assert((a + b).take(a.len() + k) =~= a + b.take(k));
    }
}

/// One more write applies on top of the ones before it.
pub proof fn lemma_apply_writes_push(s: Seq<u8>, writes: Seq<(u8, u8)>, write: (u8, u8))
    ensures
        apply_writes(s, writes.push(write)) == apply_writes(s, writes).update(
            write.0 as int,
            write.1,
        ),
{
    assert(writes.push(write).drop_last() =~= writes);
}

/// Writes to other addresses leave an address as it was.
pub proof fn lemma_apply_writes_untouched(s: Seq<u8>, writes: Seq<(u8, u8)>, address: int)
    requires
        s.len() == REGISTER_SPACE,
        0 <= address < REGISTER_SPACE,
        forall|i: int| 0 <= i < writes.len() ==> writes[i].0 != address,
    ensures
        apply_writes(s, writes).len() == REGISTER_SPACE,
        apply_writes(s, writes)[address] == s[address],
    decreases writes.len(),
{
    if writes.len() > 0 {
        lemma_apply_writes_untouched(s, writes.drop_last(), address);
    }
}

/// One register write, done.
pub proof fn lemma_single_write(s: Seq<u8>, address: u8, value: u8)
    ensures
        apply_writes(s, seq![(address, value)]) == s.update(address as int, value),
        seq![(address, value)].take(1) == seq![(address, value)],
{
    assert(seq![(address, value)].drop_last() =~= Seq::<(u8, u8)>::empty());
    assert(apply_writes(s, Seq::<(u8, u8)>::empty()) == s);
    assert(seq![(address, value)].take(1) =~= seq![(address, value)]);
}

/// The register file of the chip over a transport.
pub struct Opl2LL<B: ShiftBus> {
    interface: ShiftInterface<B>,
}

impl<B: ShiftBus> Opl2LL<B> {
    /// The transport underneath.
    pub closed spec fn transport(&self) -> ShiftInterface<B> {
        self.interface
    }

    /// The shadow register image.
    pub open spec fn shadow(&self) -> Seq<u8> {
        self.transport().shadow()
    }

    /// Every bus step issued so far.
    pub open spec fn trace(&self) -> Seq<BusOp> {
        self.transport().trace()
    }

    /// The register file over `interface`.
    pub fn new(interface: ShiftInterface<B>) -> (r: Self)
        ensures
            r.transport() == interface,
    {
        Opl2LL { interface }
    }

    /// Gives the transport back.
    pub fn free(self) -> (r: ShiftInterface<B>)
        ensures
            r == self.transport(),
    {
        self.interface
    }

    /// Resets the chip through the transport; see [`ShiftInterface::reset`].
    pub fn reset(&mut self) -> (r: Result<(), InterfaceError>)
        ensures
            r is Ok ==> final(self).shadow() == zeros(
                REGISTER_SPACE as nat,
            ),
            r is Ok ==> final(self).trace() == old(self).trace() + reset_ops(),
            r matches Err(e) ==> aborted_within(
                final(self).trace(),
                old(self).trace(),
                reset_ops(),
                e,
            ),
    {
        self.interface.reset()
    }

    /// The shadow image has one byte for each address.
    pub proof fn lemma_shadow_len(&self)
        ensures
            self.shadow().len() == REGISTER_SPACE,
    {
        self.interface.lemma_shadow_len();
    }

    /// Reads entry `index` of `register` from the shadow image.
    pub fn read_index(&self, register: Register, index: usize) -> (r: Result<u8, LowLevelError>)
        ensures
            index < register.spec_len() ==> r == Ok::<u8, LowLevelError>(
                self.shadow()[register.spec_address(index as int)],
            ),
            index >= register.spec_len() ==> r == Err::<u8, LowLevelError>(
                LowLevelError::IndexOutOfRange,
            ),
    {
        if index >= register.len() {
            return Err(LowLevelError::IndexOutOfRange);
        }
        proof {
            self.interface.lemma_shadow_len();
        }
        let address = register.base() + index as u8;
        let bytes = self.interface.read_register(address, 1);
        Ok(bytes[0])
    }

    /// Reads a register that stands at a single address.
    pub fn read(&self, register: Register) -> (r: u8)
        requires
            register.spec_len() == 1,
        ensures
            r == self.shadow()[register.spec_base() as int],
    {
        proof {
            self.interface.lemma_shadow_len();
        }
        let address = register.base();
        let bytes = self.interface.read_register(address, 1);
        bytes[0]
    }

    /// Writes `value` to entry `index` of `register`.
    ///
    /// The shadow image takes the byte before the chip does, and keeps it when a line
    /// fails.
    pub fn write_index(&mut self, register: Register, index: usize, value: u8) -> (r: Result<
        (),
        LowLevelError,
    >)
        ensures
            index < register.spec_len() ==> writes_done(
                old(self).shadow(),
                final(self).shadow(),
                seq![(register.spec_address(index as int) as u8, value)],
                r,
            ),
            index < register.spec_len() ==> final(self).shadow() == old(self).shadow().update(
                register.spec_address(index as int),
                value,
            ),
            index < register.spec_len() && r is Ok ==> final(self).trace() == old(self).trace()
                + byte_ops(register.spec_address(index as int) as u8, value),
            index >= register.spec_len() ==> r == Err::<(), LowLevelError>(
                LowLevelError::IndexOutOfRange,
            ) && *final(self) == *old(self),
    {
        if index >= register.len() {
            return Err(LowLevelError::IndexOutOfRange);
        }
        let address = register.base() + index as u8;
        self.write_address(address, value)
    }

    /// Writes `value` to a register that stands at a single address.
    pub fn write(&mut self, register: Register, value: u8) -> (r: Result<(), LowLevelError>)
        requires
            register.spec_len() == 1,
        ensures
            writes_done(
                old(self).shadow(),
                final(self).shadow(),
                seq![(register.spec_base(), value)],
                r,
            ),
            final(self).shadow() == old(self).shadow().update(register.spec_base() as int, value),
    {
        self.write_index(register, 0, value)
    }

    /// Sets `field` to `value` in entry `index` of the field's register: reads the byte
    /// from the shadow image, changes the field's bits alone, and writes the byte back.
    pub fn modify_index(&mut self, field: Field, index: usize, value: u8) -> (r: Result<
        (),
        LowLevelError,
    >)
        ensures
            ({
                let register = field.spec_register();
                let address = register.spec_address(index as int);
                let byte = with_field(old(self).shadow()[address], field, value);
                &&& index < register.spec_len() ==> writes_done(
                    old(self).shadow(),
                    final(self).shadow(),
                    seq![(address as u8, byte)],
                    r,
                )
                &&& index < register.spec_len() ==> final(self).shadow() == old(
                    self,
                ).shadow().update(address, byte)
                &&& index >= register.spec_len() ==> r == Err::<(), LowLevelError>(
                    LowLevelError::IndexOutOfRange,
                ) && *final(self) == *old(self)
            }),
    {
        let (register, _, _) = field.layout();
        let current = self.read_index(register, index);
        match current {
            Ok(byte) => {
                let updated = set_field(byte, field, value);
                self.write_index(register, index, updated)
            },
            Err(e) => Err(e),
        }
    }

    /// Sets `field` to `value` in its register, which stands at a single address.
    pub fn modify(&mut self, field: Field, value: u8) -> (r: Result<(), LowLevelError>)
        requires
            field.spec_register().spec_len() == 1,
        ensures
            ({
                let address = field.spec_register().spec_base();
                let byte = with_field(old(self).shadow()[address as int], field, value);
                &&& writes_done(old(self).shadow(), final(self).shadow(), seq![(address, byte)], r)
                &&& final(self).shadow() == old(self).shadow().update(address as int, byte)
            }),
    {
        self.modify_index(field, 0, value)
    }

    /// Writes one byte to one address.
    fn write_address(&mut self, address: u8, value: u8) -> (r: Result<(), LowLevelError>)
        ensures
            final(self).shadow() == old(self).shadow().update(address as int, value),
            writes_done(old(self).shadow(), final(self).shadow(), seq![(address, value)], r),
            r is Ok ==> final(self).trace() == old(self).trace() + byte_ops(address, value),
            r matches Err(LowLevelError::InterfaceError(e)) ==> aborted_within(
                final(self).trace(),
                old(self).trace(),
                byte_ops(address, value),
                e,
            ),
    {
        proof {
            self.interface.lemma_shadow_len();
        }
        let bytes = [value];
        let r = self.interface.write_register(address, bytes.as_slice());
        proof {
            lemma_single_write(old(self).shadow(), address, value);
            assert(final(self).shadow() =~= old(self).shadow().update(address as int, value));
            assert(seq![value].drop_last() =~= Seq::<u8>::empty());
            assert(write_ops(address as int, Seq::<u8>::empty()) =~= Seq::<
                BusOp,
            >::empty());
            assert(write_ops(address as int, seq![value]) =~= byte_ops(address, value));
            assert(bytes@ =~= seq![value]);
        }
        match r {
            Ok(()) => Ok(()),
            Err(e) => Err(LowLevelError::from(e)),
        }
    }
}

} // verus!
