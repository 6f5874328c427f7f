//! Instrument descriptors: the register bytes of one operator, of a melodic voice, and of
//! each percussion voice, decoded from their canonical byte form.
use vstd::prelude::*;

verus! {

/// The five register bytes of one operator, in register order: tremolo, vibrato, sustain
/// and frequency multiple; key scaling and output levels; attack and decay; sustain
/// level and release; waveform.
#[derive(Debug, Clone, Copy, PartialEq, Eq, Structural)]
pub struct OperatorSettings {
    pub operator_settings0: u8,
    pub operator_settings1: u8,
    pub operator_settings2: u8,
    pub operator_settings3: u8,
    pub operator_settings4: u8,
}

impl OperatorSettings {
    /// The five bytes, in register order.
    pub open spec fn encoded(self) -> Seq<u8> {
        seq![
            self.operator_settings0,
            self.operator_settings1,
            self.operator_settings2,
            self.operator_settings3,
            self.operator_settings4,
        ]
    }

    pub fn new(
        operator_settings0: u8,
        operator_settings1: u8,
        operator_settings2: u8,
        operator_settings3: u8,
        operator_settings4: u8,
    ) -> (r: Self)
        ensures
            r.encoded() == seq![
                operator_settings0,
                operator_settings1,
                operator_settings2,
                operator_settings3,
                operator_settings4,
            ],
    {
        OperatorSettings {
            operator_settings0,
            operator_settings1,
            operator_settings2,
            operator_settings3,
            operator_settings4,
        }
    }

    /// Decodes five bytes, in register order.
    pub fn from_bytes(bytes: [u8; 5]) -> (r: Self)
        ensures
            r.encoded() == bytes@,
    {
        let r = Self::new(bytes[0], bytes[1], bytes[2], bytes[3], bytes[4]);
        assert(r.encoded() =~= bytes@);
        r
    }
}

/// A melodic timbre: two operators and the channel synthesis byte (feedback and
/// synthesis type), independent of the channel it is later applied to.
#[derive(Debug, Clone, Copy, PartialEq, Eq, Structural)]
pub struct MelodyInstrument {
    pub operator_0: OperatorSettings,
    pub channel_settings2: u8,
    pub operator_1: OperatorSettings,
}

impl MelodyInstrument {
    /// The bytes of the descriptor: the first operator's five, the channel synthesis byte,
    /// then the second operator's five.
    pub open spec fn encoded(self) -> Seq<u8> {
        self.operator_0.encoded() + seq![self.channel_settings2] + self.operator_1.encoded()
    }

    pub fn new(
        operator_0: OperatorSettings,
        channel_settings2: u8,
        operator_1: OperatorSettings,
    ) -> (r: Self)
        ensures
            r.operator_0 == operator_0,
            r.channel_settings2 == channel_settings2,
            r.operator_1 == operator_1,
    {
        MelodyInstrument { operator_0, channel_settings2, operator_1 }
    }

    /// Decodes the eleven bytes of a descriptor, in register order.
    pub fn from_bytes(bytes: [u8; 11]) -> (r: Self)
        ensures
            r.encoded() == bytes@,
            r.operator_0.encoded() == bytes@.subrange(0, 5),
            r.channel_settings2 == bytes@[5],
            r.operator_1.encoded() == bytes@.subrange(6, 11),
    {
        let r = Self::new(
            OperatorSettings::from_bytes([bytes[0], bytes[1], bytes[2], bytes[3], bytes[4]]),
            bytes[5],
            OperatorSettings::from_bytes([bytes[6], bytes[7], bytes[8], bytes[9], bytes[10]]),
        );
        assert(r.operator_0.encoded() =~= bytes@.subrange(0, 5));
        assert(r.operator_1.encoded() =~= bytes@.subrange(6, 11));
        assert(r.encoded() =~= bytes@);
        r
    }
}

/// The bass drum voice: like a melodic timbre, on the fixed channel 6.
#[derive(Debug, Clone, Copy, PartialEq, Eq, Structural)]
pub struct BassDrum {
    pub operator_0: OperatorSettings,
    pub channel_settings2: u8,
    pub operator_1: OperatorSettings,
}

impl BassDrum {
    /// The channel the voice is bound to.
    pub const CHANNEL: usize = 6;

    /// The bytes of the descriptor: the first operator's five, the channel synthesis byte,
    /// then the second operator's five.
    pub open spec fn encoded(self) -> Seq<u8> {
        self.operator_0.encoded() + seq![self.channel_settings2] + self.operator_1.encoded()
    }

    pub fn new(
        operator_0: OperatorSettings,
        channel_settings2: u8,
        operator_1: OperatorSettings,
    ) -> (r: Self)
        ensures
            r.operator_0 == operator_0,
            r.channel_settings2 == channel_settings2,
            r.operator_1 == operator_1,
    {
        BassDrum { operator_0, channel_settings2, operator_1 }
    }

    /// Decodes the eleven bytes of a descriptor, in register order.
    pub fn from_bytes(bytes: [u8; 11]) -> (r: Self)
        ensures
            r.encoded() == bytes@,
            r.operator_0.encoded() == bytes@.subrange(0, 5),
            r.channel_settings2 == bytes@[5],
            r.operator_1.encoded() == bytes@.subrange(6, 11),
    {
        let r = Self::new(
            OperatorSettings::from_bytes([bytes[0], bytes[1], bytes[2], bytes[3], bytes[4]]),
            bytes[5],
            OperatorSettings::from_bytes([bytes[6], bytes[7], bytes[8], bytes[9], bytes[10]]),
        );
        assert(r.operator_0.encoded() =~= bytes@.subrange(0, 5));
        assert(r.operator_1.encoded() =~= bytes@.subrange(6, 11));
        assert(r.encoded() =~= bytes@);
        r
    }
}

/// The snare drum voice: the second operator of channel 7.
#[derive(Debug, Clone, Copy, PartialEq, Eq, Structural)]
pub struct SnareDrum {
    pub operator: OperatorSettings,
}

impl SnareDrum {
    /// The channel the voice is bound to.
    pub const CHANNEL: usize = 7;

    /// The operator of that channel the voice uses: 0 for the first, 1 for the second.
    pub const OPERATOR: usize = 1;

    /// The five bytes of the descriptor.
    pub open spec fn encoded(self) -> Seq<u8> {
        self.operator.encoded()
    }

    pub fn new(operator: OperatorSettings) -> (r: Self)
        ensures
            r.operator == operator,
    {
        SnareDrum { operator }
    }

    /// Decodes the five bytes of a descriptor, in register order.
    pub fn from_bytes(bytes: [u8; 5]) -> (r: Self)
        ensures
            r.encoded() == bytes@,
    {
        Self::new(OperatorSettings::from_bytes([bytes[0], bytes[1], bytes[2], bytes[3], bytes[4]]))
    }
}

/// The tom-tom voice: the first operator of channel 8.
#[derive(Debug, Clone, Copy, PartialEq, Eq, Structural)]
pub struct TomTom {
    pub operator: OperatorSettings,
}

impl TomTom {
    /// The channel the voice is bound to.
    pub const CHANNEL: usize = 8;

    /// The operator of that channel the voice uses: 0 for the first, 1 for the second.
    pub const OPERATOR: usize = 0;

    /// The five bytes of the descriptor.
    pub open spec fn encoded(self) -> Seq<u8> {
        self.operator.encoded()
    }

    pub fn new(operator: OperatorSettings) -> (r: Self)
        ensures
            r.operator == operator,
    {
        TomTom { operator }
    }

    /// Decodes the five bytes of a descriptor, in register order.
    pub fn from_bytes(bytes: [u8; 5]) -> (r: Self)
        ensures
            r.encoded() == bytes@,
    {
        Self::new(OperatorSettings::from_bytes([bytes[0], bytes[1], bytes[2], bytes[3], bytes[4]]))
    }
}

/// The cymbal voice: the second operator of channel 8.
#[derive(Debug, Clone, Copy, PartialEq, Eq, Structural)]
pub struct Cymbal {
    pub operator: OperatorSettings,
}

impl Cymbal {
    /// The channel the voice is bound to.
    pub const CHANNEL: usize = 8;

    /// The operator of that channel the voice uses: 0 for the first, 1 for the second.
    pub const OPERATOR: usize = 1;

    /// The five bytes of the descriptor.
    pub open spec fn encoded(self) -> Seq<u8> {
        self.operator.encoded()
    }

    pub fn new(operator: OperatorSettings) -> (r: Self)
        ensures
            r.operator == operator,
    {
        Cymbal { operator }
    }

    /// Decodes the five bytes of a descriptor, in register order.
    pub fn from_bytes(bytes: [u8; 5]) -> (r: Self)
        ensures
            r.encoded() == bytes@,
    {
        Self::new(OperatorSettings::from_bytes([bytes[0], bytes[1], bytes[2], bytes[3], bytes[4]]))
    }
}

/// The hi-hat voice: the first operator of channel 7.
#[derive(Debug, Clone, Copy, PartialEq, Eq, Structural)]
pub struct HiHat {
    pub operator: OperatorSettings,
}

impl HiHat {
    /// The channel the voice is bound to.
    pub const CHANNEL: usize = 7;

    /// The operator of that channel the voice uses: 0 for the first, 1 for the second.
    pub const OPERATOR: usize = 0;

    /// The five bytes of the descriptor.
    pub open spec fn encoded(self) -> Seq<u8> {
        self.operator.encoded()
    }

    pub fn new(operator: OperatorSettings) -> (r: Self)
        ensures
            r.operator == operator,
    {
        HiHat { operator }
    }

    /// Decodes the five bytes of a descriptor, in register order.
    pub fn from_bytes(bytes: [u8; 5]) -> (r: Self)
        ensures
            r.encoded() == bytes@,
    {
        Self::new(OperatorSettings::from_bytes([bytes[0], bytes[1], bytes[2], bytes[3], bytes[4]]))
    }
}

} // verus!
