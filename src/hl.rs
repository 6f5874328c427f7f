//! The device: a type-state machine (uninitialized, melody mode, rhythm mode) that maps
//! channels, notes, instruments and percussion voices onto register writes.
use core::marker::PhantomData;

use vstd::prelude::*;

use crate::instrument::{BassDrum, Cymbal, HiHat, MelodyInstrument, OperatorSettings, SnareDrum, TomTom};
use crate::interface::{reset_ops, zeros, ShiftBus, ShiftInterface, REGISTER_SPACE};
use crate::ll::{
    apply_writes, field_value, lemma_apply_writes_push, lemma_apply_writes_untouched,
    lemma_field_round_trip,
    lemma_other_field_kept, with_field, writes_done, Field, InstrumentMode, LowLevelError,
    Opl2LL, Register,
};

verus! {

/// State of a device that has not been reset yet.
pub struct Uninitialized;

/// State of a device with nine melodic channels.
pub struct Melody;

/// State of a device with six melodic channels and five percussion voices on channels
/// 6 to 8.
pub struct Rhythm;

/// The states in which the chip has been reset and plays.
pub trait Initialized {
    /// How many channels, from channel 0 on, can be used as melodic channels.
    spec fn channel_bound() -> nat;

    /// How many channels, from channel 0 on, can be used as melodic channels.
    fn channel_count() -> (r: usize)
        ensures
            r == Self::channel_bound(),
            r <= crate::ll::CHANNEL_COUNT,
    ;
}

impl Initialized for Melody {
    open spec fn channel_bound() -> nat {
        9
    }

    fn channel_count() -> (r: usize) {
        9
    }
}

impl Initialized for Rhythm {
    open spec fn channel_bound() -> nat {
        6
    }

    fn channel_count() -> (r: usize) {
        6
    }
}

/// Errors of the device.
#[derive(Debug, Clone, Copy, PartialEq, Eq, Structural)]
pub enum Opl2Error {
    /// The register file or the transport failed.
    LowLevelError(LowLevelError),
    /// The channel does not exist in the current mode.
    InvalidChannel,
}

impl From<LowLevelError> for Opl2Error {
    fn from(low_level_error: LowLevelError) -> (r: Self)
        ensures
            r == Opl2Error::LowLevelError(low_level_error),
    {
        Opl2Error::LowLevelError(low_level_error)
    }
}

impl vstd::std_specs::convert::FromSpecImpl<LowLevelError> for Opl2Error {
    open spec fn obeys_from_spec() -> bool {
        true
    }

    open spec fn from_spec(low_level_error: LowLevelError) -> Self {
        Opl2Error::LowLevelError(low_level_error)
    }
}

/// A note of the chromatic scale, with its octave (block number, 0 to 7).
#[derive(Debug, Clone, Copy, PartialEq, Eq, Structural)]
pub enum Note {
    C(u8),
    Cs(u8),
    D(u8),
    Eb(u8),
    E(u8),
    F(u8),
    Fs(u8),
    G(u8),
    Ab(u8),
    A(u8),
    Bb(u8),
    B(u8),
}

impl Note {
    /// The 10-bit frequency number of the note within its octave.
    pub open spec fn spec_frequency(self) -> u16 {
        match self {
            Note::C(_) => 0x157,
            Note::Cs(_) => 0x16B,
            Note::D(_) => 0x181,
            Note::Eb(_) => 0x198,
            Note::E(_) => 0x1B0,
            Note::F(_) => 0x1CA,
            Note::Fs(_) => 0x1E5,
            Note::G(_) => 0x202,
            Note::Ab(_) => 0x220,
            Note::A(_) => 0x241,
            Note::Bb(_) => 0x263,
            Note::B(_) => 0x287,
        }
    }

    /// The octave the note was given.
    pub open spec fn spec_octave(self) -> u8 {
        match self {
            Note::C(o) | Note::Cs(o) | Note::D(o) | Note::Eb(o) | Note::E(o) | Note::F(o)
            | Note::Fs(o) | Note::G(o) | Note::Ab(o) | Note::A(o) | Note::Bb(o) | Note::B(o) => o,
        }
    }

    /// The 10-bit frequency number of the note within its octave.
    pub fn get_frequency(&self) -> (r: u16)
        ensures
            r == self.spec_frequency(),
            r < 0x400,
    {
        match self {
            Note::C(_) => 0x157,
            Note::Cs(_) => 0x16B,
            Note::D(_) => 0x181,
            Note::Eb(_) => 0x198,
            Note::E(_) => 0x1B0,
            Note::F(_) => 0x1CA,
            Note::Fs(_) => 0x1E5,
            Note::G(_) => 0x202,
            Note::Ab(_) => 0x220,
            Note::A(_) => 0x241,
            Note::Bb(_) => 0x263,
            Note::B(_) => 0x287,
        }
    }

    /// The octave the note was given.
    pub fn get_octave(&self) -> (r: u8)
        ensures
            r == self.spec_octave(),
    {
        match self {
            Note::C(o) | Note::Cs(o) | Note::D(o) | Note::Eb(o) | Note::E(o) | Note::F(o)
            | Note::Fs(o) | Note::G(o) | Note::Ab(o) | Note::A(o) | Note::Bb(o) | Note::B(o) => *o,
        }
    }
}

/// The two operators of each channel: the modulator first, then the carrier.
pub open spec fn operator_pair(channel: int) -> (int, int) {
    if channel == 0 {
        (0x00, 0x03)
    } else if channel == 1 {
        (0x01, 0x04)
    } else if channel == 2 {
        (0x02, 0x05)
    } else if channel == 3 {
        (0x08, 0x0B)
    } else if channel == 4 {
        (0x09, 0x0C)
    } else if channel == 5 {
        (0x0A, 0x0D)
    } else if channel == 6 {
        (0x10, 0x13)
    } else if channel == 7 {
        (0x11, 0x14)
    } else {
        (0x12, 0x15)
    }
}

/// Operator `slot` (0 or 1) of `channel`.
pub open spec fn operator_of(channel: int, slot: int) -> int {
    if slot == 0 {
        operator_pair(channel).0
    } else {
        operator_pair(channel).1
    }
}

/// Operator `slot` (0 or 1) of `channel`.
fn operator_index(channel: usize, slot: usize) -> (r: usize)
    requires
        channel < 9,
        slot < 2,
    ensures
        r == operator_of(channel as int, slot as int),
        r < crate::ll::OPERATOR_COUNT,
{
    let (first, second): (usize, usize) = match channel {
        0 => (0x00, 0x03),
        1 => (0x01, 0x04),
        2 => (0x02, 0x05),
        3 => (0x08, 0x0B),
        4 => (0x09, 0x0C),
        5 => (0x0A, 0x0D),
        6 => (0x10, 0x13),
        7 => (0x11, 0x14),
        _ => (0x12, 0x15),
    };
    if slot == 0 {
        first
    } else {
        second
    }
}

/// The address of entry `index` of `register`, as a byte.
pub open spec fn address_of(register: Register, index: int) -> u8 {
    register.spec_address(index) as u8
}

/// The register writes that apply `settings` to `operator`.
pub open spec fn operator_writes(operator: int, settings: OperatorSettings) -> Seq<(u8, u8)> {
    seq![
        (address_of(Register::OperatorSettings0, operator), settings.operator_settings0),
        (address_of(Register::OperatorSettings1, operator), settings.operator_settings1),
        (address_of(Register::OperatorSettings2, operator), settings.operator_settings2),
        (address_of(Register::OperatorSettings3, operator), settings.operator_settings3),
        (address_of(Register::OperatorSettings4, operator), settings.operator_settings4),
    ]
}

/// The register writes that apply a two-operator timbre to `channel`: its first
/// operator, its synthesis byte, its second operator.
pub open spec fn voice_writes(
    channel: int,
    operator_0: OperatorSettings,
    channel_settings2: u8,
    operator_1: OperatorSettings,
) -> Seq<(u8, u8)> {
    operator_writes(operator_of(channel, 0), operator_0) + seq![
        (address_of(Register::ChannelSettings2, channel), channel_settings2),
    ] + operator_writes(operator_of(channel, 1), operator_1)
}

/// The frequency-high/control byte that starts `note`: the high two bits of the
/// frequency number, the octave masked to three bits, and key-on set.
pub open spec fn key_on_byte(note: Note) -> u8 {
    with_field(
        with_field(
            with_field(
                0,
                Field::FrequencyNumberHigh,
                ((note.spec_frequency() & 0x300) >> 8) as u8,
            ),
            Field::BlockNumber,
            note.spec_octave(),
        ),
        Field::KeyOn,
        1,
    )
}

/// The register writes that start `note` on `channel`: the low byte of the frequency
/// number, then the control byte of [`key_on_byte`].
pub open spec fn start_writes(channel: int, note: Note) -> Seq<(u8, u8)> {
    seq![
        (address_of(Register::ChannelSettings0, channel), (note.spec_frequency() & 0xff) as u8),
        (address_of(Register::ChannelSettings1, channel), key_on_byte(note)),
    ]
}

/// The register write that sets `field` of entry `index` of its register to `value`,
/// keeping the other bits that `s` holds there.
pub open spec fn field_write(s: Seq<u8>, field: Field, index: int, value: u8) -> (u8, u8) {
    let address = address_of(field.spec_register(), index);
    (address, with_field(s[address as int], field, value))
}

/// The register write that clears key-on of `channel`, on the shadow image `s`.
pub open spec fn stop_writes(s: Seq<u8>, channel: int) -> Seq<(u8, u8)> {
    seq![field_write(s, Field::KeyOn, channel, 0)]
}

/// The register writes that enter rhythm mode from the shadow image `s`: key-on cleared
/// on channels 6, 7 and 8, then the mode bit set to percussion.
pub open spec fn rhythm_entry_writes(s: Seq<u8>) -> Seq<(u8, u8)> {
    seq![
        field_write(s, Field::KeyOn, 6, 0),
        field_write(s, Field::KeyOn, 7, 0),
        field_write(s, Field::KeyOn, 8, 0),
        field_write(s, Field::InstrumentMode, 0, InstrumentMode::Percussion.spec_bits()),
    ]
}

/// The register write that enters melody mode from the shadow image `s`.
pub open spec fn melody_entry_writes(s: Seq<u8>) -> Seq<(u8, u8)> {
    seq![field_write(s, Field::InstrumentMode, 0, InstrumentMode::Melodic.spec_bits())]
}

/// The register write that turns the percussion voice of `field` on or off.
pub open spec fn voice_toggle_writes(s: Seq<u8>, field: Field, on: bool) -> Seq<(u8, u8)> {
    seq![field_write(s, field, 0, if on { 1 } else { 0 })]
}

/// The shadow image went from `before` to `after` by `writes`, as [`writes_done`] says,
/// and `r` is no invalid-channel error.
pub open spec fn device_writes_done(
    before: Seq<u8>,
    after: Seq<u8>,
    writes: Seq<(u8, u8)>,
    r: Result<(), Opl2Error>,
) -> bool {
    match r {
        Ok(()) => writes_done(before, after, writes, Ok(())),
        Err(Opl2Error::LowLevelError(e)) => writes_done(before, after, writes, Err(e)),
        Err(Opl2Error::InvalidChannel) => false,
    }
}

/// Nothing written is the empty prefix done.
proof fn lemma_nothing_done(s: Seq<u8>, writes: Seq<(u8, u8)>)
    ensures
        writes_done(s, s, writes.take(0), Ok(())),
{
    assert(writes.take(0) =~= Seq::<(u8, u8)>::empty());
}

/// A write list done in full, then a second one done as `r` says, is their
/// concatenation done as `r` says.
proof fn lemma_then(
    s0: Seq<u8>,
    s1: Seq<u8>,
    s2: Seq<u8>,
    a: Seq<(u8, u8)>,
    b: Seq<(u8, u8)>,
    r: Result<(), Opl2Error>,
)
    requires
        writes_done(s0, s1, a, Ok(())),
        device_writes_done(s1, s2, b, r),
    ensures
        device_writes_done(s0, s2, a + b, r),
{
    match r {
        Ok(()) => crate::ll::lemma_writes_done_chain(s0, s1, s2, a, b, Ok(())),
        Err(Opl2Error::LowLevelError(e)) => crate::ll::lemma_writes_done_chain(
            s0,
            s1,
            s2,
            a,
            b,
            Err(e),
        ),
        Err(Opl2Error::InvalidChannel) => {},
    }
}

/// A write list abandoned at a failure is also its extension abandoned there.
proof fn lemma_abandoned(
    s0: Seq<u8>,
    s1: Seq<u8>,
    a: Seq<(u8, u8)>,
    b: Seq<(u8, u8)>,
    r: Result<(), Opl2Error>,
)
    requires
        r is Err,
        device_writes_done(s0, s1, a, r),
    ensures
        device_writes_done(s0, s1, a + b, r),
{
    if let Err(Opl2Error::LowLevelError(LowLevelError::InterfaceError(_))) = r {
        let k = choose|k: int| 0 < k <= a.len() && s1 == apply_writes(s0, #[trigger] a.take(k));
        assert((a + b).take(k) =~= a.take(k));
    }
}

/// The control byte that starts a note holds key-on set, the note's octave masked to
/// three bits, and the high two bits of its frequency number.
pub proof fn lemma_key_on_byte(note: Note)
    ensures
        field_value(key_on_byte(note), Field::KeyOn) == 1,
        field_value(key_on_byte(note), Field::BlockNumber) == note.spec_octave() & 7,
        field_value(key_on_byte(note), Field::FrequencyNumberHigh) == (
        note.spec_frequency() >> 8) as u8,
{
    let frequency = note.spec_frequency();
    let octave = note.spec_octave();
    let high = ((frequency & 0x300) >> 8) as u8;
    let b0 = with_field(0, Field::FrequencyNumberHigh, high);
    let b1 = with_field(b0, Field::BlockNumber, octave);
    lemma_field_round_trip(0, Field::FrequencyNumberHigh, high);
    lemma_field_round_trip(b0, Field::BlockNumber, octave);
    lemma_field_round_trip(b1, Field::KeyOn, 1);
    lemma_other_field_kept(b0, Field::BlockNumber, Field::FrequencyNumberHigh, octave);
    lemma_other_field_kept(b1, Field::KeyOn, Field::FrequencyNumberHigh, 1);
    lemma_other_field_kept(b1, Field::KeyOn, Field::BlockNumber, 1);
    assert(1u8 & crate::bits::range_max(5, 5) == 1) by (bit_vector);
    assert(octave & crate::bits::range_max(2, 4) == octave & 7) by (bit_vector);
    assert(frequency < 0x400 ==> (((frequency & 0x300) >> 8) as u8) & crate::bits::range_max(0, 1)
        == (frequency >> 8) as u8) by (bit_vector);
}

/// Starting a note on a channel and then stopping it clears the channel's key-on bit and
/// nothing else: the frequency number and the octave keep the values the start wrote,
/// every other bit of the control byte and every other register keep theirs.
pub proof fn lemma_stop_after_start(s: Seq<u8>, channel: int, note: Note)
    requires
        s.len() == REGISTER_SPACE,
        0 <= channel < 9,
    ensures
        ({
            let started = apply_writes(s, start_writes(channel, note));
            let stopped = apply_writes(started, stop_writes(started, channel));
            let low = Register::ChannelSettings0.spec_address(channel);
            let control = Register::ChannelSettings1.spec_address(channel);
            &&& field_value(started[control], Field::KeyOn) == 1
            &&& field_value(stopped[control], Field::KeyOn) == 0
            &&& started[low] == (note.spec_frequency() & 0xff) as u8
            &&& stopped[low] == started[low]
            &&& field_value(stopped[control], Field::FrequencyNumberHigh) == (
            note.spec_frequency() >> 8) as u8
            &&& field_value(stopped[control], Field::BlockNumber) == note.spec_octave() & 7
            &&& forall|bit: u8|
                bit <= 7 && bit != 5 ==> (#[trigger] (stopped[control] >> bit) & 1) == (
                started[control] >> bit) & 1
            &&& forall|a: int|
                0 <= a < REGISTER_SPACE && a != control ==> #[trigger] stopped[a] == started[a]
        }),
{
    let writes = start_writes(channel, note);
    let low = Register::ChannelSettings0.spec_address(channel);
    let control = Register::ChannelSettings1.spec_address(channel);
    lemma_apply_writes_push(s, Seq::empty(), writes[0]);
    assert(Seq::<(u8, u8)>::empty().push(writes[0]) =~= seq![writes[0]]);
    lemma_apply_writes_push(s, seq![writes[0]], writes[1]);
    assert(seq![writes[0]].push(writes[1]) =~= writes);
    let started = apply_writes(s, writes);
    assert(started == s.update(low, writes[0].1).update(control, writes[1].1));
    let stop = stop_writes(started, channel);
    lemma_apply_writes_push(started, Seq::empty(), stop[0]);
    assert(Seq::<(u8, u8)>::empty().push(stop[0]) =~= stop);
    let stopped = apply_writes(started, stop);
    assert(stopped == started.update(control, with_field(started[control], Field::KeyOn, 0)));
    lemma_key_on_byte(note);
    lemma_field_round_trip(started[control], Field::KeyOn, 0);
    assert(0u8 & crate::bits::range_max(5, 5) == 0) by (bit_vector);
    lemma_other_field_kept(started[control], Field::KeyOn, Field::FrequencyNumberHigh, 0);
    lemma_other_field_kept(started[control], Field::KeyOn, Field::BlockNumber, 0);
    assert forall|bit: u8| bit <= 7 && bit != 5 implies (#[trigger] (stopped[control] >> bit) & 1)
        == (started[control] >> bit) & 1 by {
        crate::ll::lemma_bits_outside_field_kept(started[control], Field::KeyOn, 0, bit);
    }
}

/// Entering rhythm mode and going back to melody mode sets the mode bit back to melodic
/// and keeps the rest of the rhythm register. Channels 6 to 8 are not restored: their
/// key-on bits stay cleared, their frequency and octave bits stay as they were. No other
/// register changes.
pub proof fn lemma_mode_round_trip(s: Seq<u8>)
    requires
        s.len() == REGISTER_SPACE,
    ensures
        ({
            let rhythm = apply_writes(s, rhythm_entry_writes(s));
            let melody = apply_writes(rhythm, melody_entry_writes(rhythm));
            let mode = Register::RhythmSettings.spec_base() as int;
            &&& field_value(melody[mode], Field::InstrumentMode)
                == InstrumentMode::Melodic.spec_bits()
            &&& forall|f: Field|
                f.spec_register() == Register::RhythmSettings && f != Field::InstrumentMode
                    ==> #[trigger] field_value(melody[mode], f) == field_value(s[mode], f)
            &&& forall|channel: int|
                6 <= channel <= 8 ==> {
                    let control = #[trigger] Register::ChannelSettings1.spec_address(channel);
                    &&& field_value(melody[control], Field::KeyOn) == 0
                    &&& field_value(melody[control], Field::BlockNumber) == field_value(
                        s[control],
                        Field::BlockNumber,
                    )
                    &&& field_value(melody[control], Field::FrequencyNumberHigh) == field_value(
                        s[control],
                        Field::FrequencyNumberHigh,
                    )
                }
            &&& forall|a: int|
                0 <= a < REGISTER_SPACE && a != mode && !(0xB6 <= a <= 0xB8) ==> #[trigger] melody[a]
                    == s[a]
        }),
{
    let entry = rhythm_entry_writes(s);
    lemma_apply_writes_push(s, Seq::empty(), entry[0]);
    lemma_apply_writes_push(s, seq![entry[0]], entry[1]);
    lemma_apply_writes_push(s, seq![entry[0], entry[1]], entry[2]);
    lemma_apply_writes_push(s, seq![entry[0], entry[1], entry[2]], entry[3]);
    assert(Seq::<(u8, u8)>::empty().push(entry[0]) =~= seq![entry[0]]);
    assert(seq![entry[0]].push(entry[1]) =~= seq![entry[0], entry[1]]);
    assert(seq![entry[0], entry[1]].push(entry[2]) =~= seq![entry[0], entry[1], entry[2]]);
    assert(seq![entry[0], entry[1], entry[2]].push(entry[3]) =~= entry);
    let rhythm = apply_writes(s, entry);
    assert(rhythm == s.update(0xB6, entry[0].1).update(0xB7, entry[1].1).update(
        0xB8,
        entry[2].1,
    ).update(0xBD, entry[3].1));
    let back = melody_entry_writes(rhythm);
    lemma_apply_writes_push(rhythm, Seq::empty(), back[0]);
    assert(Seq::<(u8, u8)>::empty().push(back[0]) =~= back);
    let melody = apply_writes(rhythm, back);
    assert(melody == rhythm.update(0xBD, back[0].1));
    lemma_field_round_trip(rhythm[0xBD], Field::InstrumentMode, 0);
    assert(0u8 & crate::bits::range_max(5, 5) == 0) by (bit_vector);
    assert forall|f: Field|
        f.spec_register() == Register::RhythmSettings && f != Field::InstrumentMode implies
        #[trigger] field_value(melody[0xBD], f) == field_value(s[0xBD], f) by {
        lemma_other_field_kept(rhythm[0xBD], Field::InstrumentMode, f, 0);
        lemma_other_field_kept(s[0xBD], Field::InstrumentMode, f, 1);
    }
    assert forall|channel: int| 6 <= channel <= 8 implies {
        let control = #[trigger] Register::ChannelSettings1.spec_address(channel);
        &&& field_value(melody[control], Field::KeyOn) == 0
        &&& field_value(melody[control], Field::BlockNumber) == field_value(
            s[control],
            Field::BlockNumber,
        )
        &&& field_value(melody[control], Field::FrequencyNumberHigh) == field_value(
            s[control],
            Field::FrequencyNumberHigh,
        )
    } by {
        let control = Register::ChannelSettings1.spec_address(channel);
        lemma_field_round_trip(s[control], Field::KeyOn, 0);
        lemma_other_field_kept(s[control], Field::KeyOn, Field::BlockNumber, 0);
        lemma_other_field_kept(s[control], Field::KeyOn, Field::FrequencyNumberHigh, 0);
    }
}

/// A device and the state it is in.
pub struct Opl2<B: ShiftBus, STATE> {
    ll: Opl2LL<B>,
    phantom: PhantomData<STATE>,
}

impl<B: ShiftBus, STATE> Opl2<B, STATE> {
    /// The register file of the device.
    pub closed spec fn low_level(&self) -> Opl2LL<B> {
        self.ll
    }

    /// The shadow register image of the device.
    pub open spec fn shadow(&self) -> Seq<u8> {
        self.low_level().shadow()
    }

    /// Performs write `j` of `writes`, entry `index` of `register` set to `value`, after
    /// the writes before it were done from `start`.
    fn write_step(
        &mut self,
        register: Register,
        index: usize,
        value: u8,
        Ghost(start): Ghost<Seq<u8>>,
        Ghost(writes): Ghost<Seq<(u8, u8)>>,
        Ghost(j): Ghost<int>,
    ) -> (r: Result<(), Opl2Error>)
        requires
            index < register.spec_len(),
            0 <= j < writes.len(),
            writes[j] == (address_of(register, index as int), value),
            writes_done(start, old(self).shadow(), writes.take(j), Ok(())),
        ensures
            r is Ok ==> writes_done(start, final(self).shadow(), writes.take(j + 1), Ok(())),
            r is Err ==> device_writes_done(start, final(self).shadow(), writes, r),
    {
        let ghost before = self.shadow();
        let r = self.ll.write_index(register, index, value);
        proof {
            crate::ll::lemma_writes_done_chain(
                start,
                before,
                self.shadow(),
                writes.take(j),
                seq![writes[j]],
                r,
            );
            assert(writes.take(j) + seq![writes[j]] =~= writes.take(j + 1));
            if let Err(LowLevelError::InterfaceError(_)) = r {
                let k = choose|k: int|
                    0 < k <= j + 1 && self.shadow() == apply_writes(
                        start,
                        #[trigger] writes.take(j + 1).take(k),
                    );
                assert(writes.take(j + 1).take(k) =~= writes.take(k));
            }
        }
        match r {
            Ok(()) => Ok(()),
            Err(e) => Err(Opl2Error::from(e)),
        }
    }

    /// Performs write `j` of `writes`, `field` of entry `index` set to `value` with the
    /// rest of the byte kept, after the writes before it were done from `start`.
    fn modify_step(
        &mut self,
        field: Field,
        index: usize,
        value: u8,
        Ghost(start): Ghost<Seq<u8>>,
        Ghost(writes): Ghost<Seq<(u8, u8)>>,
        Ghost(j): Ghost<int>,
    ) -> (r: Result<(), Opl2Error>)
        requires
            index < field.spec_register().spec_len(),
            0 <= j < writes.len(),
            writes[j] == field_write(old(self).shadow(), field, index as int, value),
            writes_done(start, old(self).shadow(), writes.take(j), Ok(())),
        ensures
            r is Ok ==> writes_done(start, final(self).shadow(), writes.take(j + 1), Ok(())),
            r is Err ==> device_writes_done(start, final(self).shadow(), writes, r),
    {
        let ghost before = self.shadow();
        let r = self.ll.modify_index(field, index, value);
        proof {
            crate::ll::lemma_writes_done_chain(
                start,
                before,
                self.shadow(),
                writes.take(j),
                seq![writes[j]],
                r,
            );
            assert(writes.take(j) + seq![writes[j]] =~= writes.take(j + 1));
            if let Err(LowLevelError::InterfaceError(_)) = r {
                let k = choose|k: int|
                    0 < k <= j + 1 && self.shadow() == apply_writes(
                        start,
                        #[trigger] writes.take(j + 1).take(k),
                    );
                assert(writes.take(j + 1).take(k) =~= writes.take(k));
            }
        }
        match r {
            Ok(()) => Ok(()),
            Err(e) => Err(Opl2Error::from(e)),
        }
    }
}

impl<B: ShiftBus> Opl2<B, Uninitialized> {
    /// A device over `interface`, not reset yet. The chip is not touched.
    pub fn new(interface: ShiftInterface<B>) -> (r: Self)
        ensures
            r.low_level().transport() == interface,
    {
        Opl2 { ll: Opl2LL::new(interface), phantom: PhantomData }
    }

    /// Resets the chip and enters melody mode. The shadow image is then all zeros.
    pub fn initialize(self) -> (r: Result<Opl2<B, Melody>, Opl2Error>)
        ensures
            r matches Ok(d) ==> d.shadow() == zeros(REGISTER_SPACE as nat),
            r matches Ok(d) ==> d.low_level().trace() == self.low_level().trace() + reset_ops(),
            r is Err ==> r matches Err(Opl2Error::LowLevelError(LowLevelError::InterfaceError(_))),
    {
        let mut ll = self.ll;
        match ll.reset() {
            Ok(()) => Ok(Opl2 { ll, phantom: PhantomData }),
            Err(e) => Err(Opl2Error::from(LowLevelError::from(e))),
        }
    }
}


impl<B: ShiftBus, INIT: Initialized> Opl2<B, INIT> {
    /// Direct access to the register file.
    pub fn ll(&mut self) -> (r: &mut Opl2LL<B>)
        ensures
            *r == old(self).low_level(),
            final(self).low_level() == *final(r),
    {
        &mut self.ll
    }

    /// Applies `settings` to operator `operator` (0 or 1) of `channel`.
    fn set_operator_settings(
        &mut self,
        channel: usize,
        operator: usize,
        settings: OperatorSettings,
    ) -> (r: Result<(), Opl2Error>)
        requires
            channel < 9,
            operator < 2,
        ensures
            device_writes_done(
                old(self).shadow(),
                final(self).shadow(),
                operator_writes(operator_of(channel as int, operator as int), settings),
                r,
            ),
    {
        let index = operator_index(channel, operator);
        let ghost start = self.shadow();
        let ghost writes = operator_writes(index as int, settings);
        proof {
            lemma_nothing_done(start, writes);
        }
        let r = self.write_step(
            Register::OperatorSettings0,
            index,
            settings.operator_settings0,
            Ghost(start),
            Ghost(writes),
            Ghost(0),
        );
        if r.is_err() {
            return r;
        }
        let r = self.write_step(
            Register::OperatorSettings1,
            index,
            settings.operator_settings1,
            Ghost(start),
            Ghost(writes),
            Ghost(1),
        );
        if r.is_err() {
            return r;
        }
        let r = self.write_step(
            Register::OperatorSettings2,
            index,
            settings.operator_settings2,
            Ghost(start),
            Ghost(writes),
            Ghost(2),
        );
        if r.is_err() {
            return r;
        }
        let r = self.write_step(
            Register::OperatorSettings3,
            index,
            settings.operator_settings3,
            Ghost(start),
            Ghost(writes),
            Ghost(3),
        );
        if r.is_err() {
            return r;
        }
        let r = self.write_step(
            Register::OperatorSettings4,
            index,
            settings.operator_settings4,
            Ghost(start),
            Ghost(writes),
            Ghost(4),
        );
        if r.is_err() {
            return r;
        }
        assert(writes.take(5) =~= writes);
        Ok(())
    }

    /// Applies a two-operator timbre to `channel`: the first operator, the channel
    /// synthesis byte, then the second operator.
    fn setup_voice(
        &mut self,
        channel: usize,
        operator_0: OperatorSettings,
        channel_settings2: u8,
        operator_1: OperatorSettings,
    ) -> (r: Result<(), Opl2Error>)
        requires
            channel < 9,
        ensures
            device_writes_done(
                old(self).shadow(),
                final(self).shadow(),
                voice_writes(channel as int, operator_0, channel_settings2, operator_1),
                r,
            ),
    {
        let ghost s0 = self.shadow();
        let ghost first = operator_writes(operator_of(channel as int, 0), operator_0);
        let ghost synthesis = seq![
            (address_of(Register::ChannelSettings2, channel as int), channel_settings2),
        ];
        let ghost second = operator_writes(operator_of(channel as int, 1), operator_1);
        assert(voice_writes(channel as int, operator_0, channel_settings2, operator_1) =~= first
            + synthesis + second);
        let r = self.set_operator_settings(channel, 0, operator_0);
        if r.is_err() {
            proof {
                lemma_abandoned(s0, self.shadow(), first, synthesis + second, r);
                assert(first + (synthesis + second) =~= first + synthesis + second);
            }
            return r;
        }
        let ghost s1 = self.shadow();
        proof {
            lemma_nothing_done(s1, synthesis);
        }
        let r = self.write_step(
            Register::ChannelSettings2,
            channel,
            channel_settings2,
            Ghost(s1),
            Ghost(synthesis),
            Ghost(0),
        );
        proof {
            assert(synthesis.take(1) =~= synthesis);
            lemma_then(s0, s1, self.shadow(), first, synthesis, r);
        }
        if r.is_err() {
            proof {
                lemma_abandoned(s0, self.shadow(), first + synthesis, second, r);
            }
            return r;
        }
        let ghost s2 = self.shadow();
        let r = self.set_operator_settings(channel, 1, operator_1);
        proof {
            lemma_then(s0, s2, self.shadow(), first + synthesis, second, r);
        }
        r
    }

    /// Applies `value` to `channel`: its first operator, its synthesis byte, then its
    /// second operator, through the channel's operator pair.
    pub fn setup_melody_instrument(&mut self, channel: usize, value: MelodyInstrument) -> (r:
        Result<(), Opl2Error>)
        ensures
            channel >= INIT::channel_bound() ==> r == Err::<(), Opl2Error>(
                Opl2Error::InvalidChannel,
            ) && final(self).shadow() == old(self).shadow(),
            channel < INIT::channel_bound() ==> device_writes_done(
                old(self).shadow(),
                final(self).shadow(),
                voice_writes(
                    channel as int,
                    value.operator_0,
                    value.channel_settings2,
                    value.operator_1,
                ),
                r,
            ),
    {
        if channel >= INIT::channel_count() {
            return Err(Opl2Error::InvalidChannel);
        }
        self.setup_voice(channel, value.operator_0, value.channel_settings2, value.operator_1)
    }

    /// Starts `note` on `channel`: writes the low byte of the frequency number, then the
    /// high frequency bits, the octave and key-on together in one byte.
    pub fn start_channel(&mut self, channel: usize, note: Note) -> (r: Result<(), Opl2Error>)
        ensures
            channel >= INIT::channel_bound() ==> r == Err::<(), Opl2Error>(
                Opl2Error::InvalidChannel,
            ) && final(self).shadow() == old(self).shadow(),
            channel < INIT::channel_bound() ==> device_writes_done(
                old(self).shadow(),
                final(self).shadow(),
                start_writes(channel as int, note),
                r,
            ),
    {
        if channel >= INIT::channel_count() {
            return Err(Opl2Error::InvalidChannel);
        }
        let frequency = note.get_frequency();
        let octave = note.get_octave();
        let low = (frequency & 0xff) as u8;
        let high = ((frequency & 0x300) >> 8) as u8;
        let control = crate::ll::set_field(
            crate::ll::set_field(
                crate::ll::set_field(0, Field::FrequencyNumberHigh, high),
                Field::BlockNumber,
                octave,
            ),
            Field::KeyOn,
            1,
        );
        let ghost s0 = self.shadow();
        let ghost writes = start_writes(channel as int, note);
        proof {
            lemma_nothing_done(s0, writes);
        }
        let r = self.write_step(
            Register::ChannelSettings0,
            channel,
            low,
            Ghost(s0),
            Ghost(writes),
            Ghost(0),
        );
        if r.is_err() {
            return r;
        }
        let r = self.write_step(
            Register::ChannelSettings1,
            channel,
            control,
            Ghost(s0),
            Ghost(writes),
            Ghost(1),
        );
        assert(writes.take(2) =~= writes);
        r
    }

    /// Silences `channel`: clears its key-on bit and leaves its frequency and octave.
    pub fn stop_channel(&mut self, channel: usize) -> (r: Result<(), Opl2Error>)
        ensures
            channel >= INIT::channel_bound() ==> r == Err::<(), Opl2Error>(
                Opl2Error::InvalidChannel,
            ) && final(self).shadow() == old(self).shadow(),
            channel < INIT::channel_bound() ==> device_writes_done(
                old(self).shadow(),
                final(self).shadow(),
                stop_writes(old(self).shadow(), channel as int),
                r,
            ),
    {
        if channel >= INIT::channel_count() {
            return Err(Opl2Error::InvalidChannel);
        }
        let ghost s0 = self.shadow();
        let ghost writes = stop_writes(s0, channel as int);
        proof {
            lemma_nothing_done(s0, writes);
        }
        let r = self.modify_step(Field::KeyOn, channel, 0, Ghost(s0), Ghost(writes), Ghost(0));
        assert(writes.take(1) =~= writes);
        r
    }
}

impl<B: ShiftBus> Opl2<B, Melody> {
    /// Enters rhythm mode: clears key-on of channels 6, 7 and 8, which become percussion
    /// voices, then sets the mode bit to percussion.
    pub fn into_rhythm_mode(self) -> (r: Result<Opl2<B, Rhythm>, Opl2Error>)
        ensures
            r matches Ok(d) ==> writes_done(
                self.shadow(),
                d.shadow(),
                rhythm_entry_writes(self.shadow()),
                Ok(()),
            ),
            r is Err ==> r matches Err(Opl2Error::LowLevelError(LowLevelError::InterfaceError(_))),
    {
        let mut device = self;
        let ghost s0 = device.shadow();
        let ghost writes = rhythm_entry_writes(s0);
        proof {
            device.ll.lemma_shadow_len();
            lemma_nothing_done(s0, writes);
        }
        let mut channel: usize = 6;
        while channel <= 8
            invariant
                6 <= channel <= 9,
                writes == rhythm_entry_writes(s0),
                s0.len() == REGISTER_SPACE,
                writes_done(s0, device.shadow(), writes.take(channel - 6), Ok(())),
            decreases 9 - channel,
        {
            proof {
                lemma_apply_writes_untouched(
                    s0,
                    writes.take(channel - 6),
                    Register::ChannelSettings1.spec_address(channel as int),
                );
            }
            let r = device.modify_step(
                Field::KeyOn,
                channel,
                0,
                Ghost(s0),
                Ghost(writes),
                Ghost(channel - 6),
            );
            if let Err(e) = r {
                return Err(e);
            }
            channel = channel + 1;
        }
        proof {
            lemma_apply_writes_untouched(s0, writes.take(3), 0xBD);
        }
        let r = device.modify_step(
            Field::InstrumentMode,
            0,
            InstrumentMode::Percussion.bits(),
            Ghost(s0),
            Ghost(writes),
            Ghost(3),
        );
        if let Err(e) = r {
            return Err(e);
        }
        assert(writes.take(4) =~= writes);
        Ok(Opl2 { ll: device.ll, phantom: PhantomData })
    }
}

impl<B: ShiftBus> Opl2<B, Rhythm> {
    /// Leaves rhythm mode: sets the mode bit to melodic. Channels 6 to 8 keep whatever
    /// the percussion voices left in their registers.
    pub fn into_melody_mode(self) -> (r: Result<Opl2<B, Melody>, Opl2Error>)
        ensures
            r matches Ok(d) ==> writes_done(
                self.shadow(),
                d.shadow(),
                melody_entry_writes(self.shadow()),
                Ok(()),
            ),
            r is Err ==> r matches Err(Opl2Error::LowLevelError(LowLevelError::InterfaceError(_))),
    {
        let mut device = self;
        let ghost s0 = device.shadow();
        let ghost writes = melody_entry_writes(s0);
        proof {
            lemma_nothing_done(s0, writes);
        }
        let r = device.modify_step(
            Field::InstrumentMode,
            0,
            InstrumentMode::Melodic.bits(),
            Ghost(s0),
            Ghost(writes),
            Ghost(0),
        );
        if let Err(e) = r {
            return Err(e);
        }
        assert(writes.take(1) =~= writes);
        Ok(Opl2 { ll: device.ll, phantom: PhantomData })
    }

    /// Turns the percussion voice of `field` on or off, keeping the other bits of the
    /// rhythm register.
    fn toggle_voice(&mut self, field: Field, value: bool) -> (r: Result<(), Opl2Error>)
        requires
            field.spec_register() == Register::RhythmSettings,
        ensures
            device_writes_done(
                old(self).shadow(),
                final(self).shadow(),
                voice_toggle_writes(old(self).shadow(), field, value),
                r,
            ),
    {
        let ghost s0 = self.shadow();
        let ghost writes = voice_toggle_writes(s0, field, value);
        proof {
            lemma_nothing_done(s0, writes);
        }
        let bit: u8 = if value {
            1
        } else {
            0
        };
        let r = self.modify_step(field, 0, bit, Ghost(s0), Ghost(writes), Ghost(0));
        assert(writes.take(1) =~= writes);
        r
    }
    /// Turns the bass drum on or off; the other bits of the rhythm register stay.
    pub fn bass_drum(&mut self, value: bool) -> (r: Result<(), Opl2Error>)
        ensures
            device_writes_done(
                old(self).shadow(),
                final(self).shadow(),
                voice_toggle_writes(old(self).shadow(), Field::BassDrumOn, value),
                r,
            ),
    {
        self.toggle_voice(Field::BassDrumOn, value)
    }

    /// Applies `value` to the bass drum's channel 6: its first operator, its synthesis
    /// byte, then its second operator.
    pub fn setup_bass_drum(&mut self, value: BassDrum) -> (r: Result<(), Opl2Error>)
        ensures
            device_writes_done(
                old(self).shadow(),
                final(self).shadow(),
                voice_writes(
                    BassDrum::CHANNEL as int,
                    value.operator_0,
                    value.channel_settings2,
                    value.operator_1,
                ),
                r,
            ),
    {
        self.setup_voice(
            BassDrum::CHANNEL,
            value.operator_0,
            value.channel_settings2,
            value.operator_1,
        )
    }

    /// Turns the snare drum on or off; the other bits of the rhythm register stay.
    pub fn snare_drum(&mut self, value: bool) -> (r: Result<(), Opl2Error>)
        ensures
            device_writes_done(
                old(self).shadow(),
                final(self).shadow(),
                voice_toggle_writes(old(self).shadow(), Field::SnareDrumOn, value),
                r,
            ),
    {
        self.toggle_voice(Field::SnareDrumOn, value)
    }

    /// Applies `value` to the snare drum's operator, the fixed operator slot of its channel.
    pub fn setup_snare_drum(&mut self, value: SnareDrum) -> (r: Result<(), Opl2Error>)
        ensures
            device_writes_done(
                old(self).shadow(),
                final(self).shadow(),
                operator_writes(
                    operator_of(SnareDrum::CHANNEL as int, SnareDrum::OPERATOR as int),
                    value.operator,
                ),
                r,
            ),
    {
        self.set_operator_settings(SnareDrum::CHANNEL, SnareDrum::OPERATOR, value.operator)
    }

    /// Turns the tom-tom on or off; the other bits of the rhythm register stay.
    pub fn tom_tom(&mut self, value: bool) -> (r: Result<(), Opl2Error>)
        ensures
            device_writes_done(
                old(self).shadow(),
                final(self).shadow(),
                voice_toggle_writes(old(self).shadow(), Field::TomTomOn, value),
                r,
            ),
    {
        self.toggle_voice(Field::TomTomOn, value)
    }

    /// Applies `value` to the tom-tom's operator, the fixed operator slot of its channel.
    pub fn setup_tom_tom(&mut self, value: TomTom) -> (r: Result<(), Opl2Error>)
        ensures
            device_writes_done(
                old(self).shadow(),
                final(self).shadow(),
                operator_writes(
                    operator_of(TomTom::CHANNEL as int, TomTom::OPERATOR as int),
                    value.operator,
                ),
                r,
            ),
    {
        self.set_operator_settings(TomTom::CHANNEL, TomTom::OPERATOR, value.operator)
    }

    /// Turns the cymbal on or off; the other bits of the rhythm register stay.
    pub fn cymbal(&mut self, value: bool) -> (r: Result<(), Opl2Error>)
        ensures
            device_writes_done(
                old(self).shadow(),
                final(self).shadow(),
                voice_toggle_writes(old(self).shadow(), Field::CymbalOn, value),
                r,
            ),
    {
        self.toggle_voice(Field::CymbalOn, value)
    }

    /// Applies `value` to the cymbal's operator, the fixed operator slot of its channel.
    pub fn setup_cymbal(&mut self, value: Cymbal) -> (r: Result<(), Opl2Error>)
        ensures
            device_writes_done(
                old(self).shadow(),
                final(self).shadow(),
                operator_writes(
                    operator_of(Cymbal::CHANNEL as int, Cymbal::OPERATOR as int),
                    value.operator,
                ),
                r,
            ),
    {
        self.set_operator_settings(Cymbal::CHANNEL, Cymbal::OPERATOR, value.operator)
    }

    /// Turns the hi-hat on or off; the other bits of the rhythm register stay.
    pub fn hi_hat(&mut self, value: bool) -> (r: Result<(), Opl2Error>)
        ensures
            device_writes_done(
                old(self).shadow(),
                final(self).shadow(),
                voice_toggle_writes(old(self).shadow(), Field::HiHatOn, value),
                r,
            ),
    {
        self.toggle_voice(Field::HiHatOn, value)
    }

    /// Applies `value` to the hi-hat's operator, the fixed operator slot of its channel.
    pub fn setup_hi_hat(&mut self, value: HiHat) -> (r: Result<(), Opl2Error>)
        ensures
            device_writes_done(
                old(self).shadow(),
                final(self).shadow(),
                operator_writes(
                    operator_of(HiHat::CHANNEL as int, HiHat::OPERATOR as int),
                    value.operator,
                ),
                r,
            ),
    {
        self.set_operator_settings(HiHat::CHANNEL, HiHat::OPERATOR, value.operator)
    }
}

} // verus!
