use opl2::hl::{Initialized, Melody, Note, Opl2, Opl2Error, Rhythm, Uninitialized};
use opl2::interface::{InterfaceError, ShiftBus, ShiftInterface};
use opl2::ll::{get_field, Field, InstrumentMode, LowLevelError, Register};
use opl2::presets;

/// A bus that counts its steps and fails the step with the given number.
struct CountingBus {
    steps: usize,
    fail_at: Option<usize>,
}

impl CountingBus {
    fn step(&mut self) -> Result<(), ()> {
        let n = self.steps;
        self.steps += 1;
        if Some(n) == self.fail_at {
            Err(())
        } else {
            Ok(())
        }
    }
}

impl ShiftBus for CountingBus {
    fn set_address_pin(&mut self, _high: bool) -> Result<(), ()> {
        self.step()
    }
    fn set_latch_pin(&mut self, _high: bool) -> Result<(), ()> {
        self.step()
    }
    fn set_reset_pin(&mut self, _high: bool) -> Result<(), ()> {
        self.step()
    }
    fn send_byte(&mut self, _byte: u8) -> Result<(), ()> {
        self.step()
    }
    fn delay_us(&mut self, _us: u8) {
        let _ = self.step();
    }
    fn delay_ms(&mut self, _ms: u8) {
        let _ = self.step();
    }
}

/// Steps taken by a reset: the pulse, then 255 bytes of twelve steps.
const RESET_STEPS: usize = 6 + 255 * 12;

fn device(fail_at: Option<usize>) -> Opl2<CountingBus, Uninitialized> {
    Opl2::new(ShiftInterface::new(CountingBus { steps: 0, fail_at }))
}

fn melody() -> Opl2<CountingBus, Melody> {
    device(None).initialize().unwrap()
}

fn rhythm() -> Opl2<CountingBus, Rhythm> {
    melody().into_rhythm_mode().unwrap()
}

const REGISTERS: [Register; 14] = [
    Register::WaveformSelectEnable,
    Register::Timer1Count,
    Register::Timer2Count,
    Register::TimerControl,
    Register::NoteSelect,
    Register::OperatorSettings0,
    Register::OperatorSettings1,
    Register::OperatorSettings2,
    Register::OperatorSettings3,
    Register::ChannelSettings0,
    Register::ChannelSettings1,
    Register::RhythmSettings,
    Register::ChannelSettings2,
    Register::OperatorSettings4,
];

/// Every register address with the byte the shadow image holds there.
fn image<S: Initialized>(d: &mut Opl2<CountingBus, S>) -> Vec<(u8, u8)> {
    let mut out = Vec::new();
    for register in REGISTERS {
        for index in 0..register.len() {
            let value = d.ll().read_index(register, index).unwrap();
            out.push((register.base() + index as u8, value));
        }
    }
    out
}

fn byte_at<S: Initialized>(d: &mut Opl2<CountingBus, S>, address: u8) -> u8 {
    image(d).into_iter().find(|(a, _)| *a == address).unwrap().1
}

/// The addresses at which two images differ.
fn changed(before: &[(u8, u8)], after: &[(u8, u8)]) -> Vec<u8> {
    before
        .iter()
        .zip(after.iter())
        .filter(|(b, a)| b.1 != a.1)
        .map(|(b, _)| b.0)
        .collect()
}

#[test]
fn initialize_zeroes_the_image() {
    let mut iface = ShiftInterface::new(CountingBus { steps: 0, fail_at: None });
    assert_eq!(iface.write_register(0x20, &[1, 2, 3]), Ok(()));
    assert_eq!(iface.write_register(0xBD, &[0xFF]), Ok(()));
    let mut d = Opl2::new(iface).initialize().unwrap();
    assert!(image(&mut d).iter().all(|(_, v)| *v == 0));
}

#[test]
fn initialize_reports_line_failure() {
    let r = device(Some(0)).initialize();
    assert!(matches!(
        r,
        Err(Opl2Error::LowLevelError(LowLevelError::InterfaceError(InterfaceError::LatchPinError)))
    ));
}

#[test]
fn channel_counts_per_mode() {
    assert_eq!(Melody::channel_count(), 9);
    assert_eq!(Rhythm::channel_count(), 6);
}

#[test]
fn elpiano_on_channel_zero_playing_a4() {
    let mut d = melody();
    assert_eq!(d.setup_melody_instrument(0, presets::elpiano1()), Ok(()));
    assert_eq!(d.start_channel(0, Note::A(4)), Ok(()));
    // operator 0 of channel 0
    assert_eq!(byte_at(&mut d, 0x20), 0x01);
    assert_eq!(byte_at(&mut d, 0x40), 0x4F);
    assert_eq!(byte_at(&mut d, 0x60), 0xF1);
    assert_eq!(byte_at(&mut d, 0x80), 0x50);
    assert_eq!(byte_at(&mut d, 0xE0), 0x00);
    // synthesis byte
    assert_eq!(byte_at(&mut d, 0xC0), 0x06);
    // operator 3 of channel 0
    assert_eq!(byte_at(&mut d, 0x23), 0x01);
    assert_eq!(byte_at(&mut d, 0x43), 0x04);
    assert_eq!(byte_at(&mut d, 0x63), 0xD2);
    assert_eq!(byte_at(&mut d, 0x83), 0x7C);
    assert_eq!(byte_at(&mut d, 0xE3), 0x00);
    // frequency and control
    assert_eq!(byte_at(&mut d, 0xA0), 0x41);
    let control = byte_at(&mut d, 0xB0);
    assert_eq!(get_field(control, Field::FrequencyNumberHigh), 0b10);
    assert_eq!(get_field(control, Field::BlockNumber), 4);
    assert_eq!(get_field(control, Field::KeyOn), 1);
    assert_eq!(control, 0x32);
}

#[test]
fn melody_instrument_uses_the_channel_operator_pair() {
    let mut d = melody();
    let before = image(&mut d);
    assert_eq!(d.setup_melody_instrument(4, presets::strings1()), Ok(()));
    let after = image(&mut d);
    // channel 4 owns operators 9 and 12; the first operator's waveform byte is zero, as
    // the image already held
    let mut expected = vec![0x29, 0x2C, 0x49, 0x4C, 0x69, 0x6C, 0x89, 0x8C, 0xC4, 0xEC];
    expected.sort();
    let mut got = changed(&before, &after);
    got.sort();
    assert_eq!(got, expected);
    assert_eq!(byte_at(&mut d, 0x29), 0xB1);
    assert_eq!(byte_at(&mut d, 0x2C), 0x61);
    assert_eq!(byte_at(&mut d, 0xEC), 0x01);
}

#[test]
fn stop_after_start_clears_key_on_only() {
    let mut d = melody();
    assert_eq!(d.start_channel(3, Note::Fs(6)), Ok(()));
    let started = byte_at(&mut d, 0xB3);
    assert_eq!(d.stop_channel(3), Ok(()));
    let stopped = byte_at(&mut d, 0xB3);
    assert_eq!(get_field(stopped, Field::KeyOn), 0);
    assert_eq!(stopped, started & !0x20);
    assert_eq!(get_field(stopped, Field::BlockNumber), 6);
    assert_eq!(get_field(stopped, Field::FrequencyNumberHigh), 0x1);
    assert_eq!(byte_at(&mut d, 0xA3), 0xE5);
}

#[test]
fn start_masks_the_octave_to_three_bits() {
    let mut d = melody();
    assert_eq!(d.start_channel(1, Note::C(9)), Ok(()));
    let control = byte_at(&mut d, 0xB1);
    assert_eq!(get_field(control, Field::BlockNumber), 1);
    assert_eq!(get_field(control, Field::KeyOn), 1);
    assert_eq!(byte_at(&mut d, 0xA1), 0x57);
}

#[test]
fn melody_rejects_channel_nine() {
    let mut d = melody();
    let before = image(&mut d);
    assert_eq!(d.start_channel(9, Note::A(4)), Err(Opl2Error::InvalidChannel));
    assert_eq!(d.stop_channel(9), Err(Opl2Error::InvalidChannel));
    assert_eq!(
        d.setup_melody_instrument(9, presets::guitar1()),
        Err(Opl2Error::InvalidChannel)
    );
    assert_eq!(d.start_channel(200, Note::A(4)), Err(Opl2Error::InvalidChannel));
    assert_eq!(image(&mut d), before);
}

#[test]
fn melody_accepts_channel_eight() {
    let mut d = melody();
    assert_eq!(d.start_channel(8, Note::B(2)), Ok(()));
    assert_eq!(byte_at(&mut d, 0xA8), 0x87);
}

#[test]
fn rhythm_rejects_channel_six() {
    let mut d = rhythm();
    let before = image(&mut d);
    assert_eq!(d.start_channel(6, Note::A(4)), Err(Opl2Error::InvalidChannel));
    assert_eq!(d.stop_channel(6), Err(Opl2Error::InvalidChannel));
    assert_eq!(
        d.setup_melody_instrument(6, presets::guitar1()),
        Err(Opl2Error::InvalidChannel)
    );
    assert_eq!(image(&mut d), before);
    assert_eq!(d.start_channel(5, Note::A(4)), Ok(()));
}

#[test]
fn entering_rhythm_mode_silences_channels_six_to_eight() {
    let mut d = melody();
    for channel in 5..9 {
        assert_eq!(d.start_channel(channel, Note::E(3)), Ok(()));
    }
    let mut d = d.into_rhythm_mode().unwrap();
    for address in [0xB6, 0xB7, 0xB8] {
        let control = byte_at(&mut d, address);
        assert_eq!(get_field(control, Field::KeyOn), 0);
        assert_eq!(get_field(control, Field::BlockNumber), 3);
    }
    assert_eq!(get_field(byte_at(&mut d, 0xB5), Field::KeyOn), 1);
    let mode = byte_at(&mut d, 0xBD);
    assert_eq!(get_field(mode, Field::InstrumentMode), InstrumentMode::Percussion.bits());
}

#[test]
fn mode_round_trip_restores_melodic_bit_only() {
    let mut d = melody();
    assert_eq!(d.start_channel(7, Note::G(5)), Ok(()));
    let mut d = d.into_rhythm_mode().unwrap();
    assert_eq!(d.hi_hat(true), Ok(()));
    let mut d = d.into_melody_mode().unwrap();
    let mode = byte_at(&mut d, 0xBD);
    assert_eq!(get_field(mode, Field::InstrumentMode), InstrumentMode::Melodic.bits());
    assert_eq!(get_field(mode, Field::HiHatOn), 1);
    let control = byte_at(&mut d, 0xB7);
    assert_eq!(get_field(control, Field::KeyOn), 0);
    assert_eq!(get_field(control, Field::BlockNumber), 5);
    assert_eq!(byte_at(&mut d, 0xA7), 0x02);
}

#[test]
fn drum_toggles_touch_only_their_bit() {
    let mut d = rhythm();
    assert_eq!(d.bass_drum(true), Ok(()));
    assert_eq!(d.snare_drum(true), Ok(()));
    assert_eq!(d.bass_drum(false), Ok(()));
    let mode = byte_at(&mut d, 0xBD);
    assert_eq!(get_field(mode, Field::SnareDrumOn), 1);
    assert_eq!(get_field(mode, Field::BassDrumOn), 0);
    assert_eq!(get_field(mode, Field::TomTomOn), 0);
    assert_eq!(get_field(mode, Field::CymbalOn), 0);
    assert_eq!(get_field(mode, Field::HiHatOn), 0);
    assert_eq!(get_field(mode, Field::InstrumentMode), 1);
    assert_eq!(mode, 0x28);
}

#[test]
fn every_drum_toggle_sets_its_bit() {
    let mut d = rhythm();
    assert_eq!(d.tom_tom(true), Ok(()));
    assert_eq!(byte_at(&mut d, 0xBD), 0x24);
    assert_eq!(d.cymbal(true), Ok(()));
    assert_eq!(byte_at(&mut d, 0xBD), 0x26);
    assert_eq!(d.hi_hat(true), Ok(()));
    assert_eq!(byte_at(&mut d, 0xBD), 0x27);
    assert_eq!(d.tom_tom(false), Ok(()));
    assert_eq!(byte_at(&mut d, 0xBD), 0x23);
}

#[test]
fn bass_drum_setup_writes_channel_six_only() {
    let mut d = rhythm();
    for address in [0x30u8, 0x50, 0x70, 0x90, 0xF0, 0x33, 0x53, 0x73, 0x93, 0xF3] {
        let (register, index) = match address & 0xE0 {
            0x20 => (Register::OperatorSettings0, address - 0x20),
            0x40 => (Register::OperatorSettings1, address - 0x40),
            0x60 => (Register::OperatorSettings2, address - 0x60),
            0x80 => (Register::OperatorSettings3, address - 0x80),
            _ => (Register::OperatorSettings4, address - 0xE0),
        };
        assert_eq!(d.ll().write_index(register, index as usize, 0xFF), Ok(()));
    }
    assert_eq!(d.ll().write_index(Register::ChannelSettings2, 6, 0xFF), Ok(()));
    let before = image(&mut d);
    assert_eq!(d.setup_bass_drum(presets::bdrum1()), Ok(()));
    let after = image(&mut d);
    let mut got = changed(&before, &after);
    got.sort();
    let mut expected = vec![0x30, 0x50, 0x70, 0x90, 0xF0, 0xC6, 0x33, 0x53, 0x73, 0x93, 0xF3];
    expected.sort();
    assert_eq!(got, expected);
    let bytes = [0x00, 0x00, 0x00, 0x00, 0x00, 0x00, 0x00, 0x0B, 0xA8, 0x4C, 0x00];
    let order = [0x30u8, 0x50, 0x70, 0x90, 0xF0, 0xC6, 0x33, 0x53, 0x73, 0x93, 0xF3];
    for (address, value) in order.iter().zip(bytes.iter()) {
        assert_eq!(byte_at(&mut d, *address), *value);
    }
}

#[test]
fn single_operator_voices_use_their_fixed_slot() {
    let mut d = rhythm();
    assert_eq!(d.setup_snare_drum(presets::snare1()), Ok(()));
    assert_eq!(d.setup_hi_hat(presets::hihat2()), Ok(()));
    assert_eq!(d.setup_tom_tom(presets::tom2()), Ok(()));
    assert_eq!(d.setup_cymbal(presets::laser()), Ok(()));
    // snare: channel 7, second operator (20)
    assert_eq!(byte_at(&mut d, 0x34), 0x0C);
    assert_eq!(byte_at(&mut d, 0x74), 0xF8);
    // hi-hat: channel 7, first operator (17)
    assert_eq!(byte_at(&mut d, 0x31), 0x01);
    assert_eq!(byte_at(&mut d, 0x51), 0x03);
    // tom-tom: channel 8, first operator (18)
    assert_eq!(byte_at(&mut d, 0x32), 0x02);
    assert_eq!(byte_at(&mut d, 0x92), 0x97);
    // cymbal: channel 8, second operator (21)
    assert_eq!(byte_at(&mut d, 0x35), 0xE6);
    assert_eq!(byte_at(&mut d, 0x75), 0x25);
}

#[test]
fn line_failure_mid_instrument_keeps_earlier_writes() {
    // after the reset, the first register write takes twelve steps; step 12 + 2 is the
    // first latch pulse of the second write
    let mut d = device(Some(RESET_STEPS + 12 + 2)).initialize().unwrap();
    let r = d.setup_melody_instrument(0, presets::guitar1());
    assert_eq!(
        r,
        Err(Opl2Error::LowLevelError(LowLevelError::InterfaceError(
            InterfaceError::LatchPinError
        )))
    );
    assert_eq!(byte_at(&mut d, 0x20), 0x01);
    assert_eq!(byte_at(&mut d, 0x40), 0x11);
    assert_eq!(byte_at(&mut d, 0x60), 0x00);
    // the device stays usable
    assert_eq!(d.start_channel(0, Note::D(2)), Ok(()));
}

#[test]
fn conversion_failure_is_reported() {
    let d = device(Some(RESET_STEPS + 1)).initialize().unwrap();
    assert!(matches!(
        d.into_rhythm_mode(),
        Err(Opl2Error::LowLevelError(LowLevelError::InterfaceError(
            InterfaceError::CommunicationError
        )))
    ));
}

#[test]
fn low_level_error_converts() {
    let e = Opl2Error::from(LowLevelError::IndexOutOfRange);
    assert_eq!(e, Opl2Error::LowLevelError(LowLevelError::IndexOutOfRange));
}

#[test]
fn note_frequencies_and_octaves() {
    let notes = [
        (Note::C(0), 0x157),
        (Note::Cs(1), 0x16B),
        (Note::D(2), 0x181),
        (Note::Eb(3), 0x198),
        (Note::E(4), 0x1B0),
        (Note::F(5), 0x1CA),
        (Note::Fs(6), 0x1E5),
        (Note::G(7), 0x202),
        (Note::Ab(0), 0x220),
        (Note::A(4), 0x241),
        (Note::Bb(2), 0x263),
        (Note::B(3), 0x287),
    ];
    for (note, frequency) in notes {
        assert_eq!(note.get_frequency(), frequency);
    }
    assert_eq!(Note::Fs(6).get_octave(), 6);
    assert_eq!(Note::B(3).get_octave(), 3);
}
