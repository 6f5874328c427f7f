use opl2::bits::{get_bits, set_bits};
use opl2::interface::{ShiftBus, ShiftInterface};
use opl2::ll::{
    get_field, set_field, Field, InstrumentMode, LowLevelError, ModulatorFrequencyMultiple,
    Opl2LL, Register, ScalingLevel, SynthesisType, TremoloDepth, VibratoDepth, WaveformType,
};

struct QuietBus;

impl ShiftBus for QuietBus {
    fn set_address_pin(&mut self, _high: bool) -> Result<(), ()> {
        Ok(())
    }
    fn set_latch_pin(&mut self, _high: bool) -> Result<(), ()> {
        Ok(())
    }
    fn set_reset_pin(&mut self, _high: bool) -> Result<(), ()> {
        Ok(())
    }
    fn send_byte(&mut self, _byte: u8) -> Result<(), ()> {
        Ok(())
    }
    fn delay_us(&mut self, _us: u8) {}
    fn delay_ms(&mut self, _ms: u8) {}
}

fn register_file() -> Opl2LL<QuietBus> {
    Opl2LL::new(ShiftInterface::new(QuietBus))
}

#[test]
fn bit_ranges_extract_and_insert() {
    assert_eq!(get_bits(0b1011_0110, 2, 4), 0b101);
    assert_eq!(set_bits(0b1111_1111, 2, 4, 0b010), 0b1110_1011);
    // bits of the value that do not fit are dropped
    assert_eq!(set_bits(0, 6, 7, 0xFF), 0b1100_0000);
    assert_eq!(set_bits(0xFF, 0, 7, 0x5A), 0x5A);
}

#[test]
fn fields_read_their_bits() {
    assert_eq!(get_field(0x32, Field::KeyOn), 1);
    assert_eq!(get_field(0x32, Field::BlockNumber), 4);
    assert_eq!(get_field(0x32, Field::FrequencyNumberHigh), 2);
    assert_eq!(get_field(0xC5, Field::LevelKeyScaling), 3);
    assert_eq!(get_field(0xC5, Field::OutputLevel), 5);
    assert_eq!(get_field(0x0E, Field::Feedback), 7);
    assert_eq!(get_field(0x0E, Field::SynthesisType), 0);
}

#[test]
fn setting_a_field_keeps_the_others() {
    let byte = 0b1010_1010;
    let updated = set_field(byte, Field::AttackRate, 0x3);
    assert_eq!(get_field(updated, Field::AttackRate), 0x3);
    assert_eq!(get_field(updated, Field::DecayRate), get_field(byte, Field::DecayRate));
    assert_eq!(set_field(0, Field::OutputLevel, 0xFF), 0x3F);
}

#[test]
fn field_layouts() {
    assert_eq!(Field::KeyOn.layout(), (Register::ChannelSettings1, 5, 5));
    assert_eq!(Field::Test0.layout(), (Register::WaveformSelectEnable, 6, 7));
    assert_eq!(Field::Waveform.layout(), (Register::OperatorSettings4, 0, 1));
    assert_eq!(Field::HiHatOn.layout(), (Register::RhythmSettings, 0, 0));
}

#[test]
fn register_addresses() {
    assert_eq!(Register::WaveformSelectEnable.base(), 0x01);
    assert_eq!(Register::TimerControl.base(), 0x04);
    assert_eq!(Register::NoteSelect.base(), 0x08);
    assert_eq!(Register::RhythmSettings.base(), 0xBD);
    assert_eq!(Register::OperatorSettings4.base(), 0xE0);
    assert_eq!(Register::OperatorSettings0.len(), 22);
    assert_eq!(Register::ChannelSettings1.len(), 9);
    assert_eq!(Register::Timer1Count.len(), 1);
}

#[test]
fn index_past_the_register_is_rejected() {
    let mut ll = register_file();
    assert_eq!(
        ll.read_index(Register::ChannelSettings0, 9),
        Err(LowLevelError::IndexOutOfRange)
    );
    assert_eq!(
        ll.write_index(Register::OperatorSettings2, 22, 1),
        Err(LowLevelError::IndexOutOfRange)
    );
    assert_eq!(ll.modify_index(Field::KeyOn, 9, 1), Err(LowLevelError::IndexOutOfRange));
    assert_eq!(ll.read_index(Register::OperatorSettings2, 21), Ok(0));
}

#[test]
fn write_index_then_read_index() {
    let mut ll = register_file();
    assert_eq!(ll.write_index(Register::OperatorSettings3, 21, 0x7C), Ok(()));
    assert_eq!(ll.read_index(Register::OperatorSettings3, 21), Ok(0x7C));
    assert_eq!(ll.read_index(Register::OperatorSettings3, 20), Ok(0));
}

#[test]
fn modify_index_keeps_other_fields() {
    let mut ll = register_file();
    assert_eq!(ll.write_index(Register::ChannelSettings1, 2, 0x3B), Ok(()));
    assert_eq!(ll.modify_index(Field::KeyOn, 2, 0), Ok(()));
    let byte = ll.read_index(Register::ChannelSettings1, 2).unwrap();
    assert_eq!(byte, 0x1B);
    assert_eq!(get_field(byte, Field::BlockNumber), 6);
    assert_eq!(get_field(byte, Field::FrequencyNumberHigh), 3);
}

#[test]
fn plain_register_read_write_modify() {
    let mut ll = register_file();
    assert_eq!(ll.write(Register::Timer1Count, 0x80), Ok(()));
    assert_eq!(ll.read(Register::Timer1Count), 0x80);
    assert_eq!(ll.write(Register::RhythmSettings, 0xC0), Ok(()));
    assert_eq!(ll.modify(Field::InstrumentMode, 1), Ok(()));
    assert_eq!(ll.read(Register::RhythmSettings), 0xE0);
    assert_eq!(ll.modify(Field::TremoloDepth, 0), Ok(()));
    assert_eq!(ll.read(Register::RhythmSettings), 0x60);
}

#[test]
fn reset_through_register_file() {
    let mut ll = register_file();
    assert_eq!(ll.write(Register::NoteSelect, 0x40), Ok(()));
    assert_eq!(ll.reset(), Ok(()));
    assert_eq!(ll.read(Register::NoteSelect), 0);
    let _transport = ll.free();
}

#[test]
fn enum_fields_convert_both_ways() {
    assert_eq!(
        ModulatorFrequencyMultiple::from_bits(0xF),
        Some(ModulatorFrequencyMultiple::ThreeOctaveMajorSeventhAboveAlt)
    );
    assert_eq!(ModulatorFrequencyMultiple::from_bits(0x10), None);
    assert_eq!(ModulatorFrequencyMultiple::ThreeOctaveAbove.bits(), 8);
    assert_eq!(ScalingLevel::from_bits(2), Some(ScalingLevel::DB1_5PerOctave));
    assert_eq!(ScalingLevel::DB6PerOctave.bits(), 3);
    assert_eq!(ScalingLevel::from_bits(4), None);
    assert_eq!(TremoloDepth::from_bits(1), Some(TremoloDepth::High));
    assert_eq!(VibratoDepth::from_bits(2), None);
    assert_eq!(InstrumentMode::Percussion.bits(), 1);
    assert_eq!(InstrumentMode::from_bits(0), Some(InstrumentMode::Melodic));
    assert_eq!(SynthesisType::AdditiveSynthesis.bits(), 1);
    assert_eq!(WaveformType::from_bits(3), Some(WaveformType::PulseSine));
    assert_eq!(WaveformType::HalfSine.bits(), 1);
}
