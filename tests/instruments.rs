use opl2::instrument::{BassDrum, Cymbal, HiHat, MelodyInstrument, OperatorSettings, SnareDrum, TomTom};
use opl2::presets;

#[test]
fn operator_settings_from_bytes_keeps_order() {
    let op = OperatorSettings::from_bytes([1, 2, 3, 4, 5]);
    assert_eq!(op, OperatorSettings::new(1, 2, 3, 4, 5));
    assert_eq!(op.operator_settings0, 1);
    assert_eq!(op.operator_settings4, 5);
}

#[test]
fn melody_instrument_from_bytes_splits_eleven_bytes() {
    let inst = MelodyInstrument::from_bytes([1, 2, 3, 4, 5, 6, 7, 8, 9, 10, 11]);
    assert_eq!(inst.operator_0, OperatorSettings::new(1, 2, 3, 4, 5));
    assert_eq!(inst.channel_settings2, 6);
    assert_eq!(inst.operator_1, OperatorSettings::new(7, 8, 9, 10, 11));
    let same = MelodyInstrument::new(
        OperatorSettings::new(1, 2, 3, 4, 5),
        6,
        OperatorSettings::new(7, 8, 9, 10, 11),
    );
    assert_eq!(inst, same);
}

#[test]
fn bass_drum_from_bytes_splits_eleven_bytes() {
    let drum = BassDrum::from_bytes([0, 0, 0, 0, 0, 0, 0, 0x0B, 0xA8, 0x4C, 0]);
    assert_eq!(drum, presets::bdrum1());
    assert_eq!(drum.operator_1.operator_settings1, 0x0B);
    assert_eq!(BassDrum::CHANNEL, 6);
}

#[test]
fn single_operator_voice_bindings() {
    assert_eq!((SnareDrum::CHANNEL, SnareDrum::OPERATOR), (7, 1));
    assert_eq!((TomTom::CHANNEL, TomTom::OPERATOR), (8, 0));
    assert_eq!((Cymbal::CHANNEL, Cymbal::OPERATOR), (8, 1));
    assert_eq!((HiHat::CHANNEL, HiHat::OPERATOR), (7, 0));
}

#[test]
fn single_operator_voices_from_bytes() {
    let bytes = [0x0C, 0x00, 0xC8, 0xB6, 0x01];
    assert_eq!(SnareDrum::from_bytes(bytes).operator, OperatorSettings::from_bytes(bytes));
    assert_eq!(TomTom::from_bytes(bytes), TomTom::new(OperatorSettings::from_bytes(bytes)));
    assert_eq!(Cymbal::from_bytes(bytes).operator.operator_settings3, 0xB6);
    assert_eq!(HiHat::from_bytes(bytes).operator.operator_settings4, 0x01);
    assert_eq!(SnareDrum::new(OperatorSettings::from_bytes(bytes)), presets::mltrdrum());
}

#[test]
fn preset_bytes() {
    assert_eq!(presets::elpiano1().operator_1.operator_settings2, 0xD2);
    assert_eq!(presets::guitar1().channel_settings2, 0x0A);
    assert_eq!(presets::strings1().operator_0.operator_settings0, 0xB1);
    assert_eq!(presets::xylo2().operator_1.operator_settings0, 0x2E);
    assert_eq!(presets::cymbal1().operator.operator_settings2, 0xF5);
    assert_eq!(presets::hihat1().operator.operator_settings2, 0xF7);
    assert_eq!(presets::rksnare().operator.operator_settings3, 0xB4);
    assert_eq!(presets::tom1().operator.operator_settings0, 0x04);
}
