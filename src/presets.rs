//! Built-in instruments, in the canonical byte form of their descriptors.
use vstd::prelude::*;

use crate::instrument::{BassDrum, Cymbal, HiHat, MelodyInstrument, SnareDrum, TomTom};

verus! {

/// Electric piano.
pub fn elpiano1() -> (r: MelodyInstrument)
    ensures
        r.encoded() == seq![0x01u8, 0x4F, 0xF1, 0x50, 0x00, 0x06, 0x01, 0x04, 0xD2, 0x7C, 0x00],
{
    let r = MelodyInstrument::from_bytes([0x01, 0x4F, 0xF1, 0x50, 0x00, 0x06, 0x01, 0x04, 0xD2, 0x7C, 0x00]);
    assert(r.encoded() =~= seq![0x01u8, 0x4F, 0xF1, 0x50, 0x00, 0x06, 0x01, 0x04, 0xD2, 0x7C, 0x00]);
    r
}

/// Guitar.
pub fn guitar1() -> (r: MelodyInstrument)
    ensures
        r.encoded() == seq![0x01u8, 0x11, 0xF2, 0x1F, 0x00, 0x0A, 0x01, 0x00, 0xF5, 0x88, 0x00],
{
    let r = MelodyInstrument::from_bytes([0x01, 0x11, 0xF2, 0x1F, 0x00, 0x0A, 0x01, 0x00, 0xF5, 0x88, 0x00]);
    assert(r.encoded() =~= seq![0x01u8, 0x11, 0xF2, 0x1F, 0x00, 0x0A, 0x01, 0x00, 0xF5, 0x88, 0x00]);
    r
}

/// Strings.
pub fn strings1() -> (r: MelodyInstrument)
    ensures
        r.encoded() == seq![0xB1u8, 0x8B, 0x71, 0x11, 0x00, 0x06, 0x61, 0x40, 0x42, 0x15, 0x01],
{
    let r = MelodyInstrument::from_bytes([0xB1, 0x8B, 0x71, 0x11, 0x00, 0x06, 0x61, 0x40, 0x42, 0x15, 0x01]);
    assert(r.encoded() =~= seq![0xB1u8, 0x8B, 0x71, 0x11, 0x00, 0x06, 0x61, 0x40, 0x42, 0x15, 0x01]);
    r
}

/// Bass drum.
pub fn bdrum1() -> (r: BassDrum)
    ensures
        r.encoded() == seq![0x00u8, 0x00, 0x00, 0x00, 0x00, 0x00, 0x00, 0x0B, 0xA8, 0x4C, 0x00],
{
    let r = BassDrum::from_bytes([0x00, 0x00, 0x00, 0x00, 0x00, 0x00, 0x00, 0x0B, 0xA8, 0x4C, 0x00]);
    assert(r.encoded() =~= seq![0x00u8, 0x00, 0x00, 0x00, 0x00, 0x00, 0x00, 0x0B, 0xA8, 0x4C, 0x00]);
    r
}

/// Cymbal.
pub fn cymbal1() -> (r: Cymbal)
    ensures
        r.encoded() == seq![0x01u8, 0x00, 0xF5, 0xB5, 0x00],
{
    let r = Cymbal::from_bytes([0x01, 0x00, 0xF5, 0xB5, 0x00]);
    assert(r.encoded() =~= seq![0x01u8, 0x00, 0xF5, 0xB5, 0x00]);
    r
}

/// Closed hi-hat.
pub fn hihat1() -> (r: HiHat)
    ensures
        r.encoded() == seq![0x01u8, 0x00, 0xF7, 0xB5, 0x00],
{
    let r = HiHat::from_bytes([0x01, 0x00, 0xF7, 0xB5, 0x00]);
    assert(r.encoded() =~= seq![0x01u8, 0x00, 0xF7, 0xB5, 0x00]);
    r
}

/// Bright hi-hat.
pub fn hihat2() -> (r: HiHat)
    ensures
        r.encoded() == seq![0x01u8, 0x03, 0xDA, 0x18, 0x00],
{
    let r = HiHat::from_bytes([0x01, 0x03, 0xDA, 0x18, 0x00]);
    assert(r.encoded() =~= seq![0x01u8, 0x03, 0xDA, 0x18, 0x00]);
    r
}

/// Laser effect on the cymbal voice.
pub fn laser() -> (r: Cymbal)
    ensures
        r.encoded() == seq![0xE6u8, 0x00, 0x25, 0xB5, 0x00],
{
    let r = Cymbal::from_bytes([0xE6, 0x00, 0x25, 0xB5, 0x00]);
    assert(r.encoded() =~= seq![0xE6u8, 0x00, 0x25, 0xB5, 0x00]);
    r
}

/// Military drum.
pub fn mltrdrum() -> (r: SnareDrum)
    ensures
        r.encoded() == seq![0x0Cu8, 0x00, 0xC8, 0xB6, 0x01],
{
    let r = SnareDrum::from_bytes([0x0C, 0x00, 0xC8, 0xB6, 0x01]);
    assert(r.encoded() =~= seq![0x0Cu8, 0x00, 0xC8, 0xB6, 0x01]);
    r
}

/// Rock snare.
pub fn rksnare() -> (r: SnareDrum)
    ensures
        r.encoded() == seq![0x0Cu8, 0x00, 0xC7, 0xB4, 0x00],
{
    let r = SnareDrum::from_bytes([0x0C, 0x00, 0xC7, 0xB4, 0x00]);
    assert(r.encoded() =~= seq![0x0Cu8, 0x00, 0xC7, 0xB4, 0x00]);
    r
}

/// Snare drum.
pub fn snare1() -> (r: SnareDrum)
    ensures
        r.encoded() == seq![0x0Cu8, 0x00, 0xF8, 0xB5, 0x00],
{
    let r = SnareDrum::from_bytes([0x0C, 0x00, 0xF8, 0xB5, 0x00]);
    assert(r.encoded() =~= seq![0x0Cu8, 0x00, 0xF8, 0xB5, 0x00]);
    r
}

/// Tom-tom.
pub fn tom1() -> (r: TomTom)
    ensures
        r.encoded() == seq![0x04u8, 0x00, 0xF7, 0xB5, 0x00],
{
    let r = TomTom::from_bytes([0x04, 0x00, 0xF7, 0xB5, 0x00]);
    assert(r.encoded() =~= seq![0x04u8, 0x00, 0xF7, 0xB5, 0x00]);
    r
}

/// Low tom-tom.
pub fn tom2() -> (r: TomTom)
    ensures
        r.encoded() == seq![0x02u8, 0x00, 0xC8, 0x97, 0x00],
{
    let r = TomTom::from_bytes([0x02, 0x00, 0xC8, 0x97, 0x00]);
    assert(r.encoded() =~= seq![0x02u8, 0x00, 0xC8, 0x97, 0x00]);
    r
}

/// Xylophone on the bass drum voice.
pub fn xylo2() -> (r: BassDrum)
    ensures
        r.encoded() == seq![0x00u8, 0x00, 0x00, 0x00, 0x00, 0x00, 0x2E, 0x00, 0xFF, 0x0F, 0x00],
{
    let r = BassDrum::from_bytes([0x00, 0x00, 0x00, 0x00, 0x00, 0x00, 0x2E, 0x00, 0xFF, 0x0F, 0x00]);
    assert(r.encoded() =~= seq![0x00u8, 0x00, 0x00, 0x00, 0x00, 0x00, 0x2E, 0x00, 0xFF, 0x0F, 0x00]);
    r
}

} // verus!
