//! Fixed pitch tables.
//!
//! Pitches are equal-tempered frequencies (A4 = 440 Hz) in hundredths of a
//! hertz, so every table entry is an exact integer. Three tables are in use:
//! the A minor pentatonic scale for the CPU melody, a D dorian scale for the
//! GPU voice, and a short high-register scale for per-process phrases.

use vstd::prelude::*;

verus! {

/// A2 (110.00 Hz), the low bass note.
pub const A2: u32 = 11000;
/// C3 (130.81 Hz).
pub const C3: u32 = 13081;
/// E3 (164.81 Hz), the high bass note.
pub const E3: u32 = 16481;
/// A3 (220.00 Hz).
pub const A3: u32 = 22000;
/// C4 (261.63 Hz).
pub const C4: u32 = 26163;
/// D4 (293.66 Hz).
pub const D4: u32 = 29366;
/// E4 (329.63 Hz).
pub const E4: u32 = 32963;
/// F4 (349.23 Hz).
pub const F4: u32 = 34923;
/// G4 (392.00 Hz).
pub const G4: u32 = 39200;
/// A4 (440.00 Hz).
pub const A4: u32 = 44000;
/// B4 (493.88 Hz).
pub const B4: u32 = 49388;
/// C5 (523.25 Hz).
pub const C5: u32 = 52325;
/// D5 (587.33 Hz).
pub const D5: u32 = 58733;
/// E5 (659.26 Hz).
pub const E5: u32 = 65926;
/// F5 (698.46 Hz).
pub const F5: u32 = 69846;
/// G5 (783.99 Hz).
pub const G5: u32 = 78399;
/// A5 (880.00 Hz).
pub const A5: u32 = 88000;
/// B5 (987.77 Hz).
pub const B5: u32 = 98777;
/// C6 (1046.50 Hz).
pub const C6: u32 = 104650;
/// D6 (1174.66 Hz).
pub const D6: u32 = 117466;

/// The A minor pentatonic scale the CPU melody is drawn from, low to high.
pub open spec fn minor_pentatonic() -> Seq<u32> {
    seq![A3, C4, D4, E4, G4, A4, C5, D5, E5, G5, A5, C6, D6]
}

/// The D dorian scale the GPU voice is drawn from, low to high.
pub open spec fn dorian() -> Seq<u32> {
    seq![D4, E4, F4, G4, A4, B4, C5, D5, E5, F5]
}

/// The high-register scale per-process phrases are drawn from, low to high.
pub open spec fn process_scale() -> Seq<u32> {
    seq![E5, G5, A5, B5, D6]
}

/// Builds the A minor pentatonic scale as a vector.
pub fn minor_pentatonic_vec() -> (v: Vec<u32>)
    ensures
        v@ == minor_pentatonic(),
{
    let v: Vec<u32> = vec![A3, C4, D4, E4, G4, A4, C5, D5, E5, G5, A5, C6, D6];
    proof {
        assert(v@ =~= minor_pentatonic());
    }
    v
}

/// Builds the D dorian scale as a vector.
pub fn dorian_vec() -> (v: Vec<u32>)
    ensures
        v@ == dorian(),
{
    let v: Vec<u32> = vec![D4, E4, F4, G4, A4, B4, C5, D5, E5, F5];
    proof {
        assert(v@ =~= dorian());
    }
    v
}

/// Builds the high-register process scale as a vector.
pub fn process_scale_vec() -> (v: Vec<u32>)
    ensures
        v@ == process_scale(),
{
    let v: Vec<u32> = vec![E5, G5, A5, B5, D6];
    proof {
        assert(v@ =~= process_scale());
    }
    v
}

} // verus!
