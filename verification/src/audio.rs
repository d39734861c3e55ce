//! Underwater audio environments and ambient sounds.

use vstd::prelude::*;

verus! {

/// Reverb environment type.
#[derive(Debug, Clone, Copy, PartialEq, Eq, Hash, Structural)]
pub enum UnderwaterEnvironment {
    /// Open water.
    OpenWater,
    /// Inside a cave.
    Cave,
    /// Inside a sealed base.
    BaseInterior,
}

/// Ambient sound type for underwater zones.
#[derive(Debug, Clone, Copy, PartialEq, Eq, Hash, Structural)]
pub enum UnderwaterAmbient {
    /// Bubbles rising.
    Bubbles,
    /// Water current.
    Current,
    /// Whale song (rare).
    WhaleSong,
    /// Deep rumble.
    DeepRumble,
    /// Bioluminescent crackle.
    BioCrackle,
    /// Cave drip.
    CaveDrip,
}

/// The six ambient sounds in the order the audio controller checks them.
pub open spec fn spec_all_ambients() -> Seq<UnderwaterAmbient> {
    seq![
        UnderwaterAmbient::Bubbles,
        UnderwaterAmbient::Current,
        UnderwaterAmbient::WhaleSong,
        UnderwaterAmbient::DeepRumble,
        UnderwaterAmbient::BioCrackle,
        UnderwaterAmbient::CaveDrip,
    ]
}

/// Every ambient sound, in the order the audio controller checks them.
pub fn all_ambients() -> (r: Vec<UnderwaterAmbient>)
    ensures
        r@ == spec_all_ambients(),
{
    vec![
        UnderwaterAmbient::Bubbles,
        UnderwaterAmbient::Current,
        UnderwaterAmbient::WhaleSong,
        UnderwaterAmbient::DeepRumble,
        UnderwaterAmbient::BioCrackle,
        UnderwaterAmbient::CaveDrip,
    ]
}

/// The ambient list names every ambient sound exactly once, so the controller
/// considers each sound, and none twice.
pub proof fn lemma_all_ambients_once(a: UnderwaterAmbient)
    ensures
        spec_all_ambients().contains(a),
        spec_all_ambients().len() == 6,
        spec_all_ambients().no_duplicates(),
{
    let s = spec_all_ambients();
    match a {
        UnderwaterAmbient::Bubbles => assert(s[0] == a),
        UnderwaterAmbient::Current => assert(s[1] == a),
        UnderwaterAmbient::WhaleSong => assert(s[2] == a),
        UnderwaterAmbient::DeepRumble => assert(s[3] == a),
        UnderwaterAmbient::BioCrackle => assert(s[4] == a),
        UnderwaterAmbient::CaveDrip => assert(s[5] == a),
    }
}

} // verus!
