use vstd::prelude::*;

verus! {

/// The effects this library knows by name. Each one stands for a numeric code
/// of the game's catalog; a code with no entry here is not an error, it simply
/// has no effect.
#[derive(Clone, Copy, Debug, PartialEq, Eq, Hash, Structural)]
pub enum EffectId {
    Null,
    PsiStormPersistent,
    GuardianShieldPersistent,
    TemporalFieldGrowingBubbleCreatePersistent,
    TemporalFieldAfterBubbleCreatePersistent,
    ThermalLancesForward,
    ScannerSweep,
    NukePersistent,
    LiberatorTargetMorphDelayPersistent,
    LiberatorTargetMorphPersistent,
    BlindingCloudCP,
    RavagerCorrosiveBileCP,
    LurkerMP,
}

impl EffectId {
    /// The numeric code of this effect.
    pub open spec fn code(self) -> u32 {
        match self {
            EffectId::Null => 0,
            EffectId::PsiStormPersistent => 1,
            EffectId::GuardianShieldPersistent => 2,
            EffectId::TemporalFieldGrowingBubbleCreatePersistent => 3,
            EffectId::TemporalFieldAfterBubbleCreatePersistent => 4,
            EffectId::ThermalLancesForward => 5,
            EffectId::ScannerSweep => 6,
            EffectId::NukePersistent => 7,
            EffectId::LiberatorTargetMorphDelayPersistent => 8,
            EffectId::LiberatorTargetMorphPersistent => 9,
            EffectId::BlindingCloudCP => 10,
            EffectId::RavagerCorrosiveBileCP => 11,
            EffectId::LurkerMP => 12,
        }
    }

    /// The effect with code `n`, or `None` where the code is not known.
    pub open spec fn of_code(n: u32) -> Option<EffectId> {
        if n == 0 {
            Some(EffectId::Null)
        } else if n == 1 {
            Some(EffectId::PsiStormPersistent)
        } else if n == 2 {
            Some(EffectId::GuardianShieldPersistent)
        } else if n == 3 {
            Some(EffectId::TemporalFieldGrowingBubbleCreatePersistent)
        } else if n == 4 {
            Some(EffectId::TemporalFieldAfterBubbleCreatePersistent)
        } else if n == 5 {
            Some(EffectId::ThermalLancesForward)
        } else if n == 6 {
            Some(EffectId::ScannerSweep)
        } else if n == 7 {
            Some(EffectId::NukePersistent)
        } else if n == 8 {
            Some(EffectId::LiberatorTargetMorphDelayPersistent)
        } else if n == 9 {
            Some(EffectId::LiberatorTargetMorphPersistent)
        } else if n == 10 {
            Some(EffectId::BlindingCloudCP)
        } else if n == 11 {
            Some(EffectId::RavagerCorrosiveBileCP)
        } else if n == 12 {
            Some(EffectId::LurkerMP)
        } else {
            None
        }
    }

    /// Gives the numeric code of this effect.
    pub fn to_u32(self) -> (n: u32)
        ensures
            n == self.code(),
            EffectId::of_code(n) == Some(self),
    {
        match self {
            EffectId::Null => 0,
            EffectId::PsiStormPersistent => 1,
            EffectId::GuardianShieldPersistent => 2,
            EffectId::TemporalFieldGrowingBubbleCreatePersistent => 3,
            EffectId::TemporalFieldAfterBubbleCreatePersistent => 4,
            EffectId::ThermalLancesForward => 5,
            EffectId::ScannerSweep => 6,
            EffectId::NukePersistent => 7,
            EffectId::LiberatorTargetMorphDelayPersistent => 8,
            EffectId::LiberatorTargetMorphPersistent => 9,
            EffectId::BlindingCloudCP => 10,
            EffectId::RavagerCorrosiveBileCP => 11,
            EffectId::LurkerMP => 12,
        }
    }

    /// Decodes a numeric code. The result is the one effect whose code is `n`;
    /// it is `None` exactly when no effect has that code.
    pub fn from_u32(n: u32) -> (r: Option<EffectId>)
        ensures
            r == EffectId::of_code(n),
            r matches Some(id) ==> id.code() == n,
            r is None ==> forall|id: EffectId| id.code() != n,
    {
        match n {
            0 => Some(EffectId::Null),
            1 => Some(EffectId::PsiStormPersistent),
            2 => Some(EffectId::GuardianShieldPersistent),
            3 => Some(EffectId::TemporalFieldGrowingBubbleCreatePersistent),
            4 => Some(EffectId::TemporalFieldAfterBubbleCreatePersistent),
            5 => Some(EffectId::ThermalLancesForward),
            6 => Some(EffectId::ScannerSweep),
            7 => Some(EffectId::NukePersistent),
            8 => Some(EffectId::LiberatorTargetMorphDelayPersistent),
            9 => Some(EffectId::LiberatorTargetMorphPersistent),
            10 => Some(EffectId::BlindingCloudCP),
            11 => Some(EffectId::RavagerCorrosiveBileCP),
            12 => Some(EffectId::LurkerMP),
            _ => None,
        }
    }
}

/// Decoding the code of any effect gives that effect back.
pub proof fn lemma_effect_id_round_trip(id: EffectId)
    ensures
        EffectId::of_code(id.code()) == Some(id),
{
}

/// A code decodes to a effect only if it is that effect's own code, so no two
/// codes share a effect and no two effects share a code.
pub proof fn lemma_effect_id_decode_exact(n: u32, id: EffectId)
    ensures
        EffectId::of_code(n) == Some(id) <==> id.code() == n,
{
}

} // verus!
