use vstd::prelude::*;

verus! {

/// The buffs this library knows by name. Each one stands for a numeric code
/// of the game's catalog; a code with no entry here is not an error, it simply
/// has no buff.
#[derive(Clone, Copy, Debug, PartialEq, Eq, Hash, Structural)]
pub enum BuffId {
    Null,
    GravitonBeam,
    GhostCloak,
    BansheeCloak,
    PowerUserWarpable,
    QueenSpawnLarvaTimer,
    GhostHoldFire,
    GhostHoldFireB,
    EMPDecloak,
    FungalGrowth,
    GuardianShield,
    TimeWarpProduction,
    NeuralParasite,
    StimpackMarauder,
    SupplyDrop,
    Stimpack,
    PsiStorm,
    CloakFieldEffect,
    Charging,
    Slow,
    Contaminated,
    BlindingCloudStructure,
    OracleRevelation,
    ViperConsumeStructure,
    BlindingCloud,
    MedivacSpeedBoost,
    Purify,
    OracleWeapon,
    ImmortalOverload,
    Lockon,
    CarryMineralFieldMinerals,
    CarryHighYieldMineralFieldMinerals,
    CarryHarvestableVespeneGeyserGas,
    CarryHarvestableVespeneGeyserGasProtoss,
    CarryHarvestableVespeneGeyserGasZerg,
}

impl BuffId {
    /// The numeric code of this buff.
    pub open spec fn code(self) -> u32 {
        match self {
            BuffId::Null => 0,
            BuffId::GravitonBeam => 5,
            BuffId::GhostCloak => 6,
            BuffId::BansheeCloak => 7,
            BuffId::PowerUserWarpable => 8,
            BuffId::QueenSpawnLarvaTimer => 11,
            BuffId::GhostHoldFire => 12,
            BuffId::GhostHoldFireB => 13,
            BuffId::EMPDecloak => 16,
            BuffId::FungalGrowth => 17,
            BuffId::GuardianShield => 18,
            BuffId::TimeWarpProduction => 20,
            BuffId::NeuralParasite => 22,
            BuffId::StimpackMarauder => 24,
            BuffId::SupplyDrop => 25,
            BuffId::Stimpack => 27,
            BuffId::PsiStorm => 28,
            BuffId::CloakFieldEffect => 29,
            BuffId::Charging => 30,
            BuffId::Slow => 33,
            BuffId::Contaminated => 36,
            BuffId::BlindingCloudStructure => 38,
            BuffId::OracleRevelation => 49,
            BuffId::ViperConsumeStructure => 59,
            BuffId::BlindingCloud => 83,
            BuffId::MedivacSpeedBoost => 89,
            BuffId::Purify => 97,
            BuffId::OracleWeapon => 99,
            BuffId::ImmortalOverload => 102,
            BuffId::Lockon => 116,
            BuffId::CarryMineralFieldMinerals => 271,
            BuffId::CarryHighYieldMineralFieldMinerals => 272,
            BuffId::CarryHarvestableVespeneGeyserGas => 273,
            BuffId::CarryHarvestableVespeneGeyserGasProtoss => 274,
            BuffId::CarryHarvestableVespeneGeyserGasZerg => 275,
        }
    }

    /// The buff with code `n`, or `None` where the code is not known.
    pub open spec fn of_code(n: u32) -> Option<BuffId> {
        if n == 0 {
            Some(BuffId::Null)
        } else if n == 5 {
            Some(BuffId::GravitonBeam)
        } else if n == 6 {
            Some(BuffId::GhostCloak)
        } else if n == 7 {
            Some(BuffId::BansheeCloak)
        } else if n == 8 {
            Some(BuffId::PowerUserWarpable)
        } else if n == 11 {
            Some(BuffId::QueenSpawnLarvaTimer)
        } else if n == 12 {
            Some(BuffId::GhostHoldFire)
        } else if n == 13 {
            Some(BuffId::GhostHoldFireB)
        } else if n == 16 {
            Some(BuffId::EMPDecloak)
        } else if n == 17 {
            Some(BuffId::FungalGrowth)
        } else if n == 18 {
            Some(BuffId::GuardianShield)
        } else if n == 20 {
            Some(BuffId::TimeWarpProduction)
        } else if n == 22 {
            Some(BuffId::NeuralParasite)
        } else if n == 24 {
            Some(BuffId::StimpackMarauder)
        } else if n == 25 {
            Some(BuffId::SupplyDrop)
        } else if n == 27 {
            Some(BuffId::Stimpack)
        } else if n == 28 {
            Some(BuffId::PsiStorm)
        } else if n == 29 {
            Some(BuffId::CloakFieldEffect)
        } else if n == 30 {
            Some(BuffId::Charging)
        } else if n == 33 {
            Some(BuffId::Slow)
        } else if n == 36 {
            Some(BuffId::Contaminated)
        } else if n == 38 {
            Some(BuffId::BlindingCloudStructure)
        } else if n == 49 {
            Some(BuffId::OracleRevelation)
        } else if n == 59 {
            Some(BuffId::ViperConsumeStructure)
        } else if n == 83 {
            Some(BuffId::BlindingCloud)
        } else if n == 89 {
            Some(BuffId::MedivacSpeedBoost)
        } else if n == 97 {
            Some(BuffId::Purify)
        } else if n == 99 {
            Some(BuffId::OracleWeapon)
        } else if n == 102 {
            Some(BuffId::ImmortalOverload)
        } else if n == 116 {
            Some(BuffId::Lockon)
        } else if n == 271 {
            Some(BuffId::CarryMineralFieldMinerals)
        } else if n == 272 {
            Some(BuffId::CarryHighYieldMineralFieldMinerals)
        } else if n == 273 {
            Some(BuffId::CarryHarvestableVespeneGeyserGas)
        } else if n == 274 {
            Some(BuffId::CarryHarvestableVespeneGeyserGasProtoss)
        } else if n == 275 {
            Some(BuffId::CarryHarvestableVespeneGeyserGasZerg)
        } else {
            None
        }
    }

    /// Gives the numeric code of this buff.
    pub fn to_u32(self) -> (n: u32)
        ensures
            n == self.code(),
            BuffId::of_code(n) == Some(self),
    {
        match self {
            BuffId::Null => 0,
            BuffId::GravitonBeam => 5,
            BuffId::GhostCloak => 6,
            BuffId::BansheeCloak => 7,
            BuffId::PowerUserWarpable => 8,
            BuffId::QueenSpawnLarvaTimer => 11,
            BuffId::GhostHoldFire => 12,
            BuffId::GhostHoldFireB => 13,
            BuffId::EMPDecloak => 16,
            BuffId::FungalGrowth => 17,
            BuffId::GuardianShield => 18,
            BuffId::TimeWarpProduction => 20,
            BuffId::NeuralParasite => 22,
            BuffId::StimpackMarauder => 24,
            BuffId::SupplyDrop => 25,
            BuffId::Stimpack => 27,
            BuffId::PsiStorm => 28,
            BuffId::CloakFieldEffect => 29,
            BuffId::Charging => 30,
            BuffId::Slow => 33,
            BuffId::Contaminated => 36,
            BuffId::BlindingCloudStructure => 38,
            BuffId::OracleRevelation => 49,
            BuffId::ViperConsumeStructure => 59,
            BuffId::BlindingCloud => 83,
            BuffId::MedivacSpeedBoost => 89,
            BuffId::Purify => 97,
            BuffId::OracleWeapon => 99,
            BuffId::ImmortalOverload => 102,
            BuffId::Lockon => 116,
            BuffId::CarryMineralFieldMinerals => 271,
            BuffId::CarryHighYieldMineralFieldMinerals => 272,
            BuffId::CarryHarvestableVespeneGeyserGas => 273,
            BuffId::CarryHarvestableVespeneGeyserGasProtoss => 274,
            BuffId::CarryHarvestableVespeneGeyserGasZerg => 275,
        }
    }

    /// Decodes a numeric code. The result is the one buff whose code is `n`;
    /// it is `None` exactly when no buff has that code.
    pub fn from_u32(n: u32) -> (r: Option<BuffId>)
        ensures
            r == BuffId::of_code(n),
            r matches Some(id) ==> id.code() == n,
            r is None ==> forall|id: BuffId| id.code() != n,
    {
        match n {
            0 => Some(BuffId::Null),
            5 => Some(BuffId::GravitonBeam),
            6 => Some(BuffId::GhostCloak),
            7 => Some(BuffId::BansheeCloak),
            8 => Some(BuffId::PowerUserWarpable),
            11 => Some(BuffId::QueenSpawnLarvaTimer),
            12 => Some(BuffId::GhostHoldFire),
            13 => Some(BuffId::GhostHoldFireB),
            16 => Some(BuffId::EMPDecloak),
            17 => Some(BuffId::FungalGrowth),
            18 => Some(BuffId::GuardianShield),
            20 => Some(BuffId::TimeWarpProduction),
            22 => Some(BuffId::NeuralParasite),
            24 => Some(BuffId::StimpackMarauder),
            25 => Some(BuffId::SupplyDrop),
            27 => Some(BuffId::Stimpack),
            28 => Some(BuffId::PsiStorm),
            29 => Some(BuffId::CloakFieldEffect),
            30 => Some(BuffId::Charging),
            33 => Some(BuffId::Slow),
            36 => Some(BuffId::Contaminated),
            38 => Some(BuffId::BlindingCloudStructure),
            49 => Some(BuffId::OracleRevelation),
            59 => Some(BuffId::ViperConsumeStructure),
            83 => Some(BuffId::BlindingCloud),
            89 => Some(BuffId::MedivacSpeedBoost),
            97 => Some(BuffId::Purify),
            99 => Some(BuffId::OracleWeapon),
            102 => Some(BuffId::ImmortalOverload),
            116 => Some(BuffId::Lockon),
            271 => Some(BuffId::CarryMineralFieldMinerals),
            272 => Some(BuffId::CarryHighYieldMineralFieldMinerals),
            273 => Some(BuffId::CarryHarvestableVespeneGeyserGas),
            274 => Some(BuffId::CarryHarvestableVespeneGeyserGasProtoss),
            275 => Some(BuffId::CarryHarvestableVespeneGeyserGasZerg),
            _ => None,
        }
    }
}

/// Decoding the code of any buff gives that buff back.
pub proof fn lemma_buff_id_round_trip(id: BuffId)
    ensures
        BuffId::of_code(id.code()) == Some(id),
{
}

/// A code decodes to a buff only if it is that buff's own code, so no two
/// codes share a buff and no two buffs share a code.
pub proof fn lemma_buff_id_decode_exact(n: u32, id: BuffId)
    ensures
        BuffId::of_code(n) == Some(id) <==> id.code() == n,
{
}

} // verus!
