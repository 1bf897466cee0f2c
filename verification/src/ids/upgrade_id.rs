use vstd::prelude::*;

verus! {

/// The upgrades this library knows by name. Each one stands for a numeric code
/// of the game's catalog; a code with no entry here is not an error, it simply
/// has no upgrade.
#[derive(Clone, Copy, Debug, PartialEq, Eq, Hash, Structural)]
pub enum UpgradeId {
    Null,
    CarrierLaunchSpeedUpgrade,
    GlialReconstitution,
    TunnelingClaws,
    ChitinousPlating,
    HiSecAutoTracking,
    TerranBuildingArmor,
    TerranInfantryWeaponsLevel1,
    TerranInfantryWeaponsLevel2,
    TerranInfantryWeaponsLevel3,
    NeosteelFrame,
    TerranInfantryArmorsLevel1,
    TerranInfantryArmorsLevel2,
    TerranInfantryArmorsLevel3,
    Stimpack,
    ShieldWall,
    PunisherGrenades,
    HighCapacityBarrels,
    BansheeCloak,
    RavenCorvidReactor,
    PersonalCloaking,
    TerranVehicleWeaponsLevel1,
    TerranVehicleWeaponsLevel2,
    TerranVehicleWeaponsLevel3,
    TerranShipWeaponsLevel1,
    TerranShipWeaponsLevel2,
    TerranShipWeaponsLevel3,
    ProtossGroundWeaponsLevel1,
    ProtossGroundWeaponsLevel2,
    ProtossGroundWeaponsLevel3,
    ProtossGroundArmorsLevel1,
    ProtossGroundArmorsLevel2,
    ProtossGroundArmorsLevel3,
    ProtossShieldsLevel1,
    ProtossShieldsLevel2,
    ProtossShieldsLevel3,
    ObserverGraviticBooster,
    GraviticDrive,
    ExtendedThermalLance,
    PsiStormTech,
    ZergMeleeWeaponsLevel1,
    ZergMeleeWeaponsLevel2,
    ZergMeleeWeaponsLevel3,
    ZergGroundArmorsLevel1,
    ZergGroundArmorsLevel2,
    ZergGroundArmorsLevel3,
    ZergMissileWeaponsLevel1,
    ZergMissileWeaponsLevel2,
    ZergMissileWeaponsLevel3,
    Overlordspeed,
    Burrow,
    Zerglingattackspeed,
    Zerglingmovementspeed,
    ZergFlyerWeaponsLevel1,
    ZergFlyerWeaponsLevel2,
    ZergFlyerWeaponsLevel3,
    ZergFlyerArmorsLevel1,
    ZergFlyerArmorsLevel2,
    ZergFlyerArmorsLevel3,
    InfestorEnergyUpgrade,
    CentrificalHooks,
    BattlecruiserEnableSpecializations,
    ProtossAirWeaponsLevel1,
    ProtossAirWeaponsLevel2,
    ProtossAirWeaponsLevel3,
    ProtossAirArmorsLevel1,
    ProtossAirArmorsLevel2,
    ProtossAirArmorsLevel3,
    WarpGateResearch,
    Charge,
    BlinkTech,
    PhoenixRangeUpgrade,
    NeuralParasite,
}

impl UpgradeId {
    /// The numeric code of this upgrade.
    pub open spec fn code(self) -> u32 {
        match self {
            UpgradeId::Null => 0,
            UpgradeId::CarrierLaunchSpeedUpgrade => 1,
            UpgradeId::GlialReconstitution => 2,
            UpgradeId::TunnelingClaws => 3,
            UpgradeId::ChitinousPlating => 4,
            UpgradeId::HiSecAutoTracking => 5,
            UpgradeId::TerranBuildingArmor => 6,
            UpgradeId::TerranInfantryWeaponsLevel1 => 7,
            UpgradeId::TerranInfantryWeaponsLevel2 => 8,
            UpgradeId::TerranInfantryWeaponsLevel3 => 9,
            UpgradeId::NeosteelFrame => 10,
            UpgradeId::TerranInfantryArmorsLevel1 => 11,
            UpgradeId::TerranInfantryArmorsLevel2 => 12,
            UpgradeId::TerranInfantryArmorsLevel3 => 13,
            UpgradeId::Stimpack => 15,
            UpgradeId::ShieldWall => 16,
            UpgradeId::PunisherGrenades => 17,
            UpgradeId::HighCapacityBarrels => 19,
            UpgradeId::BansheeCloak => 20,
            UpgradeId::RavenCorvidReactor => 22,
            UpgradeId::PersonalCloaking => 25,
            UpgradeId::TerranVehicleWeaponsLevel1 => 30,
            UpgradeId::TerranVehicleWeaponsLevel2 => 31,
            UpgradeId::TerranVehicleWeaponsLevel3 => 32,
            UpgradeId::TerranShipWeaponsLevel1 => 36,
            UpgradeId::TerranShipWeaponsLevel2 => 37,
            UpgradeId::TerranShipWeaponsLevel3 => 38,
            UpgradeId::ProtossGroundWeaponsLevel1 => 39,
            UpgradeId::ProtossGroundWeaponsLevel2 => 40,
            UpgradeId::ProtossGroundWeaponsLevel3 => 41,
            UpgradeId::ProtossGroundArmorsLevel1 => 42,
            UpgradeId::ProtossGroundArmorsLevel2 => 43,
            UpgradeId::ProtossGroundArmorsLevel3 => 44,
            UpgradeId::ProtossShieldsLevel1 => 45,
            UpgradeId::ProtossShieldsLevel2 => 46,
            UpgradeId::ProtossShieldsLevel3 => 47,
            UpgradeId::ObserverGraviticBooster => 48,
            UpgradeId::GraviticDrive => 49,
            UpgradeId::ExtendedThermalLance => 50,
            UpgradeId::PsiStormTech => 52,
            UpgradeId::ZergMeleeWeaponsLevel1 => 53,
            UpgradeId::ZergMeleeWeaponsLevel2 => 54,
            UpgradeId::ZergMeleeWeaponsLevel3 => 55,
            UpgradeId::ZergGroundArmorsLevel1 => 56,
            UpgradeId::ZergGroundArmorsLevel2 => 57,
            UpgradeId::ZergGroundArmorsLevel3 => 58,
            UpgradeId::ZergMissileWeaponsLevel1 => 59,
            UpgradeId::ZergMissileWeaponsLevel2 => 60,
            UpgradeId::ZergMissileWeaponsLevel3 => 61,
            UpgradeId::Overlordspeed => 62,
            UpgradeId::Burrow => 64,
            UpgradeId::Zerglingattackspeed => 65,
            UpgradeId::Zerglingmovementspeed => 66,
            UpgradeId::ZergFlyerWeaponsLevel1 => 68,
            UpgradeId::ZergFlyerWeaponsLevel2 => 69,
            UpgradeId::ZergFlyerWeaponsLevel3 => 70,
            UpgradeId::ZergFlyerArmorsLevel1 => 71,
            UpgradeId::ZergFlyerArmorsLevel2 => 72,
            UpgradeId::ZergFlyerArmorsLevel3 => 73,
            UpgradeId::InfestorEnergyUpgrade => 74,
            UpgradeId::CentrificalHooks => 75,
            UpgradeId::BattlecruiserEnableSpecializations => 76,
            UpgradeId::ProtossAirWeaponsLevel1 => 78,
            UpgradeId::ProtossAirWeaponsLevel2 => 79,
            UpgradeId::ProtossAirWeaponsLevel3 => 80,
            UpgradeId::ProtossAirArmorsLevel1 => 81,
            UpgradeId::ProtossAirArmorsLevel2 => 82,
            UpgradeId::ProtossAirArmorsLevel3 => 83,
            UpgradeId::WarpGateResearch => 84,
            UpgradeId::Charge => 86,
            UpgradeId::BlinkTech => 87,
            UpgradeId::PhoenixRangeUpgrade => 99,
            UpgradeId::NeuralParasite => 101,
        }
    }

    /// The upgrade with code `n`, or `None` where the code is not known.
    pub open spec fn of_code(n: u32) -> Option<UpgradeId> {
        if n == 0 {
            Some(UpgradeId::Null)
        } else if n == 1 {
            Some(UpgradeId::CarrierLaunchSpeedUpgrade)
        } else if n == 2 {
            Some(UpgradeId::GlialReconstitution)
        } else if n == 3 {
            Some(UpgradeId::TunnelingClaws)
        } else if n == 4 {
            Some(UpgradeId::ChitinousPlating)
        } else if n == 5 {
            Some(UpgradeId::HiSecAutoTracking)
        } else if n == 6 {
            Some(UpgradeId::TerranBuildingArmor)
        } else if n == 7 {
            Some(UpgradeId::TerranInfantryWeaponsLevel1)
        } else if n == 8 {
            Some(UpgradeId::TerranInfantryWeaponsLevel2)
        } else if n == 9 {
            Some(UpgradeId::TerranInfantryWeaponsLevel3)
        } else if n == 10 {
            Some(UpgradeId::NeosteelFrame)
        } else if n == 11 {
            Some(UpgradeId::TerranInfantryArmorsLevel1)
        } else if n == 12 {
            Some(UpgradeId::TerranInfantryArmorsLevel2)
        } else if n == 13 {
            Some(UpgradeId::TerranInfantryArmorsLevel3)
        } else if n == 15 {
            Some(UpgradeId::Stimpack)
        } else if n == 16 {
            Some(UpgradeId::ShieldWall)
        } else if n == 17 {
            Some(UpgradeId::PunisherGrenades)
        } else if n == 19 {
            Some(UpgradeId::HighCapacityBarrels)
        } else if n == 20 {
            Some(UpgradeId::BansheeCloak)
        } else if n == 22 {
            Some(UpgradeId::RavenCorvidReactor)
        } else if n == 25 {
            Some(UpgradeId::PersonalCloaking)
        } else if n == 30 {
            Some(UpgradeId::TerranVehicleWeaponsLevel1)
        } else if n == 31 {
            Some(UpgradeId::TerranVehicleWeaponsLevel2)
        } else if n == 32 {
            Some(UpgradeId::TerranVehicleWeaponsLevel3)
        } else if n == 36 {
            Some(UpgradeId::TerranShipWeaponsLevel1)
        } else if n == 37 {
            Some(UpgradeId::TerranShipWeaponsLevel2)
        } else if n == 38 {
            Some(UpgradeId::TerranShipWeaponsLevel3)
        } else if n == 39 {
            Some(UpgradeId::ProtossGroundWeaponsLevel1)
        } else if n == 40 {
            Some(UpgradeId::ProtossGroundWeaponsLevel2)
        } else if n == 41 {
            Some(UpgradeId::ProtossGroundWeaponsLevel3)
        } else if n == 42 {
            Some(UpgradeId::ProtossGroundArmorsLevel1)
        } else if n == 43 {
            Some(UpgradeId::ProtossGroundArmorsLevel2)
        } else if n == 44 {
            Some(UpgradeId::ProtossGroundArmorsLevel3)
        } else if n == 45 {
            Some(UpgradeId::ProtossShieldsLevel1)
        } else if n == 46 {
            Some(UpgradeId::ProtossShieldsLevel2)
        } else if n == 47 {
            Some(UpgradeId::ProtossShieldsLevel3)
        } else if n == 48 {
            Some(UpgradeId::ObserverGraviticBooster)
        } else if n == 49 {
            Some(UpgradeId::GraviticDrive)
        } else if n == 50 {
            Some(UpgradeId::ExtendedThermalLance)
        } else if n == 52 {
            Some(UpgradeId::PsiStormTech)
        } else if n == 53 {
            Some(UpgradeId::ZergMeleeWeaponsLevel1)
        } else if n == 54 {
            Some(UpgradeId::ZergMeleeWeaponsLevel2)
        } else if n == 55 {
            Some(UpgradeId::ZergMeleeWeaponsLevel3)
        } else if n == 56 {
            Some(UpgradeId::ZergGroundArmorsLevel1)
        } else if n == 57 {
            Some(UpgradeId::ZergGroundArmorsLevel2)
        } else if n == 58 {
            Some(UpgradeId::ZergGroundArmorsLevel3)
        } else if n == 59 {
            Some(UpgradeId::ZergMissileWeaponsLevel1)
        } else if n == 60 {
            Some(UpgradeId::ZergMissileWeaponsLevel2)
        } else if n == 61 {
            Some(UpgradeId::ZergMissileWeaponsLevel3)
        } else if n == 62 {
            Some(UpgradeId::Overlordspeed)
        } else if n == 64 {
            Some(UpgradeId::Burrow)
        } else if n == 65 {
            Some(UpgradeId::Zerglingattackspeed)
        } else if n == 66 {
            Some(UpgradeId::Zerglingmovementspeed)
        } else if n == 68 {
            Some(UpgradeId::ZergFlyerWeaponsLevel1)
        } else if n == 69 {
            Some(UpgradeId::ZergFlyerWeaponsLevel2)
        } else if n == 70 {
            Some(UpgradeId::ZergFlyerWeaponsLevel3)
        } else if n == 71 {
            Some(UpgradeId::ZergFlyerArmorsLevel1)
        } else if n == 72 {
            Some(UpgradeId::ZergFlyerArmorsLevel2)
        } else if n == 73 {
            Some(UpgradeId::ZergFlyerArmorsLevel3)
        } else if n == 74 {
            Some(UpgradeId::InfestorEnergyUpgrade)
        } else if n == 75 {
            Some(UpgradeId::CentrificalHooks)
        } else if n == 76 {
            Some(UpgradeId::BattlecruiserEnableSpecializations)
        } else if n == 78 {
            Some(UpgradeId::ProtossAirWeaponsLevel1)
        } else if n == 79 {
            Some(UpgradeId::ProtossAirWeaponsLevel2)
        } else if n == 80 {
            Some(UpgradeId::ProtossAirWeaponsLevel3)
        } else if n == 81 {
            Some(UpgradeId::ProtossAirArmorsLevel1)
        } else if n == 82 {
            Some(UpgradeId::ProtossAirArmorsLevel2)
        } else if n == 83 {
            Some(UpgradeId::ProtossAirArmorsLevel3)
        } else if n == 84 {
            Some(UpgradeId::WarpGateResearch)
        } else if n == 86 {
            Some(UpgradeId::Charge)
        } else if n == 87 {
            Some(UpgradeId::BlinkTech)
        } else if n == 99 {
            Some(UpgradeId::PhoenixRangeUpgrade)
        } else if n == 101 {
            Some(UpgradeId::NeuralParasite)
        } else {
            None
        }
    }

    /// Gives the numeric code of this upgrade.
    pub fn to_u32(self) -> (n: u32)
        ensures
            n == self.code(),
            UpgradeId::of_code(n) == Some(self),
    {
        match self {
            UpgradeId::Null => 0,
            UpgradeId::CarrierLaunchSpeedUpgrade => 1,
            UpgradeId::GlialReconstitution => 2,
            UpgradeId::TunnelingClaws => 3,
            UpgradeId::ChitinousPlating => 4,
            UpgradeId::HiSecAutoTracking => 5,
            UpgradeId::TerranBuildingArmor => 6,
            UpgradeId::TerranInfantryWeaponsLevel1 => 7,
            UpgradeId::TerranInfantryWeaponsLevel2 => 8,
            UpgradeId::TerranInfantryWeaponsLevel3 => 9,
            UpgradeId::NeosteelFrame => 10,
            UpgradeId::TerranInfantryArmorsLevel1 => 11,
            UpgradeId::TerranInfantryArmorsLevel2 => 12,
            UpgradeId::TerranInfantryArmorsLevel3 => 13,
            UpgradeId::Stimpack => 15,
            UpgradeId::ShieldWall => 16,
            UpgradeId::PunisherGrenades => 17,
            UpgradeId::HighCapacityBarrels => 19,
            UpgradeId::BansheeCloak => 20,
            UpgradeId::RavenCorvidReactor => 22,
            UpgradeId::PersonalCloaking => 25,
            UpgradeId::TerranVehicleWeaponsLevel1 => 30,
            UpgradeId::TerranVehicleWeaponsLevel2 => 31,
            UpgradeId::TerranVehicleWeaponsLevel3 => 32,
            UpgradeId::TerranShipWeaponsLevel1 => 36,
            UpgradeId::TerranShipWeaponsLevel2 => 37,
            UpgradeId::TerranShipWeaponsLevel3 => 38,
            UpgradeId::ProtossGroundWeaponsLevel1 => 39,
            UpgradeId::ProtossGroundWeaponsLevel2 => 40,
            UpgradeId::ProtossGroundWeaponsLevel3 => 41,
            UpgradeId::ProtossGroundArmorsLevel1 => 42,
            UpgradeId::ProtossGroundArmorsLevel2 => 43,
            UpgradeId::ProtossGroundArmorsLevel3 => 44,
            UpgradeId::ProtossShieldsLevel1 => 45,
            UpgradeId::ProtossShieldsLevel2 => 46,
            UpgradeId::ProtossShieldsLevel3 => 47,
            UpgradeId::ObserverGraviticBooster => 48,
            UpgradeId::GraviticDrive => 49,
            UpgradeId::ExtendedThermalLance => 50,
            UpgradeId::PsiStormTech => 52,
            UpgradeId::ZergMeleeWeaponsLevel1 => 53,
            UpgradeId::ZergMeleeWeaponsLevel2 => 54,
            UpgradeId::ZergMeleeWeaponsLevel3 => 55,
            UpgradeId::ZergGroundArmorsLevel1 => 56,
            UpgradeId::ZergGroundArmorsLevel2 => 57,
            UpgradeId::ZergGroundArmorsLevel3 => 58,
            UpgradeId::ZergMissileWeaponsLevel1 => 59,
            UpgradeId::ZergMissileWeaponsLevel2 => 60,
            UpgradeId::ZergMissileWeaponsLevel3 => 61,
            UpgradeId::Overlordspeed => 62,
            UpgradeId::Burrow => 64,
            UpgradeId::Zerglingattackspeed => 65,
            UpgradeId::Zerglingmovementspeed => 66,
            UpgradeId::ZergFlyerWeaponsLevel1 => 68,
            UpgradeId::ZergFlyerWeaponsLevel2 => 69,
            UpgradeId::ZergFlyerWeaponsLevel3 => 70,
            UpgradeId::ZergFlyerArmorsLevel1 => 71,
            UpgradeId::ZergFlyerArmorsLevel2 => 72,
            UpgradeId::ZergFlyerArmorsLevel3 => 73,
            UpgradeId::InfestorEnergyUpgrade => 74,
            UpgradeId::CentrificalHooks => 75,
            UpgradeId::BattlecruiserEnableSpecializations => 76,
            UpgradeId::ProtossAirWeaponsLevel1 => 78,
            UpgradeId::ProtossAirWeaponsLevel2 => 79,
            UpgradeId::ProtossAirWeaponsLevel3 => 80,
            UpgradeId::ProtossAirArmorsLevel1 => 81,
            UpgradeId::ProtossAirArmorsLevel2 => 82,
            UpgradeId::ProtossAirArmorsLevel3 => 83,
            UpgradeId::WarpGateResearch => 84,
            UpgradeId::Charge => 86,
            UpgradeId::BlinkTech => 87,
            UpgradeId::PhoenixRangeUpgrade => 99,
            UpgradeId::NeuralParasite => 101,
        }
    }

    /// Decodes a numeric code. The result is the one upgrade whose code is `n`;
    /// it is `None` exactly when no upgrade has that code.
    pub fn from_u32(n: u32) -> (r: Option<UpgradeId>)
        ensures
            r == UpgradeId::of_code(n),
            r matches Some(id) ==> id.code() == n,
            r is None ==> forall|id: UpgradeId| id.code() != n,
    {
        match n {
            0 => Some(UpgradeId::Null),
            1 => Some(UpgradeId::CarrierLaunchSpeedUpgrade),
            2 => Some(UpgradeId::GlialReconstitution),
            3 => Some(UpgradeId::TunnelingClaws),
            4 => Some(UpgradeId::ChitinousPlating),
            5 => Some(UpgradeId::HiSecAutoTracking),
            6 => Some(UpgradeId::TerranBuildingArmor),
            7 => Some(UpgradeId::TerranInfantryWeaponsLevel1),
            8 => Some(UpgradeId::TerranInfantryWeaponsLevel2),
            9 => Some(UpgradeId::TerranInfantryWeaponsLevel3),
            10 => Some(UpgradeId::NeosteelFrame),
            11 => Some(UpgradeId::TerranInfantryArmorsLevel1),
            12 => Some(UpgradeId::TerranInfantryArmorsLevel2),
            13 => Some(UpgradeId::TerranInfantryArmorsLevel3),
            15 => Some(UpgradeId::Stimpack),
            16 => Some(UpgradeId::ShieldWall),
            17 => Some(UpgradeId::PunisherGrenades),
            19 => Some(UpgradeId::HighCapacityBarrels),
            20 => Some(UpgradeId::BansheeCloak),
            22 => Some(UpgradeId::RavenCorvidReactor),
            25 => Some(UpgradeId::PersonalCloaking),
            30 => Some(UpgradeId::TerranVehicleWeaponsLevel1),
            31 => Some(UpgradeId::TerranVehicleWeaponsLevel2),
            32 => Some(UpgradeId::TerranVehicleWeaponsLevel3),
            36 => Some(UpgradeId::TerranShipWeaponsLevel1),
            37 => Some(UpgradeId::TerranShipWeaponsLevel2),
            38 => Some(UpgradeId::TerranShipWeaponsLevel3),
            39 => Some(UpgradeId::ProtossGroundWeaponsLevel1),
            40 => Some(UpgradeId::ProtossGroundWeaponsLevel2),
            41 => Some(UpgradeId::ProtossGroundWeaponsLevel3),
            42 => Some(UpgradeId::ProtossGroundArmorsLevel1),
            43 => Some(UpgradeId::ProtossGroundArmorsLevel2),
            44 => Some(UpgradeId::ProtossGroundArmorsLevel3),
            45 => Some(UpgradeId::ProtossShieldsLevel1),
            46 => Some(UpgradeId::ProtossShieldsLevel2),
            47 => Some(UpgradeId::ProtossShieldsLevel3),
            48 => Some(UpgradeId::ObserverGraviticBooster),
            49 => Some(UpgradeId::GraviticDrive),
            50 => Some(UpgradeId::ExtendedThermalLance),
            52 => Some(UpgradeId::PsiStormTech),
            53 => Some(UpgradeId::ZergMeleeWeaponsLevel1),
            54 => Some(UpgradeId::ZergMeleeWeaponsLevel2),
            55 => Some(UpgradeId::ZergMeleeWeaponsLevel3),
            56 => Some(UpgradeId::ZergGroundArmorsLevel1),
            57 => Some(UpgradeId::ZergGroundArmorsLevel2),
            58 => Some(UpgradeId::ZergGroundArmorsLevel3),
            59 => Some(UpgradeId::ZergMissileWeaponsLevel1),
            60 => Some(UpgradeId::ZergMissileWeaponsLevel2),
            61 => Some(UpgradeId::ZergMissileWeaponsLevel3),
            62 => Some(UpgradeId::Overlordspeed),
            64 => Some(UpgradeId::Burrow),
            65 => Some(UpgradeId::Zerglingattackspeed),
            66 => Some(UpgradeId::Zerglingmovementspeed),
            68 => Some(UpgradeId::ZergFlyerWeaponsLevel1),
            69 => Some(UpgradeId::ZergFlyerWeaponsLevel2),
            70 => Some(UpgradeId::ZergFlyerWeaponsLevel3),
            71 => Some(UpgradeId::ZergFlyerArmorsLevel1),
            72 => Some(UpgradeId::ZergFlyerArmorsLevel2),
            73 => Some(UpgradeId::ZergFlyerArmorsLevel3),
            74 => Some(UpgradeId::InfestorEnergyUpgrade),
            75 => Some(UpgradeId::CentrificalHooks),
            76 => Some(UpgradeId::BattlecruiserEnableSpecializations),
            78 => Some(UpgradeId::ProtossAirWeaponsLevel1),
            79 => Some(UpgradeId::ProtossAirWeaponsLevel2),
            80 => Some(UpgradeId::ProtossAirWeaponsLevel3),
            81 => Some(UpgradeId::ProtossAirArmorsLevel1),
            82 => Some(UpgradeId::ProtossAirArmorsLevel2),
            83 => Some(UpgradeId::ProtossAirArmorsLevel3),
            84 => Some(UpgradeId::WarpGateResearch),
            86 => Some(UpgradeId::Charge),
            87 => Some(UpgradeId::BlinkTech),
            99 => Some(UpgradeId::PhoenixRangeUpgrade),
            101 => Some(UpgradeId::NeuralParasite),
            _ => None,
        }
    }
}

/// Decoding the code of any upgrade gives that upgrade back.
pub proof fn lemma_upgrade_id_round_trip(id: UpgradeId)
    ensures
        UpgradeId::of_code(id.code()) == Some(id),
{
}

/// A code decodes to a upgrade only if it is that upgrade's own code, so no two
/// codes share a upgrade and no two upgrades share a code.
pub proof fn lemma_upgrade_id_decode_exact(n: u32, id: UpgradeId)
    ensures
        UpgradeId::of_code(n) == Some(id) <==> id.code() == n,
{
}

} // verus!
