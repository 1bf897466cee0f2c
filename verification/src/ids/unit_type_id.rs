use vstd::prelude::*;

verus! {

/// The unit types this library knows by name. Each one stands for a numeric code
/// of the game's catalog; a code with no entry here is not an error, it simply
/// has no unit type.
#[derive(Clone, Copy, Debug, PartialEq, Eq, Hash, Structural)]
pub enum UnitTypeId {
    NotAUnit,
    Colossus,
    TechLab,
    Reactor,
    InfestorTerran,
    BanelingCocoon,
    Baneling,
    Mothership,
    PointDefenseDrone,
    Changeling,
    ChangelingZealot,
    ChangelingMarineShield,
    ChangelingMarine,
    ChangelingZerglingWings,
    ChangelingZergling,
    CommandCenter,
    SupplyDepot,
    Refinery,
    Barracks,
    EngineeringBay,
    MissileTurret,
    Bunker,
    SensorTower,
    GhostAcademy,
    Factory,
    Starport,
    Armory,
    FusionCore,
    AutoTurret,
    SiegeTankSieged,
    SiegeTank,
    VikingAssault,
    VikingFighter,
    CommandCenterFlying,
    BarracksTechLab,
    BarracksReactor,
    FactoryTechLab,
    FactoryReactor,
    StarportTechLab,
    StarportReactor,
    FactoryFlying,
    StarportFlying,
    SCV,
    BarracksFlying,
    SupplyDepotLowered,
    Marine,
    Reaper,
    TerranGhost,
    Marauder,
    Thor,
    Hellion,
    Medivac,
    Banshee,
    Raven,
    Battlecruiser,
    Nuke,
    Nexus,
    Pylon,
    Assimilator,
    Gateway,
    Forge,
    FleetBeacon,
    TwilightCouncil,
    PhotonCannon,
    Stargate,
    TemplarArchive,
    DarkShrine,
    RoboticsBay,
    RoboticsFacility,
    CyberneticsCore,
    Zealot,
    Stalker,
    HighTemplar,
    DarkTemplar,
    Sentry,
    Phoenix,
    Carrier,
    VoidRay,
    WarpPrism,
    Observer,
    Immortal,
    Probe,
    Interceptor,
    Hatchery,
    CreepTumor,
    Extractor,
    SpawningPool,
    EvolutionChamber,
    HydraliskDen,
    Spire,
    UltraliskCavern,
    InfestationPit,
    NydusNetwork,
    BanelingNest,
    RoachWarren,
    SpineCrawler,
    SporeCrawler,
    Lair,
    Hive,
    GreaterSpire,
    Egg,
    Drone,
    Zergling,
    Overlord,
    Hydralisk,
    Mutalisk,
    Ultralisk,
    Roach,
    Infestor,
    Corruptor,
    BroodLordCocoon,
    BroodLord,
    BanelingBurrowed,
    DroneBurrowed,
    HydraliskBurrowed,
    RoachBurrowed,
    ZerglingBurrowed,
    InfestorTerranBurrowed,
    QueenBurrowed,
    Queen,
    InfestorBurrowed,
    OverlordCocoon,
    Overseer,
    PlanetaryFortress,
    UltraliskBurrowed,
    OrbitalCommand,
    WarpGate,
    OrbitalCommandFlying,
    ForceField,
    WarpPrismPhasing,
    CreepTumorBurrowed,
    CreepTumorQueen,
    SpineCrawlerUprooted,
    SporeCrawlerUprooted,
    Archon,
    NydusCanal,
    MULE,
    Broodling,
    Adept,
    HellionTank,
    MothershipCore,
    LocustMP,
    SwarmHostBurrowedMP,
    SwarmHostMP,
    Oracle,
    Tempest,
    WidowMine,
    Viper,
    WidowMineBurrowed,
    LurkerMPEgg,
    LurkerMP,
    LurkerMPBurrowed,
    LurkerDenMP,
    RavagerCocoon,
    Ravager,
    Liberator,
    ThorAP,
    Cyclone,
    LocustMPFlying,
    Disruptor,
    OracleStasisTrap,
    DisruptorPhased,
    LiberatorAG,
    AdeptPhaseShift,
    TransportOverlordCocoon,
    OverlordTransport,
    PylonOvercharged,
    ShieldBattery,
    ObserverSiegeMode,
    OverseerSiegeMode,
}

impl UnitTypeId {
    /// The numeric code of this unit type.
    pub open spec fn code(self) -> u32 {
        match self {
            UnitTypeId::NotAUnit => 0,
            UnitTypeId::Colossus => 4,
            UnitTypeId::TechLab => 5,
            UnitTypeId::Reactor => 6,
            UnitTypeId::InfestorTerran => 7,
            UnitTypeId::BanelingCocoon => 8,
            UnitTypeId::Baneling => 9,
            UnitTypeId::Mothership => 10,
            UnitTypeId::PointDefenseDrone => 11,
            UnitTypeId::Changeling => 12,
            UnitTypeId::ChangelingZealot => 13,
            UnitTypeId::ChangelingMarineShield => 14,
            UnitTypeId::ChangelingMarine => 15,
            UnitTypeId::ChangelingZerglingWings => 16,
            UnitTypeId::ChangelingZergling => 17,
            UnitTypeId::CommandCenter => 18,
            UnitTypeId::SupplyDepot => 19,
            UnitTypeId::Refinery => 20,
            UnitTypeId::Barracks => 21,
            UnitTypeId::EngineeringBay => 22,
            UnitTypeId::MissileTurret => 23,
            UnitTypeId::Bunker => 24,
            UnitTypeId::SensorTower => 25,
            UnitTypeId::GhostAcademy => 26,
            UnitTypeId::Factory => 27,
            UnitTypeId::Starport => 28,
            UnitTypeId::Armory => 29,
            UnitTypeId::FusionCore => 30,
            UnitTypeId::AutoTurret => 31,
            UnitTypeId::SiegeTankSieged => 32,
            UnitTypeId::SiegeTank => 33,
            UnitTypeId::VikingAssault => 34,
            UnitTypeId::VikingFighter => 35,
            UnitTypeId::CommandCenterFlying => 36,
            UnitTypeId::BarracksTechLab => 37,
            UnitTypeId::BarracksReactor => 38,
            UnitTypeId::FactoryTechLab => 39,
            UnitTypeId::FactoryReactor => 40,
            UnitTypeId::StarportTechLab => 41,
            UnitTypeId::StarportReactor => 42,
            UnitTypeId::FactoryFlying => 43,
            UnitTypeId::StarportFlying => 44,
            UnitTypeId::SCV => 45,
            UnitTypeId::BarracksFlying => 46,
            UnitTypeId::SupplyDepotLowered => 47,
            UnitTypeId::Marine => 48,
            UnitTypeId::Reaper => 49,
            UnitTypeId::TerranGhost => 50,
            UnitTypeId::Marauder => 51,
            UnitTypeId::Thor => 52,
            UnitTypeId::Hellion => 53,
            UnitTypeId::Medivac => 54,
            UnitTypeId::Banshee => 55,
            UnitTypeId::Raven => 56,
            UnitTypeId::Battlecruiser => 57,
            UnitTypeId::Nuke => 58,
            UnitTypeId::Nexus => 59,
            UnitTypeId::Pylon => 60,
            UnitTypeId::Assimilator => 61,
            UnitTypeId::Gateway => 62,
            UnitTypeId::Forge => 63,
            UnitTypeId::FleetBeacon => 64,
            UnitTypeId::TwilightCouncil => 65,
            UnitTypeId::PhotonCannon => 66,
            UnitTypeId::Stargate => 67,
            UnitTypeId::TemplarArchive => 68,
            UnitTypeId::DarkShrine => 69,
            UnitTypeId::RoboticsBay => 70,
            UnitTypeId::RoboticsFacility => 71,
            UnitTypeId::CyberneticsCore => 72,
            UnitTypeId::Zealot => 73,
            UnitTypeId::Stalker => 74,
            UnitTypeId::HighTemplar => 75,
            UnitTypeId::DarkTemplar => 76,
            UnitTypeId::Sentry => 77,
            UnitTypeId::Phoenix => 78,
            UnitTypeId::Carrier => 79,
            UnitTypeId::VoidRay => 80,
            UnitTypeId::WarpPrism => 81,
            UnitTypeId::Observer => 82,
            UnitTypeId::Immortal => 83,
            UnitTypeId::Probe => 84,
            UnitTypeId::Interceptor => 85,
            UnitTypeId::Hatchery => 86,
            UnitTypeId::CreepTumor => 87,
            UnitTypeId::Extractor => 88,
            UnitTypeId::SpawningPool => 89,
            UnitTypeId::EvolutionChamber => 90,
            UnitTypeId::HydraliskDen => 91,
            UnitTypeId::Spire => 92,
            UnitTypeId::UltraliskCavern => 93,
            UnitTypeId::InfestationPit => 94,
            UnitTypeId::NydusNetwork => 95,
            UnitTypeId::BanelingNest => 96,
            UnitTypeId::RoachWarren => 97,
            UnitTypeId::SpineCrawler => 98,
            UnitTypeId::SporeCrawler => 99,
            UnitTypeId::Lair => 100,
            UnitTypeId::Hive => 101,
            UnitTypeId::GreaterSpire => 102,
            UnitTypeId::Egg => 103,
            UnitTypeId::Drone => 104,
            UnitTypeId::Zergling => 105,
            UnitTypeId::Overlord => 106,
            UnitTypeId::Hydralisk => 107,
            UnitTypeId::Mutalisk => 108,
            UnitTypeId::Ultralisk => 109,
            UnitTypeId::Roach => 110,
            UnitTypeId::Infestor => 111,
            UnitTypeId::Corruptor => 112,
            UnitTypeId::BroodLordCocoon => 113,
            UnitTypeId::BroodLord => 114,
            UnitTypeId::BanelingBurrowed => 115,
            UnitTypeId::DroneBurrowed => 116,
            UnitTypeId::HydraliskBurrowed => 117,
            UnitTypeId::RoachBurrowed => 118,
            UnitTypeId::ZerglingBurrowed => 119,
            UnitTypeId::InfestorTerranBurrowed => 120,
            UnitTypeId::QueenBurrowed => 125,
            UnitTypeId::Queen => 126,
            UnitTypeId::InfestorBurrowed => 127,
            UnitTypeId::OverlordCocoon => 128,
            UnitTypeId::Overseer => 129,
            UnitTypeId::PlanetaryFortress => 130,
            UnitTypeId::UltraliskBurrowed => 131,
            UnitTypeId::OrbitalCommand => 132,
            UnitTypeId::WarpGate => 133,
            UnitTypeId::OrbitalCommandFlying => 134,
            UnitTypeId::ForceField => 135,
            UnitTypeId::WarpPrismPhasing => 136,
            UnitTypeId::CreepTumorBurrowed => 137,
            UnitTypeId::CreepTumorQueen => 138,
            UnitTypeId::SpineCrawlerUprooted => 139,
            UnitTypeId::SporeCrawlerUprooted => 140,
            UnitTypeId::Archon => 141,
            UnitTypeId::NydusCanal => 142,
            UnitTypeId::MULE => 268,
            UnitTypeId::Broodling => 289,
            UnitTypeId::Adept => 311,
            UnitTypeId::HellionTank => 484,
            UnitTypeId::MothershipCore => 488,
            UnitTypeId::LocustMP => 489,
            UnitTypeId::SwarmHostBurrowedMP => 493,
            UnitTypeId::SwarmHostMP => 494,
            UnitTypeId::Oracle => 495,
            UnitTypeId::Tempest => 496,
            UnitTypeId::WidowMine => 498,
            UnitTypeId::Viper => 499,
            UnitTypeId::WidowMineBurrowed => 500,
            UnitTypeId::LurkerMPEgg => 501,
            UnitTypeId::LurkerMP => 502,
            UnitTypeId::LurkerMPBurrowed => 503,
            UnitTypeId::LurkerDenMP => 504,
            UnitTypeId::RavagerCocoon => 687,
            UnitTypeId::Ravager => 688,
            UnitTypeId::Liberator => 689,
            UnitTypeId::ThorAP => 691,
            UnitTypeId::Cyclone => 692,
            UnitTypeId::LocustMPFlying => 693,
            UnitTypeId::Disruptor => 694,
            UnitTypeId::OracleStasisTrap => 732,
            UnitTypeId::DisruptorPhased => 733,
            UnitTypeId::LiberatorAG => 734,
            UnitTypeId::AdeptPhaseShift => 801,
            UnitTypeId::TransportOverlordCocoon => 892,
            UnitTypeId::OverlordTransport => 893,
            UnitTypeId::PylonOvercharged => 894,
            UnitTypeId::ShieldBattery => 1910,
            UnitTypeId::ObserverSiegeMode => 1911,
            UnitTypeId::OverseerSiegeMode => 1912,
        }
    }

    /// The unit type with code `n`, or `None` where the code is not known.
    pub open spec fn of_code(n: u32) -> Option<UnitTypeId> {
        if n == 0 {
            Some(UnitTypeId::NotAUnit)
        } else if n == 4 {
            Some(UnitTypeId::Colossus)
        } else if n == 5 {
            Some(UnitTypeId::TechLab)
        } else if n == 6 {
            Some(UnitTypeId::Reactor)
        } else if n == 7 {
            Some(UnitTypeId::InfestorTerran)
        } else if n == 8 {
            Some(UnitTypeId::BanelingCocoon)
        } else if n == 9 {
            Some(UnitTypeId::Baneling)
        } else if n == 10 {
            Some(UnitTypeId::Mothership)
        } else if n == 11 {
            Some(UnitTypeId::PointDefenseDrone)
        } else if n == 12 {
            Some(UnitTypeId::Changeling)
        } else if n == 13 {
            Some(UnitTypeId::ChangelingZealot)
        } else if n == 14 {
            Some(UnitTypeId::ChangelingMarineShield)
        } else if n == 15 {
            Some(UnitTypeId::ChangelingMarine)
        } else if n == 16 {
            Some(UnitTypeId::ChangelingZerglingWings)
        } else if n == 17 {
            Some(UnitTypeId::ChangelingZergling)
        } else if n == 18 {
            Some(UnitTypeId::CommandCenter)
        } else if n == 19 {
            Some(UnitTypeId::SupplyDepot)
        } else if n == 20 {
            Some(UnitTypeId::Refinery)
        } else if n == 21 {
            Some(UnitTypeId::Barracks)
        } else if n == 22 {
            Some(UnitTypeId::EngineeringBay)
        } else if n == 23 {
            Some(UnitTypeId::MissileTurret)
        } else if n == 24 {
            Some(UnitTypeId::Bunker)
        } else if n == 25 {
            Some(UnitTypeId::SensorTower)
        } else if n == 26 {
            Some(UnitTypeId::GhostAcademy)
        } else if n == 27 {
            Some(UnitTypeId::Factory)
        } else if n == 28 {
            Some(UnitTypeId::Starport)
        } else if n == 29 {
            Some(UnitTypeId::Armory)
        } else if n == 30 {
            Some(UnitTypeId::FusionCore)
        } else if n == 31 {
            Some(UnitTypeId::AutoTurret)
        } else if n == 32 {
            Some(UnitTypeId::SiegeTankSieged)
        } else if n == 33 {
            Some(UnitTypeId::SiegeTank)
        } else if n == 34 {
            Some(UnitTypeId::VikingAssault)
        } else if n == 35 {
            Some(UnitTypeId::VikingFighter)
        } else if n == 36 {
            Some(UnitTypeId::CommandCenterFlying)
        } else if n == 37 {
            Some(UnitTypeId::BarracksTechLab)
        } else if n == 38 {
            Some(UnitTypeId::BarracksReactor)
        } else if n == 39 {
            Some(UnitTypeId::FactoryTechLab)
        } else if n == 40 {
            Some(UnitTypeId::FactoryReactor)
        } else if n == 41 {
            Some(UnitTypeId::StarportTechLab)
        } else if n == 42 {
            Some(UnitTypeId::StarportReactor)
        } else if n == 43 {
            Some(UnitTypeId::FactoryFlying)
        } else if n == 44 {
            Some(UnitTypeId::StarportFlying)
        } else if n == 45 {
            Some(UnitTypeId::SCV)
        } else if n == 46 {
            Some(UnitTypeId::BarracksFlying)
        } else if n == 47 {
            Some(UnitTypeId::SupplyDepotLowered)
        } else if n == 48 {
            Some(UnitTypeId::Marine)
        } else if n == 49 {
            Some(UnitTypeId::Reaper)
        } else if n == 50 {
            Some(UnitTypeId::TerranGhost)
        } else if n == 51 {
            Some(UnitTypeId::Marauder)
        } else if n == 52 {
            Some(UnitTypeId::Thor)
        } else if n == 53 {
            Some(UnitTypeId::Hellion)
        } else if n == 54 {
            Some(UnitTypeId::Medivac)
        } else if n == 55 {
            Some(UnitTypeId::Banshee)
        } else if n == 56 {
            Some(UnitTypeId::Raven)
        } else if n == 57 {
            Some(UnitTypeId::Battlecruiser)
        } else if n == 58 {
            Some(UnitTypeId::Nuke)
        } else if n == 59 {
            Some(UnitTypeId::Nexus)
        } else if n == 60 {
            Some(UnitTypeId::Pylon)
        } else if n == 61 {
            Some(UnitTypeId::Assimilator)
        } else if n == 62 {
            Some(UnitTypeId::Gateway)
        } else if n == 63 {
            Some(UnitTypeId::Forge)
        } else if n == 64 {
            Some(UnitTypeId::FleetBeacon)
        } else if n == 65 {
            Some(UnitTypeId::TwilightCouncil)
        } else if n == 66 {
            Some(UnitTypeId::PhotonCannon)
        } else if n == 67 {
            Some(UnitTypeId::Stargate)
        } else if n == 68 {
            Some(UnitTypeId::TemplarArchive)
        } else if n == 69 {
            Some(UnitTypeId::DarkShrine)
        } else if n == 70 {
            Some(UnitTypeId::RoboticsBay)
        } else if n == 71 {
            Some(UnitTypeId::RoboticsFacility)
        } else if n == 72 {
            Some(UnitTypeId::CyberneticsCore)
        } else if n == 73 {
            Some(UnitTypeId::Zealot)
        } else if n == 74 {
            Some(UnitTypeId::Stalker)
        } else if n == 75 {
            Some(UnitTypeId::HighTemplar)
        } else if n == 76 {
            Some(UnitTypeId::DarkTemplar)
        } else if n == 77 {
            Some(UnitTypeId::Sentry)
        } else if n == 78 {
            Some(UnitTypeId::Phoenix)
        } else if n == 79 {
            Some(UnitTypeId::Carrier)
        } else if n == 80 {
            Some(UnitTypeId::VoidRay)
        } else if n == 81 {
            Some(UnitTypeId::WarpPrism)
        } else if n == 82 {
            Some(UnitTypeId::Observer)
        } else if n == 83 {
            Some(UnitTypeId::Immortal)
        } else if n == 84 {
            Some(UnitTypeId::Probe)
        } else if n == 85 {
            Some(UnitTypeId::Interceptor)
        } else if n == 86 {
            Some(UnitTypeId::Hatchery)
        } else if n == 87 {
            Some(UnitTypeId::CreepTumor)
        } else if n == 88 {
            Some(UnitTypeId::Extractor)
        } else if n == 89 {
            Some(UnitTypeId::SpawningPool)
        } else if n == 90 {
            Some(UnitTypeId::EvolutionChamber)
        } else if n == 91 {
            Some(UnitTypeId::HydraliskDen)
        } else if n == 92 {
            Some(UnitTypeId::Spire)
        } else if n == 93 {
            Some(UnitTypeId::UltraliskCavern)
        } else if n == 94 {
            Some(UnitTypeId::InfestationPit)
        } else if n == 95 {
            Some(UnitTypeId::NydusNetwork)
        } else if n == 96 {
            Some(UnitTypeId::BanelingNest)
        } else if n == 97 {
            Some(UnitTypeId::RoachWarren)
        } else if n == 98 {
            Some(UnitTypeId::SpineCrawler)
        } else if n == 99 {
            Some(UnitTypeId::SporeCrawler)
        } else if n == 100 {
            Some(UnitTypeId::Lair)
        } else if n == 101 {
            Some(UnitTypeId::Hive)
        } else if n == 102 {
            Some(UnitTypeId::GreaterSpire)
        } else if n == 103 {
            Some(UnitTypeId::Egg)
        } else if n == 104 {
            Some(UnitTypeId::Drone)
        } else if n == 105 {
            Some(UnitTypeId::Zergling)
        } else if n == 106 {
            Some(UnitTypeId::Overlord)
        } else if n == 107 {
            Some(UnitTypeId::Hydralisk)
        } else if n == 108 {
            Some(UnitTypeId::Mutalisk)
        } else if n == 109 {
            Some(UnitTypeId::Ultralisk)
        } else if n == 110 {
            Some(UnitTypeId::Roach)
        } else if n == 111 {
            Some(UnitTypeId::Infestor)
        } else if n == 112 {
            Some(UnitTypeId::Corruptor)
        } else if n == 113 {
            Some(UnitTypeId::BroodLordCocoon)
        } else if n == 114 {
            Some(UnitTypeId::BroodLord)
        } else if n == 115 {
            Some(UnitTypeId::BanelingBurrowed)
        } else if n == 116 {
            Some(UnitTypeId::DroneBurrowed)
        } else if n == 117 {
            Some(UnitTypeId::HydraliskBurrowed)
        } else if n == 118 {
            Some(UnitTypeId::RoachBurrowed)
        } else if n == 119 {
            Some(UnitTypeId::ZerglingBurrowed)
        } else if n == 120 {
            Some(UnitTypeId::InfestorTerranBurrowed)
        } else if n == 125 {
            Some(UnitTypeId::QueenBurrowed)
        } else if n == 126 {
            Some(UnitTypeId::Queen)
        } else if n == 127 {
            Some(UnitTypeId::InfestorBurrowed)
        } else if n == 128 {
            Some(UnitTypeId::OverlordCocoon)
        } else if n == 129 {
            Some(UnitTypeId::Overseer)
        } else if n == 130 {
            Some(UnitTypeId::PlanetaryFortress)
        } else if n == 131 {
            Some(UnitTypeId::UltraliskBurrowed)
        } else if n == 132 {
            Some(UnitTypeId::OrbitalCommand)
        } else if n == 133 {
            Some(UnitTypeId::WarpGate)
        } else if n == 134 {
            Some(UnitTypeId::OrbitalCommandFlying)
        } else if n == 135 {
            Some(UnitTypeId::ForceField)
        } else if n == 136 {
            Some(UnitTypeId::WarpPrismPhasing)
        } else if n == 137 {
            Some(UnitTypeId::CreepTumorBurrowed)
        } else if n == 138 {
            Some(UnitTypeId::CreepTumorQueen)
        } else if n == 139 {
            Some(UnitTypeId::SpineCrawlerUprooted)
        } else if n == 140 {
            Some(UnitTypeId::SporeCrawlerUprooted)
        } else if n == 141 {
            Some(UnitTypeId::Archon)
        } else if n == 142 {
            Some(UnitTypeId::NydusCanal)
        } else if n == 268 {
            Some(UnitTypeId::MULE)
        } else if n == 289 {
            Some(UnitTypeId::Broodling)
        } else if n == 311 {
            Some(UnitTypeId::Adept)
        } else if n == 484 {
            Some(UnitTypeId::HellionTank)
        } else if n == 488 {
            Some(UnitTypeId::MothershipCore)
        } else if n == 489 {
            Some(UnitTypeId::LocustMP)
        } else if n == 493 {
            Some(UnitTypeId::SwarmHostBurrowedMP)
        } else if n == 494 {
            Some(UnitTypeId::SwarmHostMP)
        } else if n == 495 {
            Some(UnitTypeId::Oracle)
        } else if n == 496 {
            Some(UnitTypeId::Tempest)
        } else if n == 498 {
            Some(UnitTypeId::WidowMine)
        } else if n == 499 {
            Some(UnitTypeId::Viper)
        } else if n == 500 {
            Some(UnitTypeId::WidowMineBurrowed)
        } else if n == 501 {
            Some(UnitTypeId::LurkerMPEgg)
        } else if n == 502 {
            Some(UnitTypeId::LurkerMP)
        } else if n == 503 {
            Some(UnitTypeId::LurkerMPBurrowed)
        } else if n == 504 {
            Some(UnitTypeId::LurkerDenMP)
        } else if n == 687 {
            Some(UnitTypeId::RavagerCocoon)
        } else if n == 688 {
            Some(UnitTypeId::Ravager)
        } else if n == 689 {
            Some(UnitTypeId::Liberator)
        } else if n == 691 {
            Some(UnitTypeId::ThorAP)
        } else if n == 692 {
            Some(UnitTypeId::Cyclone)
        } else if n == 693 {
            Some(UnitTypeId::LocustMPFlying)
        } else if n == 694 {
            Some(UnitTypeId::Disruptor)
        } else if n == 732 {
            Some(UnitTypeId::OracleStasisTrap)
        } else if n == 733 {
            Some(UnitTypeId::DisruptorPhased)
        } else if n == 734 {
            Some(UnitTypeId::LiberatorAG)
        } else if n == 801 {
            Some(UnitTypeId::AdeptPhaseShift)
        } else if n == 892 {
            Some(UnitTypeId::TransportOverlordCocoon)
        } else if n == 893 {
            Some(UnitTypeId::OverlordTransport)
        } else if n == 894 {
            Some(UnitTypeId::PylonOvercharged)
        } else if n == 1910 {
            Some(UnitTypeId::ShieldBattery)
        } else if n == 1911 {
            Some(UnitTypeId::ObserverSiegeMode)
        } else if n == 1912 {
            Some(UnitTypeId::OverseerSiegeMode)
        } else {
            None
        }
    }

    /// Gives the numeric code of this unit type.
    pub fn to_u32(self) -> (n: u32)
        ensures
            n == self.code(),
            UnitTypeId::of_code(n) == Some(self),
    {
        match self {
            UnitTypeId::NotAUnit => 0,
            UnitTypeId::Colossus => 4,
            UnitTypeId::TechLab => 5,
            UnitTypeId::Reactor => 6,
            UnitTypeId::InfestorTerran => 7,
            UnitTypeId::BanelingCocoon => 8,
            UnitTypeId::Baneling => 9,
            UnitTypeId::Mothership => 10,
            UnitTypeId::PointDefenseDrone => 11,
            UnitTypeId::Changeling => 12,
            UnitTypeId::ChangelingZealot => 13,
            UnitTypeId::ChangelingMarineShield => 14,
            UnitTypeId::ChangelingMarine => 15,
            UnitTypeId::ChangelingZerglingWings => 16,
            UnitTypeId::ChangelingZergling => 17,
            UnitTypeId::CommandCenter => 18,
            UnitTypeId::SupplyDepot => 19,
            UnitTypeId::Refinery => 20,
            UnitTypeId::Barracks => 21,
            UnitTypeId::EngineeringBay => 22,
            UnitTypeId::MissileTurret => 23,
            UnitTypeId::Bunker => 24,
            UnitTypeId::SensorTower => 25,
            UnitTypeId::GhostAcademy => 26,
            UnitTypeId::Factory => 27,
            UnitTypeId::Starport => 28,
            UnitTypeId::Armory => 29,
            UnitTypeId::FusionCore => 30,
            UnitTypeId::AutoTurret => 31,
            UnitTypeId::SiegeTankSieged => 32,
            UnitTypeId::SiegeTank => 33,
            UnitTypeId::VikingAssault => 34,
            UnitTypeId::VikingFighter => 35,
            UnitTypeId::CommandCenterFlying => 36,
            UnitTypeId::BarracksTechLab => 37,
            UnitTypeId::BarracksReactor => 38,
            UnitTypeId::FactoryTechLab => 39,
            UnitTypeId::FactoryReactor => 40,
            UnitTypeId::StarportTechLab => 41,
            UnitTypeId::StarportReactor => 42,
            UnitTypeId::FactoryFlying => 43,
            UnitTypeId::StarportFlying => 44,
            UnitTypeId::SCV => 45,
            UnitTypeId::BarracksFlying => 46,
            UnitTypeId::SupplyDepotLowered => 47,
            UnitTypeId::Marine => 48,
            UnitTypeId::Reaper => 49,
            UnitTypeId::TerranGhost => 50,
            UnitTypeId::Marauder => 51,
            UnitTypeId::Thor => 52,
            UnitTypeId::Hellion => 53,
            UnitTypeId::Medivac => 54,
            UnitTypeId::Banshee => 55,
            UnitTypeId::Raven => 56,
            UnitTypeId::Battlecruiser => 57,
            UnitTypeId::Nuke => 58,
            UnitTypeId::Nexus => 59,
            UnitTypeId::Pylon => 60,
            UnitTypeId::Assimilator => 61,
            UnitTypeId::Gateway => 62,
            UnitTypeId::Forge => 63,
            UnitTypeId::FleetBeacon => 64,
            UnitTypeId::TwilightCouncil => 65,
            UnitTypeId::PhotonCannon => 66,
            UnitTypeId::Stargate => 67,
            UnitTypeId::TemplarArchive => 68,
            UnitTypeId::DarkShrine => 69,
            UnitTypeId::RoboticsBay => 70,
            UnitTypeId::RoboticsFacility => 71,
            UnitTypeId::CyberneticsCore => 72,
            UnitTypeId::Zealot => 73,
            UnitTypeId::Stalker => 74,
            UnitTypeId::HighTemplar => 75,
            UnitTypeId::DarkTemplar => 76,
            UnitTypeId::Sentry => 77,
            UnitTypeId::Phoenix => 78,
            UnitTypeId::Carrier => 79,
            UnitTypeId::VoidRay => 80,
            UnitTypeId::WarpPrism => 81,
            UnitTypeId::Observer => 82,
            UnitTypeId::Immortal => 83,
            UnitTypeId::Probe => 84,
            UnitTypeId::Interceptor => 85,
            UnitTypeId::Hatchery => 86,
            UnitTypeId::CreepTumor => 87,
            UnitTypeId::Extractor => 88,
            UnitTypeId::SpawningPool => 89,
            UnitTypeId::EvolutionChamber => 90,
            UnitTypeId::HydraliskDen => 91,
            UnitTypeId::Spire => 92,
            UnitTypeId::UltraliskCavern => 93,
            UnitTypeId::InfestationPit => 94,
            UnitTypeId::NydusNetwork => 95,
            UnitTypeId::BanelingNest => 96,
            UnitTypeId::RoachWarren => 97,
            UnitTypeId::SpineCrawler => 98,
            UnitTypeId::SporeCrawler => 99,
            UnitTypeId::Lair => 100,
            UnitTypeId::Hive => 101,
            UnitTypeId::GreaterSpire => 102,
            UnitTypeId::Egg => 103,
            UnitTypeId::Drone => 104,
            UnitTypeId::Zergling => 105,
            UnitTypeId::Overlord => 106,
            UnitTypeId::Hydralisk => 107,
            UnitTypeId::Mutalisk => 108,
            UnitTypeId::Ultralisk => 109,
            UnitTypeId::Roach => 110,
            UnitTypeId::Infestor => 111,
            UnitTypeId::Corruptor => 112,
            UnitTypeId::BroodLordCocoon => 113,
            UnitTypeId::BroodLord => 114,
            UnitTypeId::BanelingBurrowed => 115,
            UnitTypeId::DroneBurrowed => 116,
            UnitTypeId::HydraliskBurrowed => 117,
            UnitTypeId::RoachBurrowed => 118,
            UnitTypeId::ZerglingBurrowed => 119,
            UnitTypeId::InfestorTerranBurrowed => 120,
            UnitTypeId::QueenBurrowed => 125,
            UnitTypeId::Queen => 126,
            UnitTypeId::InfestorBurrowed => 127,
            UnitTypeId::OverlordCocoon => 128,
            UnitTypeId::Overseer => 129,
            UnitTypeId::PlanetaryFortress => 130,
            UnitTypeId::UltraliskBurrowed => 131,
            UnitTypeId::OrbitalCommand => 132,
            UnitTypeId::WarpGate => 133,
            UnitTypeId::OrbitalCommandFlying => 134,
            UnitTypeId::ForceField => 135,
            UnitTypeId::WarpPrismPhasing => 136,
            UnitTypeId::CreepTumorBurrowed => 137,
            UnitTypeId::CreepTumorQueen => 138,
            UnitTypeId::SpineCrawlerUprooted => 139,
            UnitTypeId::SporeCrawlerUprooted => 140,
            UnitTypeId::Archon => 141,
            UnitTypeId::NydusCanal => 142,
            UnitTypeId::MULE => 268,
            UnitTypeId::Broodling => 289,
            UnitTypeId::Adept => 311,
            UnitTypeId::HellionTank => 484,
            UnitTypeId::MothershipCore => 488,
            UnitTypeId::LocustMP => 489,
            UnitTypeId::SwarmHostBurrowedMP => 493,
            UnitTypeId::SwarmHostMP => 494,
            UnitTypeId::Oracle => 495,
            UnitTypeId::Tempest => 496,
            UnitTypeId::WidowMine => 498,
            UnitTypeId::Viper => 499,
            UnitTypeId::WidowMineBurrowed => 500,
            UnitTypeId::LurkerMPEgg => 501,
            UnitTypeId::LurkerMP => 502,
            UnitTypeId::LurkerMPBurrowed => 503,
            UnitTypeId::LurkerDenMP => 504,
            UnitTypeId::RavagerCocoon => 687,
            UnitTypeId::Ravager => 688,
            UnitTypeId::Liberator => 689,
            UnitTypeId::ThorAP => 691,
            UnitTypeId::Cyclone => 692,
            UnitTypeId::LocustMPFlying => 693,
            UnitTypeId::Disruptor => 694,
            UnitTypeId::OracleStasisTrap => 732,
            UnitTypeId::DisruptorPhased => 733,
            UnitTypeId::LiberatorAG => 734,
            UnitTypeId::AdeptPhaseShift => 801,
            UnitTypeId::TransportOverlordCocoon => 892,
            UnitTypeId::OverlordTransport => 893,
            UnitTypeId::PylonOvercharged => 894,
            UnitTypeId::ShieldBattery => 1910,
            UnitTypeId::ObserverSiegeMode => 1911,
            UnitTypeId::OverseerSiegeMode => 1912,
        }
    }

    /// Decodes a numeric code. The result is the one unit type whose code is `n`;
    /// it is `None` exactly when no unit type has that code.
    pub fn from_u32(n: u32) -> (r: Option<UnitTypeId>)
        ensures
            r == UnitTypeId::of_code(n),
            r matches Some(id) ==> id.code() == n,
            r is None ==> forall|id: UnitTypeId| id.code() != n,
    {
        match n {
            0 => Some(UnitTypeId::NotAUnit),
            4 => Some(UnitTypeId::Colossus),
            5 => Some(UnitTypeId::TechLab),
            6 => Some(UnitTypeId::Reactor),
            7 => Some(UnitTypeId::InfestorTerran),
            8 => Some(UnitTypeId::BanelingCocoon),
            9 => Some(UnitTypeId::Baneling),
            10 => Some(UnitTypeId::Mothership),
            11 => Some(UnitTypeId::PointDefenseDrone),
            12 => Some(UnitTypeId::Changeling),
            13 => Some(UnitTypeId::ChangelingZealot),
            14 => Some(UnitTypeId::ChangelingMarineShield),
            15 => Some(UnitTypeId::ChangelingMarine),
            16 => Some(UnitTypeId::ChangelingZerglingWings),
            17 => Some(UnitTypeId::ChangelingZergling),
            18 => Some(UnitTypeId::CommandCenter),
            19 => Some(UnitTypeId::SupplyDepot),
            20 => Some(UnitTypeId::Refinery),
            21 => Some(UnitTypeId::Barracks),
            22 => Some(UnitTypeId::EngineeringBay),
            23 => Some(UnitTypeId::MissileTurret),
            24 => Some(UnitTypeId::Bunker),
            25 => Some(UnitTypeId::SensorTower),
            26 => Some(UnitTypeId::GhostAcademy),
            27 => Some(UnitTypeId::Factory),
            28 => Some(UnitTypeId::Starport),
            29 => Some(UnitTypeId::Armory),
            30 => Some(UnitTypeId::FusionCore),
            31 => Some(UnitTypeId::AutoTurret),
            32 => Some(UnitTypeId::SiegeTankSieged),
            33 => Some(UnitTypeId::SiegeTank),
            34 => Some(UnitTypeId::VikingAssault),
            35 => Some(UnitTypeId::VikingFighter),
            36 => Some(UnitTypeId::CommandCenterFlying),
            37 => Some(UnitTypeId::BarracksTechLab),
            38 => Some(UnitTypeId::BarracksReactor),
            39 => Some(UnitTypeId::FactoryTechLab),
            40 => Some(UnitTypeId::FactoryReactor),
            41 => Some(UnitTypeId::StarportTechLab),
            42 => Some(UnitTypeId::StarportReactor),
            43 => Some(UnitTypeId::FactoryFlying),
            44 => Some(UnitTypeId::StarportFlying),
            45 => Some(UnitTypeId::SCV),
            46 => Some(UnitTypeId::BarracksFlying),
            47 => Some(UnitTypeId::SupplyDepotLowered),
            48 => Some(UnitTypeId::Marine),
            49 => Some(UnitTypeId::Reaper),
            50 => Some(UnitTypeId::TerranGhost),
            51 => Some(UnitTypeId::Marauder),
            52 => Some(UnitTypeId::Thor),
            53 => Some(UnitTypeId::Hellion),
            54 => Some(UnitTypeId::Medivac),
            55 => Some(UnitTypeId::Banshee),
            56 => Some(UnitTypeId::Raven),
            57 => Some(UnitTypeId::Battlecruiser),
            58 => Some(UnitTypeId::Nuke),
            59 => Some(UnitTypeId::Nexus),
            60 => Some(UnitTypeId::Pylon),
            61 => Some(UnitTypeId::Assimilator),
            62 => Some(UnitTypeId::Gateway),
            63 => Some(UnitTypeId::Forge),
            64 => Some(UnitTypeId::FleetBeacon),
            65 => Some(UnitTypeId::TwilightCouncil),
            66 => Some(UnitTypeId::PhotonCannon),
            67 => Some(UnitTypeId::Stargate),
            68 => Some(UnitTypeId::TemplarArchive),
            69 => Some(UnitTypeId::DarkShrine),
            70 => Some(UnitTypeId::RoboticsBay),
            71 => Some(UnitTypeId::RoboticsFacility),
            72 => Some(UnitTypeId::CyberneticsCore),
            73 => Some(UnitTypeId::Zealot),
            74 => Some(UnitTypeId::Stalker),
            75 => Some(UnitTypeId::HighTemplar),
            76 => Some(UnitTypeId::DarkTemplar),
            77 => Some(UnitTypeId::Sentry),
            78 => Some(UnitTypeId::Phoenix),
            79 => Some(UnitTypeId::Carrier),
            80 => Some(UnitTypeId::VoidRay),
            81 => Some(UnitTypeId::WarpPrism),
            82 => Some(UnitTypeId::Observer),
            83 => Some(UnitTypeId::Immortal),
            84 => Some(UnitTypeId::Probe),
            85 => Some(UnitTypeId::Interceptor),
            86 => Some(UnitTypeId::Hatchery),
            87 => Some(UnitTypeId::CreepTumor),
            88 => Some(UnitTypeId::Extractor),
            89 => Some(UnitTypeId::SpawningPool),
            90 => Some(UnitTypeId::EvolutionChamber),
            91 => Some(UnitTypeId::HydraliskDen),
            92 => Some(UnitTypeId::Spire),
            93 => Some(UnitTypeId::UltraliskCavern),
            94 => Some(UnitTypeId::InfestationPit),
            95 => Some(UnitTypeId::NydusNetwork),
            96 => Some(UnitTypeId::BanelingNest),
            97 => Some(UnitTypeId::RoachWarren),
            98 => Some(UnitTypeId::SpineCrawler),
            99 => Some(UnitTypeId::SporeCrawler),
            100 => Some(UnitTypeId::Lair),
            101 => Some(UnitTypeId::Hive),
            102 => Some(UnitTypeId::GreaterSpire),
            103 => Some(UnitTypeId::Egg),
            104 => Some(UnitTypeId::Drone),
            105 => Some(UnitTypeId::Zergling),
            106 => Some(UnitTypeId::Overlord),
            107 => Some(UnitTypeId::Hydralisk),
            108 => Some(UnitTypeId::Mutalisk),
            109 => Some(UnitTypeId::Ultralisk),
            110 => Some(UnitTypeId::Roach),
            111 => Some(UnitTypeId::Infestor),
            112 => Some(UnitTypeId::Corruptor),
            113 => Some(UnitTypeId::BroodLordCocoon),
            114 => Some(UnitTypeId::BroodLord),
            115 => Some(UnitTypeId::BanelingBurrowed),
            116 => Some(UnitTypeId::DroneBurrowed),
            117 => Some(UnitTypeId::HydraliskBurrowed),
            118 => Some(UnitTypeId::RoachBurrowed),
            119 => Some(UnitTypeId::ZerglingBurrowed),
            120 => Some(UnitTypeId::InfestorTerranBurrowed),
            125 => Some(UnitTypeId::QueenBurrowed),
            126 => Some(UnitTypeId::Queen),
            127 => Some(UnitTypeId::InfestorBurrowed),
            128 => Some(UnitTypeId::OverlordCocoon),
            129 => Some(UnitTypeId::Overseer),
            130 => Some(UnitTypeId::PlanetaryFortress),
            131 => Some(UnitTypeId::UltraliskBurrowed),
            132 => Some(UnitTypeId::OrbitalCommand),
            133 => Some(UnitTypeId::WarpGate),
            134 => Some(UnitTypeId::OrbitalCommandFlying),
            135 => Some(UnitTypeId::ForceField),
            136 => Some(UnitTypeId::WarpPrismPhasing),
            137 => Some(UnitTypeId::CreepTumorBurrowed),
            138 => Some(UnitTypeId::CreepTumorQueen),
            139 => Some(UnitTypeId::SpineCrawlerUprooted),
            140 => Some(UnitTypeId::SporeCrawlerUprooted),
            141 => Some(UnitTypeId::Archon),
            142 => Some(UnitTypeId::NydusCanal),
            268 => Some(UnitTypeId::MULE),
            289 => Some(UnitTypeId::Broodling),
            311 => Some(UnitTypeId::Adept),
            484 => Some(UnitTypeId::HellionTank),
            488 => Some(UnitTypeId::MothershipCore),
            489 => Some(UnitTypeId::LocustMP),
            493 => Some(UnitTypeId::SwarmHostBurrowedMP),
            494 => Some(UnitTypeId::SwarmHostMP),
            495 => Some(UnitTypeId::Oracle),
            496 => Some(UnitTypeId::Tempest),
            498 => Some(UnitTypeId::WidowMine),
            499 => Some(UnitTypeId::Viper),
            500 => Some(UnitTypeId::WidowMineBurrowed),
            501 => Some(UnitTypeId::LurkerMPEgg),
            502 => Some(UnitTypeId::LurkerMP),
            503 => Some(UnitTypeId::LurkerMPBurrowed),
            504 => Some(UnitTypeId::LurkerDenMP),
            687 => Some(UnitTypeId::RavagerCocoon),
            688 => Some(UnitTypeId::Ravager),
            689 => Some(UnitTypeId::Liberator),
            691 => Some(UnitTypeId::ThorAP),
            692 => Some(UnitTypeId::Cyclone),
            693 => Some(UnitTypeId::LocustMPFlying),
            694 => Some(UnitTypeId::Disruptor),
            732 => Some(UnitTypeId::OracleStasisTrap),
            733 => Some(UnitTypeId::DisruptorPhased),
            734 => Some(UnitTypeId::LiberatorAG),
            801 => Some(UnitTypeId::AdeptPhaseShift),
            892 => Some(UnitTypeId::TransportOverlordCocoon),
            893 => Some(UnitTypeId::OverlordTransport),
            894 => Some(UnitTypeId::PylonOvercharged),
            1910 => Some(UnitTypeId::ShieldBattery),
            1911 => Some(UnitTypeId::ObserverSiegeMode),
            1912 => Some(UnitTypeId::OverseerSiegeMode),
            _ => None,
        }
    }
}

/// Decoding the code of any unit type gives that unit type back.
pub proof fn lemma_unit_type_id_round_trip(id: UnitTypeId)
    ensures
        UnitTypeId::of_code(id.code()) == Some(id),
{
}

/// A code decodes to a unit type only if it is that unit type's own code, so no two
/// codes share a unit type and no two unit types share a code.
pub proof fn lemma_unit_type_id_decode_exact(n: u32, id: UnitTypeId)
    ensures
        UnitTypeId::of_code(n) == Some(id) <==> id.code() == n,
{
}

} // verus!
