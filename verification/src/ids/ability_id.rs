use vstd::prelude::*;

verus! {

/// The abilities this library knows by name. Each one stands for a numeric code
/// of the game's catalog; a code with no entry here is not an error, it simply
/// has no ability.
#[derive(Clone, Copy, Debug, PartialEq, Eq, Hash, Structural)]
pub enum AbilityId {
    Null,
    Smart,
    TerranBuildCommandCenter,
    TerranBuildSupplyDepot,
    TerranBuildRefinery,
    TerranBuildBarracks,
    TerranBuildEngineeringBay,
    TerranBuildMissileTurret,
    TerranBuildBunker,
    TerranBuildSensorTower,
    TerranBuildGhostAcademy,
    TerranBuildFactory,
    TerranBuildStarport,
    TerranBuildArmory,
    TerranBuildFusionCore,
    CommandCenterTrainSCV,
    BarracksTrainMarine,
    BarracksTrainReaper,
    BarracksTrainGhost,
    BarracksTrainMarauder,
    ProtossBuildNexus,
    ProtossBuildPylon,
    ProtossBuildAssimilator,
    ProtossBuildGateway,
    ProtossBuildForge,
    ProtossBuildFleetBeacon,
    ProtossBuildTwilightCouncil,
    ProtossBuildPhotonCannon,
    ProtossBuildStargate,
    ProtossBuildTemplarArchive,
    ProtossBuildDarkShrine,
    ProtossBuildRoboticsBay,
    ProtossBuildRoboticsFacility,
    ProtossBuildCyberneticsCore,
    BuildShieldBattery,
    GatewayTrainZealot,
    GatewayTrainStalker,
    GatewayTrainHighTemplar,
    GatewayTrainDarkTemplar,
    GatewayTrainSentry,
    GatewayTrainAdept,
    NexusTrainProbe,
    ZergBuildHatchery,
    ZergBuildCreepTumor,
    ZergBuildExtractor,
    ZergBuildSpawningPool,
    ZergBuildEvolutionChamber,
    ZergBuildHydraliskDen,
    ZergBuildSpire,
    ZergBuildUltraliskCavern,
    ZergBuildInfestationPit,
    ZergBuildNydusNetwork,
    ZergBuildBanelingNest,
    BuildLurkerDen,
    ZergBuildRoachWarren,
    ZergBuildSpineCrawler,
    ZergBuildSporeCrawler,
    LarvaTrainDrone,
    LarvaTrainZergling,
    LarvaTrainOverlord,
    LarvaTrainHydralisk,
    LarvaTrainMutalisk,
    LarvaTrainUltralisk,
    LarvaTrainRoach,
    LarvaTrainInfestor,
    LarvaTrainCorruptor,
    LarvaTrainViper,
    LarvaTrainSwarmHost,
    TrainQueen,
}

impl AbilityId {
    /// The numeric code of this ability.
    pub open spec fn code(self) -> u32 {
        match self {
            AbilityId::Null => 0,
            AbilityId::Smart => 1,
            AbilityId::TerranBuildCommandCenter => 318,
            AbilityId::TerranBuildSupplyDepot => 319,
            AbilityId::TerranBuildRefinery => 320,
            AbilityId::TerranBuildBarracks => 321,
            AbilityId::TerranBuildEngineeringBay => 322,
            AbilityId::TerranBuildMissileTurret => 323,
            AbilityId::TerranBuildBunker => 324,
            AbilityId::TerranBuildSensorTower => 326,
            AbilityId::TerranBuildGhostAcademy => 327,
            AbilityId::TerranBuildFactory => 328,
            AbilityId::TerranBuildStarport => 329,
            AbilityId::TerranBuildArmory => 331,
            AbilityId::TerranBuildFusionCore => 333,
            AbilityId::CommandCenterTrainSCV => 524,
            AbilityId::BarracksTrainMarine => 560,
            AbilityId::BarracksTrainReaper => 561,
            AbilityId::BarracksTrainGhost => 562,
            AbilityId::BarracksTrainMarauder => 563,
            AbilityId::ProtossBuildNexus => 880,
            AbilityId::ProtossBuildPylon => 881,
            AbilityId::ProtossBuildAssimilator => 882,
            AbilityId::ProtossBuildGateway => 883,
            AbilityId::ProtossBuildForge => 884,
            AbilityId::ProtossBuildFleetBeacon => 885,
            AbilityId::ProtossBuildTwilightCouncil => 886,
            AbilityId::ProtossBuildPhotonCannon => 887,
            AbilityId::ProtossBuildStargate => 889,
            AbilityId::ProtossBuildTemplarArchive => 890,
            AbilityId::ProtossBuildDarkShrine => 891,
            AbilityId::ProtossBuildRoboticsBay => 892,
            AbilityId::ProtossBuildRoboticsFacility => 893,
            AbilityId::ProtossBuildCyberneticsCore => 894,
            AbilityId::BuildShieldBattery => 895,
            AbilityId::GatewayTrainZealot => 916,
            AbilityId::GatewayTrainStalker => 917,
            AbilityId::GatewayTrainHighTemplar => 919,
            AbilityId::GatewayTrainDarkTemplar => 920,
            AbilityId::GatewayTrainSentry => 921,
            AbilityId::GatewayTrainAdept => 922,
            AbilityId::NexusTrainProbe => 1006,
            AbilityId::ZergBuildHatchery => 1152,
            AbilityId::ZergBuildCreepTumor => 1153,
            AbilityId::ZergBuildExtractor => 1154,
            AbilityId::ZergBuildSpawningPool => 1155,
            AbilityId::ZergBuildEvolutionChamber => 1156,
            AbilityId::ZergBuildHydraliskDen => 1157,
            AbilityId::ZergBuildSpire => 1158,
            AbilityId::ZergBuildUltraliskCavern => 1159,
            AbilityId::ZergBuildInfestationPit => 1160,
            AbilityId::ZergBuildNydusNetwork => 1161,
            AbilityId::ZergBuildBanelingNest => 1162,
            AbilityId::BuildLurkerDen => 1163,
            AbilityId::ZergBuildRoachWarren => 1165,
            AbilityId::ZergBuildSpineCrawler => 1166,
            AbilityId::ZergBuildSporeCrawler => 1167,
            AbilityId::LarvaTrainDrone => 1342,
            AbilityId::LarvaTrainZergling => 1343,
            AbilityId::LarvaTrainOverlord => 1344,
            AbilityId::LarvaTrainHydralisk => 1345,
            AbilityId::LarvaTrainMutalisk => 1346,
            AbilityId::LarvaTrainUltralisk => 1348,
            AbilityId::LarvaTrainRoach => 1351,
            AbilityId::LarvaTrainInfestor => 1352,
            AbilityId::LarvaTrainCorruptor => 1353,
            AbilityId::LarvaTrainViper => 1354,
            AbilityId::LarvaTrainSwarmHost => 1356,
            AbilityId::TrainQueen => 1632,
        }
    }

    /// The ability with code `n`, or `None` where the code is not known.
    pub open spec fn of_code(n: u32) -> Option<AbilityId> {
        if n == 0 {
            Some(AbilityId::Null)
        } else if n == 1 {
            Some(AbilityId::Smart)
        } else if n == 318 {
            Some(AbilityId::TerranBuildCommandCenter)
        } else if n == 319 {
            Some(AbilityId::TerranBuildSupplyDepot)
        } else if n == 320 {
            Some(AbilityId::TerranBuildRefinery)
        } else if n == 321 {
            Some(AbilityId::TerranBuildBarracks)
        } else if n == 322 {
            Some(AbilityId::TerranBuildEngineeringBay)
        } else if n == 323 {
            Some(AbilityId::TerranBuildMissileTurret)
        } else if n == 324 {
            Some(AbilityId::TerranBuildBunker)
        } else if n == 326 {
            Some(AbilityId::TerranBuildSensorTower)
        } else if n == 327 {
            Some(AbilityId::TerranBuildGhostAcademy)
        } else if n == 328 {
            Some(AbilityId::TerranBuildFactory)
        } else if n == 329 {
            Some(AbilityId::TerranBuildStarport)
        } else if n == 331 {
            Some(AbilityId::TerranBuildArmory)
        } else if n == 333 {
            Some(AbilityId::TerranBuildFusionCore)
        } else if n == 524 {
            Some(AbilityId::CommandCenterTrainSCV)
        } else if n == 560 {
            Some(AbilityId::BarracksTrainMarine)
        } else if n == 561 {
            Some(AbilityId::BarracksTrainReaper)
        } else if n == 562 {
            Some(AbilityId::BarracksTrainGhost)
        } else if n == 563 {
            Some(AbilityId::BarracksTrainMarauder)
        } else if n == 880 {
            Some(AbilityId::ProtossBuildNexus)
        } else if n == 881 {
            Some(AbilityId::ProtossBuildPylon)
        } else if n == 882 {
            Some(AbilityId::ProtossBuildAssimilator)
        } else if n == 883 {
            Some(AbilityId::ProtossBuildGateway)
        } else if n == 884 {
            Some(AbilityId::ProtossBuildForge)
        } else if n == 885 {
            Some(AbilityId::ProtossBuildFleetBeacon)
        } else if n == 886 {
            Some(AbilityId::ProtossBuildTwilightCouncil)
        } else if n == 887 {
            Some(AbilityId::ProtossBuildPhotonCannon)
        } else if n == 889 {
            Some(AbilityId::ProtossBuildStargate)
        } else if n == 890 {
            Some(AbilityId::ProtossBuildTemplarArchive)
        } else if n == 891 {
            Some(AbilityId::ProtossBuildDarkShrine)
        } else if n == 892 {
            Some(AbilityId::ProtossBuildRoboticsBay)
        } else if n == 893 {
            Some(AbilityId::ProtossBuildRoboticsFacility)
        } else if n == 894 {
            Some(AbilityId::ProtossBuildCyberneticsCore)
        } else if n == 895 {
            Some(AbilityId::BuildShieldBattery)
        } else if n == 916 {
            Some(AbilityId::GatewayTrainZealot)
        } else if n == 917 {
            Some(AbilityId::GatewayTrainStalker)
        } else if n == 919 {
            Some(AbilityId::GatewayTrainHighTemplar)
        } else if n == 920 {
            Some(AbilityId::GatewayTrainDarkTemplar)
        } else if n == 921 {
            Some(AbilityId::GatewayTrainSentry)
        } else if n == 922 {
            Some(AbilityId::GatewayTrainAdept)
        } else if n == 1006 {
            Some(AbilityId::NexusTrainProbe)
        } else if n == 1152 {
            Some(AbilityId::ZergBuildHatchery)
        } else if n == 1153 {
            Some(AbilityId::ZergBuildCreepTumor)
        } else if n == 1154 {
            Some(AbilityId::ZergBuildExtractor)
        } else if n == 1155 {
            Some(AbilityId::ZergBuildSpawningPool)
        } else if n == 1156 {
            Some(AbilityId::ZergBuildEvolutionChamber)
        } else if n == 1157 {
            Some(AbilityId::ZergBuildHydraliskDen)
        } else if n == 1158 {
            Some(AbilityId::ZergBuildSpire)
        } else if n == 1159 {
            Some(AbilityId::ZergBuildUltraliskCavern)
        } else if n == 1160 {
            Some(AbilityId::ZergBuildInfestationPit)
        } else if n == 1161 {
            Some(AbilityId::ZergBuildNydusNetwork)
        } else if n == 1162 {
            Some(AbilityId::ZergBuildBanelingNest)
        } else if n == 1163 {
            Some(AbilityId::BuildLurkerDen)
        } else if n == 1165 {
            Some(AbilityId::ZergBuildRoachWarren)
        } else if n == 1166 {
            Some(AbilityId::ZergBuildSpineCrawler)
        } else if n == 1167 {
            Some(AbilityId::ZergBuildSporeCrawler)
        } else if n == 1342 {
            Some(AbilityId::LarvaTrainDrone)
        } else if n == 1343 {
            Some(AbilityId::LarvaTrainZergling)
        } else if n == 1344 {
            Some(AbilityId::LarvaTrainOverlord)
        } else if n == 1345 {
            Some(AbilityId::LarvaTrainHydralisk)
        } else if n == 1346 {
            Some(AbilityId::LarvaTrainMutalisk)
        } else if n == 1348 {
            Some(AbilityId::LarvaTrainUltralisk)
        } else if n == 1351 {
            Some(AbilityId::LarvaTrainRoach)
        } else if n == 1352 {
            Some(AbilityId::LarvaTrainInfestor)
        } else if n == 1353 {
            Some(AbilityId::LarvaTrainCorruptor)
        } else if n == 1354 {
            Some(AbilityId::LarvaTrainViper)
        } else if n == 1356 {
            Some(AbilityId::LarvaTrainSwarmHost)
        } else if n == 1632 {
            Some(AbilityId::TrainQueen)
        } else {
            None
        }
    }

    /// Gives the numeric code of this ability.
    pub fn to_u32(self) -> (n: u32)
        ensures
            n == self.code(),
            AbilityId::of_code(n) == Some(self),
    {
        match self {
            AbilityId::Null => 0,
            AbilityId::Smart => 1,
            AbilityId::TerranBuildCommandCenter => 318,
            AbilityId::TerranBuildSupplyDepot => 319,
            AbilityId::TerranBuildRefinery => 320,
            AbilityId::TerranBuildBarracks => 321,
            AbilityId::TerranBuildEngineeringBay => 322,
            AbilityId::TerranBuildMissileTurret => 323,
            AbilityId::TerranBuildBunker => 324,
            AbilityId::TerranBuildSensorTower => 326,
            AbilityId::TerranBuildGhostAcademy => 327,
            AbilityId::TerranBuildFactory => 328,
            AbilityId::TerranBuildStarport => 329,
            AbilityId::TerranBuildArmory => 331,
            AbilityId::TerranBuildFusionCore => 333,
            AbilityId::CommandCenterTrainSCV => 524,
            AbilityId::BarracksTrainMarine => 560,
            AbilityId::BarracksTrainReaper => 561,
            AbilityId::BarracksTrainGhost => 562,
            AbilityId::BarracksTrainMarauder => 563,
            AbilityId::ProtossBuildNexus => 880,
            AbilityId::ProtossBuildPylon => 881,
            AbilityId::ProtossBuildAssimilator => 882,
            AbilityId::ProtossBuildGateway => 883,
            AbilityId::ProtossBuildForge => 884,
            AbilityId::ProtossBuildFleetBeacon => 885,
            AbilityId::ProtossBuildTwilightCouncil => 886,
            AbilityId::ProtossBuildPhotonCannon => 887,
            AbilityId::ProtossBuildStargate => 889,
            AbilityId::ProtossBuildTemplarArchive => 890,
            AbilityId::ProtossBuildDarkShrine => 891,
            AbilityId::ProtossBuildRoboticsBay => 892,
            AbilityId::ProtossBuildRoboticsFacility => 893,
            AbilityId::ProtossBuildCyberneticsCore => 894,
            AbilityId::BuildShieldBattery => 895,
            AbilityId::GatewayTrainZealot => 916,
            AbilityId::GatewayTrainStalker => 917,
            AbilityId::GatewayTrainHighTemplar => 919,
            AbilityId::GatewayTrainDarkTemplar => 920,
            AbilityId::GatewayTrainSentry => 921,
            AbilityId::GatewayTrainAdept => 922,
            AbilityId::NexusTrainProbe => 1006,
            AbilityId::ZergBuildHatchery => 1152,
            AbilityId::ZergBuildCreepTumor => 1153,
            AbilityId::ZergBuildExtractor => 1154,
            AbilityId::ZergBuildSpawningPool => 1155,
            AbilityId::ZergBuildEvolutionChamber => 1156,
            AbilityId::ZergBuildHydraliskDen => 1157,
            AbilityId::ZergBuildSpire => 1158,
            AbilityId::ZergBuildUltraliskCavern => 1159,
            AbilityId::ZergBuildInfestationPit => 1160,
            AbilityId::ZergBuildNydusNetwork => 1161,
            AbilityId::ZergBuildBanelingNest => 1162,
            AbilityId::BuildLurkerDen => 1163,
            AbilityId::ZergBuildRoachWarren => 1165,
            AbilityId::ZergBuildSpineCrawler => 1166,
            AbilityId::ZergBuildSporeCrawler => 1167,
            AbilityId::LarvaTrainDrone => 1342,
            AbilityId::LarvaTrainZergling => 1343,
            AbilityId::LarvaTrainOverlord => 1344,
            AbilityId::LarvaTrainHydralisk => 1345,
            AbilityId::LarvaTrainMutalisk => 1346,
            AbilityId::LarvaTrainUltralisk => 1348,
            AbilityId::LarvaTrainRoach => 1351,
            AbilityId::LarvaTrainInfestor => 1352,
            AbilityId::LarvaTrainCorruptor => 1353,
            AbilityId::LarvaTrainViper => 1354,
            AbilityId::LarvaTrainSwarmHost => 1356,
            AbilityId::TrainQueen => 1632,
        }
    }

    /// Decodes a numeric code. The result is the one ability whose code is `n`;
    /// it is `None` exactly when no ability has that code.
    pub fn from_u32(n: u32) -> (r: Option<AbilityId>)
        ensures
            r == AbilityId::of_code(n),
            r matches Some(id) ==> id.code() == n,
            r is None ==> forall|id: AbilityId| id.code() != n,
    {
        match n {
            0 => Some(AbilityId::Null),
            1 => Some(AbilityId::Smart),
            318 => Some(AbilityId::TerranBuildCommandCenter),
            319 => Some(AbilityId::TerranBuildSupplyDepot),
            320 => Some(AbilityId::TerranBuildRefinery),
            321 => Some(AbilityId::TerranBuildBarracks),
            322 => Some(AbilityId::TerranBuildEngineeringBay),
            323 => Some(AbilityId::TerranBuildMissileTurret),
            324 => Some(AbilityId::TerranBuildBunker),
            326 => Some(AbilityId::TerranBuildSensorTower),
            327 => Some(AbilityId::TerranBuildGhostAcademy),
            328 => Some(AbilityId::TerranBuildFactory),
            329 => Some(AbilityId::TerranBuildStarport),
            331 => Some(AbilityId::TerranBuildArmory),
            333 => Some(AbilityId::TerranBuildFusionCore),
            524 => Some(AbilityId::CommandCenterTrainSCV),
            560 => Some(AbilityId::BarracksTrainMarine),
            561 => Some(AbilityId::BarracksTrainReaper),
            562 => Some(AbilityId::BarracksTrainGhost),
            563 => Some(AbilityId::BarracksTrainMarauder),
            880 => Some(AbilityId::ProtossBuildNexus),
            881 => Some(AbilityId::ProtossBuildPylon),
            882 => Some(AbilityId::ProtossBuildAssimilator),
            883 => Some(AbilityId::ProtossBuildGateway),
            884 => Some(AbilityId::ProtossBuildForge),
            885 => Some(AbilityId::ProtossBuildFleetBeacon),
            886 => Some(AbilityId::ProtossBuildTwilightCouncil),
            887 => Some(AbilityId::ProtossBuildPhotonCannon),
            889 => Some(AbilityId::ProtossBuildStargate),
            890 => Some(AbilityId::ProtossBuildTemplarArchive),
            891 => Some(AbilityId::ProtossBuildDarkShrine),
            892 => Some(AbilityId::ProtossBuildRoboticsBay),
            893 => Some(AbilityId::ProtossBuildRoboticsFacility),
            894 => Some(AbilityId::ProtossBuildCyberneticsCore),
            895 => Some(AbilityId::BuildShieldBattery),
            916 => Some(AbilityId::GatewayTrainZealot),
            917 => Some(AbilityId::GatewayTrainStalker),
            919 => Some(AbilityId::GatewayTrainHighTemplar),
            920 => Some(AbilityId::GatewayTrainDarkTemplar),
            921 => Some(AbilityId::GatewayTrainSentry),
            922 => Some(AbilityId::GatewayTrainAdept),
            1006 => Some(AbilityId::NexusTrainProbe),
            1152 => Some(AbilityId::ZergBuildHatchery),
            1153 => Some(AbilityId::ZergBuildCreepTumor),
            1154 => Some(AbilityId::ZergBuildExtractor),
            1155 => Some(AbilityId::ZergBuildSpawningPool),
            1156 => Some(AbilityId::ZergBuildEvolutionChamber),
            1157 => Some(AbilityId::ZergBuildHydraliskDen),
            1158 => Some(AbilityId::ZergBuildSpire),
            1159 => Some(AbilityId::ZergBuildUltraliskCavern),
            1160 => Some(AbilityId::ZergBuildInfestationPit),
            1161 => Some(AbilityId::ZergBuildNydusNetwork),
            1162 => Some(AbilityId::ZergBuildBanelingNest),
            1163 => Some(AbilityId::BuildLurkerDen),
            1165 => Some(AbilityId::ZergBuildRoachWarren),
            1166 => Some(AbilityId::ZergBuildSpineCrawler),
            1167 => Some(AbilityId::ZergBuildSporeCrawler),
            1342 => Some(AbilityId::LarvaTrainDrone),
            1343 => Some(AbilityId::LarvaTrainZergling),
            1344 => Some(AbilityId::LarvaTrainOverlord),
            1345 => Some(AbilityId::LarvaTrainHydralisk),
            1346 => Some(AbilityId::LarvaTrainMutalisk),
            1348 => Some(AbilityId::LarvaTrainUltralisk),
            1351 => Some(AbilityId::LarvaTrainRoach),
            1352 => Some(AbilityId::LarvaTrainInfestor),
            1353 => Some(AbilityId::LarvaTrainCorruptor),
            1354 => Some(AbilityId::LarvaTrainViper),
            1356 => Some(AbilityId::LarvaTrainSwarmHost),
            1632 => Some(AbilityId::TrainQueen),
            _ => None,
        }
    }
}

/// Decoding the code of any ability gives that ability back.
pub proof fn lemma_ability_id_round_trip(id: AbilityId)
    ensures
        AbilityId::of_code(id.code()) == Some(id),
{
}

/// A code decodes to a ability only if it is that ability's own code, so no two
/// codes share a ability and no two abilities share a code.
pub proof fn lemma_ability_id_decode_exact(n: u32, id: AbilityId)
    ensures
        AbilityId::of_code(n) == Some(id) <==> id.code() == n,
{
}

} // verus!
