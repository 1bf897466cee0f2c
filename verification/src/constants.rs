use crate::game_data::TargetType;
use crate::ids::{AbilityId, UnitTypeId};
use crate::player::Race;
use vstd::prelude::*;

verus! {

/// The unit types that gather resources, one for each race.
pub const WORKER_IDS: [UnitTypeId; 3] = [
    UnitTypeId::SCV,
    UnitTypeId::Drone,
    UnitTypeId::Probe,
];

/// The main buildings of the three races, in all their forms.
pub const TOWNHALL_IDS: [UnitTypeId; 9] = [
    UnitTypeId::CommandCenter,
    UnitTypeId::OrbitalCommand,
    UnitTypeId::PlanetaryFortress,
    UnitTypeId::CommandCenterFlying,
    UnitTypeId::OrbitalCommandFlying,
    UnitTypeId::Hatchery,
    UnitTypeId::Lair,
    UnitTypeId::Hive,
    UnitTypeId::Nexus,
];

/// The add-ons of Terran production buildings.
pub const ADDON_IDS: [UnitTypeId; 8] = [
    UnitTypeId::TechLab,
    UnitTypeId::Reactor,
    UnitTypeId::BarracksTechLab,
    UnitTypeId::BarracksReactor,
    UnitTypeId::FactoryTechLab,
    UnitTypeId::FactoryReactor,
    UnitTypeId::StarportTechLab,
    UnitTypeId::StarportReactor,
];

/// The unit types that fight hand to hand.
pub const MELEE_IDS: [UnitTypeId; 14] = [
    UnitTypeId::SCV,
    UnitTypeId::Drone,
    UnitTypeId::DroneBurrowed,
    UnitTypeId::Probe,
    UnitTypeId::Zergling,
    UnitTypeId::ZerglingBurrowed,
    UnitTypeId::BanelingCocoon,
    UnitTypeId::Baneling,
    UnitTypeId::BanelingBurrowed,
    UnitTypeId::Broodling,
    UnitTypeId::Zealot,
    UnitTypeId::DarkTemplar,
    UnitTypeId::Ultralisk,
    UnitTypeId::UltraliskBurrowed,
];

/// The target types of a weapon that can hit units on the ground.
pub const TARGET_GROUND: [TargetType; 2] = [
    TargetType::Ground,
    TargetType::Any,
];

/// The target types of a weapon that can hit units in the air.
pub const TARGET_AIR: [TargetType; 2] = [
    TargetType::Air,
    TargetType::Any,
];

/// The abilities that start the construction of a building.
pub const CONSTRUCTING_IDS: [AbilityId; 43] = [
    AbilityId::TerranBuildCommandCenter,
    AbilityId::TerranBuildSupplyDepot,
    AbilityId::TerranBuildRefinery,
    AbilityId::TerranBuildBarracks,
    AbilityId::TerranBuildEngineeringBay,
    AbilityId::TerranBuildMissileTurret,
    AbilityId::TerranBuildBunker,
    AbilityId::TerranBuildSensorTower,
    AbilityId::TerranBuildGhostAcademy,
    AbilityId::TerranBuildFactory,
    AbilityId::TerranBuildStarport,
    AbilityId::TerranBuildArmory,
    AbilityId::TerranBuildFusionCore,
    AbilityId::ProtossBuildNexus,
    AbilityId::ProtossBuildPylon,
    AbilityId::ProtossBuildAssimilator,
    AbilityId::ProtossBuildGateway,
    AbilityId::ProtossBuildForge,
    AbilityId::ProtossBuildFleetBeacon,
    AbilityId::ProtossBuildTwilightCouncil,
    AbilityId::ProtossBuildPhotonCannon,
    AbilityId::ProtossBuildStargate,
    AbilityId::ProtossBuildTemplarArchive,
    AbilityId::ProtossBuildDarkShrine,
    AbilityId::ProtossBuildRoboticsBay,
    AbilityId::ProtossBuildRoboticsFacility,
    AbilityId::ProtossBuildCyberneticsCore,
    AbilityId::BuildShieldBattery,
    AbilityId::ZergBuildHatchery,
    AbilityId::ZergBuildCreepTumor,
    AbilityId::ZergBuildExtractor,
    AbilityId::ZergBuildSpawningPool,
    AbilityId::ZergBuildEvolutionChamber,
    AbilityId::ZergBuildHydraliskDen,
    AbilityId::ZergBuildSpire,
    AbilityId::ZergBuildUltraliskCavern,
    AbilityId::ZergBuildInfestationPit,
    AbilityId::ZergBuildNydusNetwork,
    AbilityId::ZergBuildBanelingNest,
    AbilityId::BuildLurkerDen,
    AbilityId::ZergBuildRoachWarren,
    AbilityId::ZergBuildSpineCrawler,
    AbilityId::ZergBuildSporeCrawler,
];

/// Whether a list of unit types holds one.
fn holds_unit_type(ids: &[UnitTypeId], id: UnitTypeId) -> (r: bool)
    ensures
        r == ids@.contains(id),
{
    let mut i: usize = 0;
    while i < ids.len()
        invariant
            i <= ids@.len(),
            forall|k: int| 0 <= k < i ==> ids@[k] != id,
        decreases ids@.len() - i,
    {
        if ids[i] == id {
            return true;
        }
        i = i + 1;
    }
    false
}

/// Whether a list of abilities holds one.
fn holds_ability(ids: &[AbilityId], id: AbilityId) -> (r: bool)
    ensures
        r == ids@.contains(id),
{
    let mut i: usize = 0;
    while i < ids.len()
        invariant
            i <= ids@.len(),
            forall|k: int| 0 <= k < i ==> ids@[k] != id,
        decreases ids@.len() - i,
    {
        if ids[i] == id {
            return true;
        }
        i = i + 1;
    }
    false
}

/// Whether units of this type gather resources.
pub fn is_worker(id: UnitTypeId) -> (r: bool)
    ensures
        r == WORKER_IDS@.contains(id),
{
    holds_unit_type(WORKER_IDS.as_slice(), id)
}

/// Whether this unit type is a main building, in any of its forms.
pub fn is_townhall(id: UnitTypeId) -> (r: bool)
    ensures
        r == TOWNHALL_IDS@.contains(id),
{
    holds_unit_type(TOWNHALL_IDS.as_slice(), id)
}

/// Whether this unit type is an add-on.
pub fn is_addon(id: UnitTypeId) -> (r: bool)
    ensures
        r == ADDON_IDS@.contains(id),
{
    holds_unit_type(ADDON_IDS.as_slice(), id)
}

/// Whether units of this type fight hand to hand.
pub fn is_melee(id: UnitTypeId) -> (r: bool)
    ensures
        r == MELEE_IDS@.contains(id),
{
    holds_unit_type(MELEE_IDS.as_slice(), id)
}

/// Whether this ability starts the construction of a building.
pub fn is_constructing(id: AbilityId) -> (r: bool)
    ensures
        r == CONSTRUCTING_IDS@.contains(id),
{
    holds_ability(CONSTRUCTING_IDS.as_slice(), id)
}

/// Whether a weapon with this target type can hit units on the ground.
pub fn targets_ground(target: TargetType) -> (r: bool)
    ensures
        r == TARGET_GROUND@.contains(target),
        r <==> target != TargetType::Air,
{
    assert(TARGET_GROUND@[0] == TargetType::Ground);
    assert(TARGET_GROUND@[1] == TargetType::Any);
    target == TARGET_GROUND[0] || target == TARGET_GROUND[1]
}

/// Whether a weapon with this target type can hit units in the air.
pub fn targets_air(target: TargetType) -> (r: bool)
    ensures
        r == TARGET_AIR@.contains(target),
        r <==> target != TargetType::Ground,
{
    assert(TARGET_AIR@[0] == TargetType::Air);
    assert(TARGET_AIR@[1] == TargetType::Any);
    target == TARGET_AIR[0] || target == TARGET_AIR[1]
}

/// The unit types that make up the economy of one race.
#[derive(Clone, Debug)]
pub struct RaceValues {
    pub start_townhall: UnitTypeId,
    pub townhalls: Vec<UnitTypeId>,
    pub gas_building: UnitTypeId,
    pub supply: UnitTypeId,
    pub worker: UnitTypeId,
}

/// The value of a `RaceValues`.
pub struct RaceValuesView {
    pub start_townhall: UnitTypeId,
    pub townhalls: Seq<UnitTypeId>,
    pub gas_building: UnitTypeId,
    pub supply: UnitTypeId,
    pub worker: UnitTypeId,
}

impl View for RaceValues {
    type V = RaceValuesView;

    open spec fn view(&self) -> RaceValuesView {
        RaceValuesView {
            start_townhall: self.start_townhall,
            townhalls: self.townhalls@,
            gas_building: self.gas_building,
            supply: self.supply,
            worker: self.worker,
        }
    }
}

impl Default for RaceValues {
    /// The values of no race: no unit type in any place, and no main building.
    fn default() -> (r: RaceValues)
        ensures
            r@ == (RaceValuesView {
                start_townhall: UnitTypeId::NotAUnit,
                townhalls: Seq::empty(),
                gas_building: UnitTypeId::NotAUnit,
                supply: UnitTypeId::NotAUnit,
                worker: UnitTypeId::NotAUnit,
            }),
    {
        RaceValues {
            start_townhall: UnitTypeId::NotAUnit,
            townhalls: Vec::new(),
            gas_building: UnitTypeId::NotAUnit,
            supply: UnitTypeId::NotAUnit,
            worker: UnitTypeId::NotAUnit,
        }
    }
}

/// The economy of each of the three races. `Random` is no race of its own
/// and has no values.
pub open spec fn race_values_of(race: Race) -> Option<RaceValuesView> {
    match race {
        Race::Terran => Some(
            RaceValuesView {
                start_townhall: UnitTypeId::CommandCenter,
                townhalls: seq![
                    UnitTypeId::CommandCenter,
                    UnitTypeId::OrbitalCommand,
                    UnitTypeId::PlanetaryFortress,
                    UnitTypeId::CommandCenterFlying,
                    UnitTypeId::OrbitalCommandFlying,
                ],
                gas_building: UnitTypeId::Refinery,
                supply: UnitTypeId::SupplyDepot,
                worker: UnitTypeId::SCV,
            },
        ),
        Race::Zerg => Some(
            RaceValuesView {
                start_townhall: UnitTypeId::Hatchery,
                townhalls: seq![UnitTypeId::Hatchery, UnitTypeId::Lair, UnitTypeId::Hive],
                gas_building: UnitTypeId::Extractor,
                supply: UnitTypeId::Overlord,
                worker: UnitTypeId::Drone,
            },
        ),
        Race::Protoss => Some(
            RaceValuesView {
                start_townhall: UnitTypeId::Nexus,
                townhalls: seq![UnitTypeId::Nexus],
                gas_building: UnitTypeId::Assimilator,
                supply: UnitTypeId::Pylon,
                worker: UnitTypeId::Probe,
            },
        ),
        Race::Random => None,
    }
}

/// Looks up the economy of a race.
pub fn race_values(race: Race) -> (r: Option<RaceValues>)
    ensures
        r is Some <==> race_values_of(race) is Some,
        r matches Some(v) ==> race_values_of(race) == Some(v@),
{
    match race {
        Race::Terran => {
            let townhalls = vec![
                UnitTypeId::CommandCenter,
                UnitTypeId::OrbitalCommand,
                UnitTypeId::PlanetaryFortress,
                UnitTypeId::CommandCenterFlying,
                UnitTypeId::OrbitalCommandFlying,
            ];
            assert(townhalls@ =~= race_values_of(race).unwrap().townhalls);
            Some(
                RaceValues {
                    start_townhall: UnitTypeId::CommandCenter,
                    townhalls,
                    gas_building: UnitTypeId::Refinery,
                    supply: UnitTypeId::SupplyDepot,
                    worker: UnitTypeId::SCV,
                },
            )
        },
        Race::Zerg => {
            let townhalls = vec![UnitTypeId::Hatchery, UnitTypeId::Lair, UnitTypeId::Hive];
            assert(townhalls@ =~= race_values_of(race).unwrap().townhalls);
            Some(
                RaceValues {
                    start_townhall: UnitTypeId::Hatchery,
                    townhalls,
                    gas_building: UnitTypeId::Extractor,
                    supply: UnitTypeId::Overlord,
                    worker: UnitTypeId::Drone,
                },
            )
        },
        Race::Protoss => {
            let townhalls = vec![UnitTypeId::Nexus];
            assert(townhalls@ =~= race_values_of(race).unwrap().townhalls);
            Some(
                RaceValues {
                    start_townhall: UnitTypeId::Nexus,
                    townhalls,
                    gas_building: UnitTypeId::Assimilator,
                    supply: UnitTypeId::Pylon,
                    worker: UnitTypeId::Probe,
                },
            )
        },
        Race::Random => None,
    }
}

/// The building that must stand before a unit type can be made, for the unit
/// types that need one. A unit type without an entry needs none.
pub open spec fn tech_requirement_of(id: UnitTypeId) -> Option<UnitTypeId> {
    match id {
        UnitTypeId::MissileTurret => Some(UnitTypeId::EngineeringBay),
        UnitTypeId::SensorTower => Some(UnitTypeId::EngineeringBay),
        UnitTypeId::PlanetaryFortress => Some(UnitTypeId::EngineeringBay),
        UnitTypeId::Barracks => Some(UnitTypeId::SupplyDepot),
        UnitTypeId::OrbitalCommand => Some(UnitTypeId::Barracks),
        UnitTypeId::Bunker => Some(UnitTypeId::Barracks),
        UnitTypeId::TerranGhost => Some(UnitTypeId::GhostAcademy),
        UnitTypeId::GhostAcademy => Some(UnitTypeId::Barracks),
        UnitTypeId::Factory => Some(UnitTypeId::Barracks),
        UnitTypeId::Armory => Some(UnitTypeId::Factory),
        UnitTypeId::HellionTank => Some(UnitTypeId::Armory),
        UnitTypeId::Thor => Some(UnitTypeId::Armory),
        UnitTypeId::Starport => Some(UnitTypeId::Factory),
        UnitTypeId::FusionCore => Some(UnitTypeId::Starport),
        UnitTypeId::Battlecruiser => Some(UnitTypeId::FusionCore),
        UnitTypeId::PhotonCannon => Some(UnitTypeId::Forge),
        UnitTypeId::CyberneticsCore => Some(UnitTypeId::Gateway),
        UnitTypeId::Sentry => Some(UnitTypeId::CyberneticsCore),
        UnitTypeId::Stalker => Some(UnitTypeId::CyberneticsCore),
        UnitTypeId::Adept => Some(UnitTypeId::CyberneticsCore),
        UnitTypeId::TwilightCouncil => Some(UnitTypeId::CyberneticsCore),
        UnitTypeId::ShieldBattery => Some(UnitTypeId::CyberneticsCore),
        UnitTypeId::TemplarArchive => Some(UnitTypeId::TwilightCouncil),
        UnitTypeId::DarkShrine => Some(UnitTypeId::TwilightCouncil),
        UnitTypeId::HighTemplar => Some(UnitTypeId::TemplarArchive),
        UnitTypeId::DarkTemplar => Some(UnitTypeId::DarkShrine),
        UnitTypeId::Stargate => Some(UnitTypeId::CyberneticsCore),
        UnitTypeId::Tempest => Some(UnitTypeId::FleetBeacon),
        UnitTypeId::Carrier => Some(UnitTypeId::FleetBeacon),
        UnitTypeId::Mothership => Some(UnitTypeId::FleetBeacon),
        UnitTypeId::RoboticsFacility => Some(UnitTypeId::CyberneticsCore),
        UnitTypeId::RoboticsBay => Some(UnitTypeId::RoboticsFacility),
        UnitTypeId::Colossus => Some(UnitTypeId::RoboticsBay),
        UnitTypeId::Disruptor => Some(UnitTypeId::RoboticsBay),
        UnitTypeId::Zergling => Some(UnitTypeId::SpawningPool),
        UnitTypeId::Queen => Some(UnitTypeId::SpawningPool),
        UnitTypeId::RoachWarren => Some(UnitTypeId::SpawningPool),
        UnitTypeId::BanelingNest => Some(UnitTypeId::SpawningPool),
        UnitTypeId::SpineCrawler => Some(UnitTypeId::SpawningPool),
        UnitTypeId::SporeCrawler => Some(UnitTypeId::SpawningPool),
        UnitTypeId::Roach => Some(UnitTypeId::RoachWarren),
        UnitTypeId::Baneling => Some(UnitTypeId::BanelingNest),
        UnitTypeId::Lair => Some(UnitTypeId::SpawningPool),
        UnitTypeId::Overseer => Some(UnitTypeId::Lair),
        UnitTypeId::OverlordTransport => Some(UnitTypeId::Lair),
        UnitTypeId::InfestationPit => Some(UnitTypeId::Lair),
        UnitTypeId::Infestor => Some(UnitTypeId::InfestationPit),
        UnitTypeId::SwarmHostMP => Some(UnitTypeId::InfestationPit),
        UnitTypeId::HydraliskDen => Some(UnitTypeId::Lair),
        UnitTypeId::Hydralisk => Some(UnitTypeId::HydraliskDen),
        UnitTypeId::LurkerDenMP => Some(UnitTypeId::HydraliskDen),
        UnitTypeId::LurkerMP => Some(UnitTypeId::LurkerDenMP),
        UnitTypeId::Spire => Some(UnitTypeId::Lair),
        UnitTypeId::Mutalisk => Some(UnitTypeId::Spire),
        UnitTypeId::Corruptor => Some(UnitTypeId::Spire),
        UnitTypeId::NydusNetwork => Some(UnitTypeId::Lair),
        UnitTypeId::Hive => Some(UnitTypeId::InfestationPit),
        UnitTypeId::Viper => Some(UnitTypeId::Hive),
        UnitTypeId::UltraliskCavern => Some(UnitTypeId::Hive),
        UnitTypeId::GreaterSpire => Some(UnitTypeId::Hive),
        UnitTypeId::BroodLord => Some(UnitTypeId::GreaterSpire),
        _ => None,
    }
}

/// Looks up the building that must stand before a unit type can be made.
pub fn tech_requirement(id: UnitTypeId) -> (r: Option<UnitTypeId>)
    ensures
        r == tech_requirement_of(id),
{
    match id {
        UnitTypeId::MissileTurret => Some(UnitTypeId::EngineeringBay),
        UnitTypeId::SensorTower => Some(UnitTypeId::EngineeringBay),
        UnitTypeId::PlanetaryFortress => Some(UnitTypeId::EngineeringBay),
        UnitTypeId::Barracks => Some(UnitTypeId::SupplyDepot),
        UnitTypeId::OrbitalCommand => Some(UnitTypeId::Barracks),
        UnitTypeId::Bunker => Some(UnitTypeId::Barracks),
        UnitTypeId::TerranGhost => Some(UnitTypeId::GhostAcademy),
        UnitTypeId::GhostAcademy => Some(UnitTypeId::Barracks),
        UnitTypeId::Factory => Some(UnitTypeId::Barracks),
        UnitTypeId::Armory => Some(UnitTypeId::Factory),
        UnitTypeId::HellionTank => Some(UnitTypeId::Armory),
        UnitTypeId::Thor => Some(UnitTypeId::Armory),
        UnitTypeId::Starport => Some(UnitTypeId::Factory),
        UnitTypeId::FusionCore => Some(UnitTypeId::Starport),
        UnitTypeId::Battlecruiser => Some(UnitTypeId::FusionCore),
        UnitTypeId::PhotonCannon => Some(UnitTypeId::Forge),
        UnitTypeId::CyberneticsCore => Some(UnitTypeId::Gateway),
        UnitTypeId::Sentry => Some(UnitTypeId::CyberneticsCore),
        UnitTypeId::Stalker => Some(UnitTypeId::CyberneticsCore),
        UnitTypeId::Adept => Some(UnitTypeId::CyberneticsCore),
        UnitTypeId::TwilightCouncil => Some(UnitTypeId::CyberneticsCore),
        UnitTypeId::ShieldBattery => Some(UnitTypeId::CyberneticsCore),
        UnitTypeId::TemplarArchive => Some(UnitTypeId::TwilightCouncil),
        UnitTypeId::DarkShrine => Some(UnitTypeId::TwilightCouncil),
        UnitTypeId::HighTemplar => Some(UnitTypeId::TemplarArchive),
        UnitTypeId::DarkTemplar => Some(UnitTypeId::DarkShrine),
        UnitTypeId::Stargate => Some(UnitTypeId::CyberneticsCore),
        UnitTypeId::Tempest => Some(UnitTypeId::FleetBeacon),
        UnitTypeId::Carrier => Some(UnitTypeId::FleetBeacon),
        UnitTypeId::Mothership => Some(UnitTypeId::FleetBeacon),
        UnitTypeId::RoboticsFacility => Some(UnitTypeId::CyberneticsCore),
        UnitTypeId::RoboticsBay => Some(UnitTypeId::RoboticsFacility),
        UnitTypeId::Colossus => Some(UnitTypeId::RoboticsBay),
        UnitTypeId::Disruptor => Some(UnitTypeId::RoboticsBay),
        UnitTypeId::Zergling => Some(UnitTypeId::SpawningPool),
        UnitTypeId::Queen => Some(UnitTypeId::SpawningPool),
        UnitTypeId::RoachWarren => Some(UnitTypeId::SpawningPool),
        UnitTypeId::BanelingNest => Some(UnitTypeId::SpawningPool),
        UnitTypeId::SpineCrawler => Some(UnitTypeId::SpawningPool),
        UnitTypeId::SporeCrawler => Some(UnitTypeId::SpawningPool),
        UnitTypeId::Roach => Some(UnitTypeId::RoachWarren),
        UnitTypeId::Baneling => Some(UnitTypeId::BanelingNest),
        UnitTypeId::Lair => Some(UnitTypeId::SpawningPool),
        UnitTypeId::Overseer => Some(UnitTypeId::Lair),
        UnitTypeId::OverlordTransport => Some(UnitTypeId::Lair),
        UnitTypeId::InfestationPit => Some(UnitTypeId::Lair),
        UnitTypeId::Infestor => Some(UnitTypeId::InfestationPit),
        UnitTypeId::SwarmHostMP => Some(UnitTypeId::InfestationPit),
        UnitTypeId::HydraliskDen => Some(UnitTypeId::Lair),
        UnitTypeId::Hydralisk => Some(UnitTypeId::HydraliskDen),
        UnitTypeId::LurkerDenMP => Some(UnitTypeId::HydraliskDen),
        UnitTypeId::LurkerMP => Some(UnitTypeId::LurkerDenMP),
        UnitTypeId::Spire => Some(UnitTypeId::Lair),
        UnitTypeId::Mutalisk => Some(UnitTypeId::Spire),
        UnitTypeId::Corruptor => Some(UnitTypeId::Spire),
        UnitTypeId::NydusNetwork => Some(UnitTypeId::Lair),
        UnitTypeId::Hive => Some(UnitTypeId::InfestationPit),
        UnitTypeId::Viper => Some(UnitTypeId::Hive),
        UnitTypeId::UltraliskCavern => Some(UnitTypeId::Hive),
        UnitTypeId::GreaterSpire => Some(UnitTypeId::Hive),
        UnitTypeId::BroodLord => Some(UnitTypeId::GreaterSpire),
        _ => None,
    }
}

/// The requirement of a requirement, where there is one.
pub open spec fn next_requirement(id: Option<UnitTypeId>) -> Option<UnitTypeId> {
    match id {
        Some(id) => tech_requirement_of(id),
        None => None,
    }
}

/// How many buildings stand above a unit type in the tech tree: the length of
/// the chain of requirements that starts at it. No chain is longer than five.
#[verifier::opaque]
pub open spec fn tech_depth(id: UnitTypeId) -> nat {
    let first = tech_requirement_of(id);
    let second = next_requirement(first);
    let third = next_requirement(second);
    let fourth = next_requirement(third);
    let fifth = next_requirement(fourth);
    if first is None {
        0
    } else if second is None {
        1
    } else if third is None {
        2
    } else if fourth is None {
        3
    } else if fifth is None {
        4
    } else {
        5
    }
}

/// The tech tree has no cycle: a requirement stands exactly one step higher
/// in it than what requires it, and five steps from any unit type no
/// requirement is left. So following requirements from any unit type ends.
pub proof fn lemma_tech_tree_acyclic(id: UnitTypeId)
    ensures
        tech_requirement_of(id) matches Some(up) ==> tech_depth(up) + 1 == tech_depth(id),
        tech_requirement_of(id) is None <==> tech_depth(id) == 0,
        tech_depth(id) <= 5,
{
    reveal(tech_depth);
}

/// Whether `chain` is the chain of requirements of `id`: its first member is
/// the requirement of `id`, each later member the requirement of the one
/// before, and its last member requires nothing.
pub open spec fn is_tech_chain(id: UnitTypeId, chain: Seq<UnitTypeId>) -> bool {
    &&& forall|i: int|
        0 <= i < chain.len() ==> tech_requirement_of(
            if i == 0 {
                id
            } else {
                chain[i - 1]
            },
        ) == Some(#[trigger] chain[i])
    &&& tech_requirement_of(
        if chain.len() == 0 {
            id
        } else {
            chain.last()
        },
    ) is None
}

/// Walks up the tech tree from a unit type and lists every building on the
/// way, the nearest first. The walk always ends.
pub fn tech_chain(id: UnitTypeId) -> (chain: Vec<UnitTypeId>)
    ensures
        is_tech_chain(id, chain@),
        chain@.len() == tech_depth(id),
{
    let mut chain: Vec<UnitTypeId> = Vec::new();
    let mut at = id;
    loop
        invariant
            forall|i: int|
                0 <= i < chain@.len() ==> tech_requirement_of(
                    if i == 0 {
                        id
                    } else {
                        chain@[i - 1]
                    },
                ) == Some(#[trigger] chain@[i]),
            at == (if chain@.len() == 0 {
                id
            } else {
                chain@.last()
            }),
            chain@.len() + tech_depth(at) == tech_depth(id),
        decreases tech_depth(at),
    {
        proof {
            lemma_tech_tree_acyclic(at);
        }
        match tech_requirement(at) {
            Some(up) => {
                chain.push(up);
                at = up;
            },
            None => {
                return chain;
            },
        }
    }
}

} // verus!
