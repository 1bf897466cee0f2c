use sc2_gamedata::constants::{
    is_addon, is_constructing, is_melee, is_townhall, is_worker, race_values, targets_air,
    targets_ground, tech_chain, tech_requirement, RaceValues, ADDON_IDS, CONSTRUCTING_IDS,
    MELEE_IDS, TARGET_AIR, TARGET_GROUND, TOWNHALL_IDS, WORKER_IDS,
};
use sc2_gamedata::game_data::TargetType;
use sc2_gamedata::ids::{AbilityId, UnitTypeId};
use sc2_gamedata::player::Race;

#[test]
fn fixed_sets_have_their_members() {
    assert_eq!(WORKER_IDS.len(), 3);
    assert_eq!(TOWNHALL_IDS.len(), 9);
    assert_eq!(ADDON_IDS.len(), 8);
    assert_eq!(MELEE_IDS.len(), 14);
    assert_eq!(CONSTRUCTING_IDS.len(), 43);
    for id in WORKER_IDS {
        assert!(is_worker(id));
    }
    for id in TOWNHALL_IDS {
        assert!(is_townhall(id));
    }
    for id in ADDON_IDS {
        assert!(is_addon(id));
    }
    for id in MELEE_IDS {
        assert!(is_melee(id));
    }
    for id in CONSTRUCTING_IDS {
        assert!(is_constructing(id));
    }
}

#[test]
fn fixed_sets_hold_nothing_else() {
    assert!(!is_worker(UnitTypeId::Marine));
    assert!(!is_worker(UnitTypeId::MULE));
    assert!(!is_townhall(UnitTypeId::Barracks));
    assert!(!is_addon(UnitTypeId::Starport));
    assert!(is_addon(UnitTypeId::StarportReactor));
    assert!(!is_melee(UnitTypeId::Marine));
    assert!(is_melee(UnitTypeId::Zealot));
    assert!(!is_constructing(AbilityId::Smart));
    assert!(!is_constructing(AbilityId::BarracksTrainMarine));
    assert!(is_constructing(AbilityId::BuildShieldBattery));
    let mut workers = 0;
    let mut townhalls = 0;
    for n in 0..=2000u32 {
        if let Some(id) = UnitTypeId::from_u32(n) {
            if is_worker(id) {
                workers += 1;
            }
            if is_townhall(id) {
                townhalls += 1;
            }
        }
    }
    assert_eq!((workers, townhalls), (3, 9));
}

#[test]
fn target_types_by_layer() {
    assert_eq!(TARGET_GROUND, [TargetType::Ground, TargetType::Any]);
    assert_eq!(TARGET_AIR, [TargetType::Air, TargetType::Any]);
    assert!(targets_ground(TargetType::Ground));
    assert!(targets_ground(TargetType::Any));
    assert!(!targets_ground(TargetType::Air));
    assert!(targets_air(TargetType::Air));
    assert!(targets_air(TargetType::Any));
    assert!(!targets_air(TargetType::Ground));
}

#[test]
fn race_values_of_the_three_races() {
    let terran = race_values(Race::Terran).unwrap();
    assert_eq!(terran.start_townhall, UnitTypeId::CommandCenter);
    assert_eq!(
        terran.townhalls,
        vec![
            UnitTypeId::CommandCenter,
            UnitTypeId::OrbitalCommand,
            UnitTypeId::PlanetaryFortress,
            UnitTypeId::CommandCenterFlying,
            UnitTypeId::OrbitalCommandFlying,
        ]
    );
    assert_eq!(terran.gas_building, UnitTypeId::Refinery);
    assert_eq!(terran.supply, UnitTypeId::SupplyDepot);
    assert_eq!(terran.worker, UnitTypeId::SCV);

    let zerg = race_values(Race::Zerg).unwrap();
    assert_eq!(zerg.start_townhall, UnitTypeId::Hatchery);
    assert_eq!(zerg.townhalls, vec![UnitTypeId::Hatchery, UnitTypeId::Lair, UnitTypeId::Hive]);
    assert_eq!(zerg.gas_building, UnitTypeId::Extractor);
    assert_eq!(zerg.supply, UnitTypeId::Overlord);
    assert_eq!(zerg.worker, UnitTypeId::Drone);

    let protoss = race_values(Race::Protoss).unwrap();
    assert_eq!(protoss.start_townhall, UnitTypeId::Nexus);
    assert_eq!(protoss.townhalls, vec![UnitTypeId::Nexus]);
    assert_eq!(protoss.gas_building, UnitTypeId::Assimilator);
    assert_eq!(protoss.supply, UnitTypeId::Pylon);
    assert_eq!(protoss.worker, UnitTypeId::Probe);
}

#[test]
fn random_has_no_race_values() {
    assert!(race_values(Race::Random).is_none());
}

#[test]
fn race_values_agree_with_the_fixed_sets() {
    for race in [Race::Terran, Race::Zerg, Race::Protoss] {
        let values = race_values(race).unwrap();
        assert!(values.townhalls.contains(&values.start_townhall));
        assert!(is_worker(values.worker));
        for townhall in values.townhalls {
            assert!(is_townhall(townhall));
        }
    }
}

#[test]
fn default_race_values_name_no_unit() {
    let values = RaceValues::default();
    assert_eq!(values.start_townhall, UnitTypeId::NotAUnit);
    assert!(values.townhalls.is_empty());
    assert_eq!(values.gas_building, UnitTypeId::NotAUnit);
    assert_eq!(values.supply, UnitTypeId::NotAUnit);
    assert_eq!(values.worker, UnitTypeId::NotAUnit);
}

#[test]
fn tech_requirements_of_some_unit_types() {
    assert_eq!(tech_requirement(UnitTypeId::Barracks), Some(UnitTypeId::SupplyDepot));
    assert_eq!(tech_requirement(UnitTypeId::TerranGhost), Some(UnitTypeId::GhostAcademy));
    assert_eq!(tech_requirement(UnitTypeId::Stalker), Some(UnitTypeId::CyberneticsCore));
    assert_eq!(tech_requirement(UnitTypeId::BroodLord), Some(UnitTypeId::GreaterSpire));
    assert_eq!(tech_requirement(UnitTypeId::Hive), Some(UnitTypeId::InfestationPit));
    assert_eq!(tech_requirement(UnitTypeId::SupplyDepot), None);
    assert_eq!(tech_requirement(UnitTypeId::Marine), None);
    assert_eq!(tech_requirement(UnitTypeId::FleetBeacon), None);
}

#[test]
fn tech_requirement_table_has_sixty_one_entries() {
    let mut entries = 0;
    for n in 0..=2000u32 {
        if let Some(id) = UnitTypeId::from_u32(n) {
            if tech_requirement(id).is_some() {
                entries += 1;
            }
        }
    }
    assert_eq!(entries, 61);
}

#[test]
fn tech_chain_walks_up_to_a_root() {
    assert_eq!(
        tech_chain(UnitTypeId::BroodLord),
        vec![
            UnitTypeId::GreaterSpire,
            UnitTypeId::Hive,
            UnitTypeId::InfestationPit,
            UnitTypeId::Lair,
            UnitTypeId::SpawningPool,
        ]
    );
    assert_eq!(
        tech_chain(UnitTypeId::Battlecruiser),
        vec![
            UnitTypeId::FusionCore,
            UnitTypeId::Starport,
            UnitTypeId::Factory,
            UnitTypeId::Barracks,
            UnitTypeId::SupplyDepot,
        ]
    );
    assert_eq!(tech_chain(UnitTypeId::PhotonCannon), vec![UnitTypeId::Forge]);
    assert_eq!(tech_chain(UnitTypeId::SCV), vec![]);
}

#[test]
fn tech_chain_ends_from_every_unit_type() {
    for n in 0..=2000u32 {
        if let Some(id) = UnitTypeId::from_u32(n) {
            let chain = tech_chain(id);
            assert!(chain.len() <= 5);
            assert!(!chain.contains(&id));
            let mut at = id;
            for up in &chain {
                assert_eq!(tech_requirement(at), Some(*up));
                at = *up;
            }
            assert_eq!(tech_requirement(at), None);
        }
    }
}
