use sc2_gamedata::ids::{AbilityId, BuffId, EffectId, UnitTypeId, UpgradeId};

#[test]
fn unit_type_codes_decode_to_their_names() {
    assert_eq!(UnitTypeId::from_u32(0), Some(UnitTypeId::NotAUnit));
    assert_eq!(UnitTypeId::from_u32(18), Some(UnitTypeId::CommandCenter));
    assert_eq!(UnitTypeId::from_u32(45), Some(UnitTypeId::SCV));
    assert_eq!(UnitTypeId::from_u32(84), Some(UnitTypeId::Probe));
    assert_eq!(UnitTypeId::from_u32(104), Some(UnitTypeId::Drone));
    assert_eq!(UnitTypeId::from_u32(1910), Some(UnitTypeId::ShieldBattery));
    assert_eq!(UnitTypeId::SupplyDepot.to_u32(), 19);
    assert_eq!(UnitTypeId::Hatchery.to_u32(), 86);
}

#[test]
fn unknown_codes_decode_to_nothing() {
    assert_eq!(UnitTypeId::from_u32(3), None);
    assert_eq!(UnitTypeId::from_u32(u32::MAX), None);
    assert_eq!(AbilityId::from_u32(2), None);
    assert_eq!(UpgradeId::from_u32(14), None);
    assert_eq!(BuffId::from_u32(1), None);
    assert_eq!(EffectId::from_u32(13), None);
}

#[test]
fn every_known_unit_type_code_round_trips() {
    let mut known = 0;
    for n in 0..=5000u32 {
        if let Some(id) = UnitTypeId::from_u32(n) {
            known += 1;
            assert_eq!(id.to_u32(), n);
            assert_eq!(UnitTypeId::from_u32(id.to_u32()), Some(id));
        }
    }
    assert_eq!(known, 170);
}

#[test]
fn every_known_ability_code_round_trips() {
    let mut known = 0;
    for n in 0..=5000u32 {
        if let Some(id) = AbilityId::from_u32(n) {
            known += 1;
            assert_eq!(id.to_u32(), n);
            assert_eq!(AbilityId::from_u32(id.to_u32()), Some(id));
        }
    }
    assert_eq!(known, 69);
}

#[test]
fn every_known_upgrade_buff_and_effect_code_round_trips() {
    let mut known = (0, 0, 0);
    for n in 0..=1000u32 {
        if let Some(id) = UpgradeId::from_u32(n) {
            known.0 += 1;
            assert_eq!(id.to_u32(), n);
        }
        if let Some(id) = BuffId::from_u32(n) {
            known.1 += 1;
            assert_eq!(id.to_u32(), n);
        }
        if let Some(id) = EffectId::from_u32(n) {
            known.2 += 1;
            assert_eq!(id.to_u32(), n);
        }
    }
    assert_eq!(known, (73, 35, 13));
}

#[test]
fn ability_codes_of_the_three_first_buildings() {
    assert_eq!(AbilityId::TerranBuildCommandCenter.to_u32(), 318);
    assert_eq!(AbilityId::ProtossBuildNexus.to_u32(), 880);
    assert_eq!(AbilityId::ZergBuildHatchery.to_u32(), 1152);
    assert_eq!(AbilityId::from_u32(0), Some(AbilityId::Null));
    assert_eq!(EffectId::from_u32(11), Some(EffectId::RavagerCorrosiveBileCP));
}
