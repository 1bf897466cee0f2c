use sc2_gamedata::float::Float32;
use sc2_gamedata::game_data::{
    ability_of, attributes_of, unit_type_of, unit_types_of, AbilityData, AbilityTarget, Attribute,
    BuffData, Cost, EffectData, GameData, TargetType, UnitTypeData, UpgradeData, Weapon,
};
use sc2_gamedata::ids::{AbilityId, BuffId, EffectId, UnitTypeId, UpgradeId};
use sc2_gamedata::player::Race;
use sc2_gamedata::wire::{
    ProtoAbilityData, ProtoBuffData, ProtoDamageBonus, ProtoEffectData, ProtoUnitTypeData,
    ProtoUpgradeData, ProtoWeapon, ResponseData,
};
use sc2_gamedata::{Keyed, TryFromProto};

fn float(x: f32) -> Float32 {
    Float32::from_bits(x.to_bits())
}

fn ability(id: Option<u32>) -> ProtoAbilityData {
    ProtoAbilityData {
        ability_id: id,
        link_name: String::from("link"),
        link_index: 7,
        button_name: None,
        friendly_name: None,
        hotkey: None,
        remaps_to_ability_id: None,
        available: true,
        target: 1,
        allow_minimap: false,
        allow_autocast: false,
        is_building: false,
        footprint_radius: None,
        is_instant_placement: false,
        cast_range: None,
    }
}

fn weapon() -> ProtoWeapon {
    ProtoWeapon {
        target_type: 3,
        damage: float(6.0),
        damage_bonus: vec![
            ProtoDamageBonus { attribute: 2, bonus: float(4.0) },
            ProtoDamageBonus { attribute: 1, bonus: float(0.5) },
        ],
        attacks: 2,
        range: float(5.0),
        speed: float(0.61),
    }
}

fn unit(id: Option<u32>) -> ProtoUnitTypeData {
    ProtoUnitTypeData {
        unit_id: id,
        name: String::from("Marine"),
        available: true,
        cargo_size: 1,
        mineral_cost: 50,
        vespene_cost: 0,
        food_required: float(1.0),
        food_provided: float(0.0),
        ability_id: Some(560),
        race: 1,
        build_time: float(400.0),
        has_vespene: false,
        has_minerals: false,
        sight_range: float(9.0),
        tech_alias: vec![],
        unit_alias: None,
        tech_requirement: None,
        require_attached: false,
        attributes: vec![1, 3],
        movement_speed: float(2.25),
        armor: float(0.0),
        weapons: vec![weapon()],
    }
}

fn upgrade(id: Option<u32>, ability_id: u32) -> ProtoUpgradeData {
    ProtoUpgradeData {
        upgrade_id: id,
        name: String::from("Stimpack"),
        mineral_cost: 100,
        vespene_cost: 100,
        research_time: float(2720.0),
        ability_id,
    }
}

fn buff(id: Option<u32>, name: &str) -> ProtoBuffData {
    ProtoBuffData { buff_id: id, name: String::from(name) }
}

fn effect(id: Option<u32>) -> ProtoEffectData {
    ProtoEffectData {
        effect_id: id,
        name: String::from("effect"),
        friendly_name: String::from("Effect"),
        radius: float(1.5),
    }
}

#[test]
fn float_keeps_its_bits() {
    assert_eq!(Float32::from_bits(0x3FC0_0000).to_bits(), 0x3FC0_0000);
    assert_eq!(float(1.5).bits, 0x3FC0_0000);
    assert_eq!(Float32::default().bits, 0);
    assert_eq!(f32::from_bits(float(0.61).to_bits()), 0.61);
}

#[test]
fn wire_enumerations_decode_by_code() {
    assert_eq!(AbilityTarget::from_proto(1), Some(AbilityTarget::NoTarget));
    assert_eq!(AbilityTarget::from_proto(2), Some(AbilityTarget::Point));
    assert_eq!(AbilityTarget::from_proto(3), Some(AbilityTarget::Unit));
    assert_eq!(AbilityTarget::from_proto(4), Some(AbilityTarget::PointOrUnit));
    assert_eq!(AbilityTarget::from_proto(5), Some(AbilityTarget::PointOrNone));
    assert_eq!(AbilityTarget::from_proto(0), None);
    assert_eq!(AbilityTarget::from_proto(6), None);
    let attributes = [
        Attribute::Light,
        Attribute::Armored,
        Attribute::Biological,
        Attribute::Mechanical,
        Attribute::Robotic,
        Attribute::Psionic,
        Attribute::Massive,
        Attribute::Structure,
        Attribute::Hover,
        Attribute::Heroic,
        Attribute::Summoned,
    ];
    for (i, a) in attributes.iter().enumerate() {
        assert_eq!(Attribute::from_proto(i as i32 + 1), Some(*a));
    }
    assert_eq!(Attribute::from_proto(0), None);
    assert_eq!(Attribute::from_proto(12), None);
    assert_eq!(Attribute::from_proto(-1), None);
    assert_eq!(TargetType::from_proto(1), Some(TargetType::Ground));
    assert_eq!(TargetType::from_proto(2), Some(TargetType::Air));
    assert_eq!(TargetType::from_proto(3), Some(TargetType::Any));
    assert_eq!(TargetType::from_proto(4), None);
    assert_eq!(Race::from_proto(0), Some(Race::Random));
    assert_eq!(Race::from_proto(1), Some(Race::Terran));
    assert_eq!(Race::from_proto(2), Some(Race::Zerg));
    assert_eq!(Race::from_proto(3), Some(Race::Protoss));
    assert_eq!(Race::from_proto(4), Some(Race::Random));
    assert_eq!(Race::from_proto(5), None);
    assert_eq!(Race::default(), Race::Random);
}

#[test]
fn optional_codes_decode_or_vanish() {
    assert_eq!(ability_of(Some(318)), Some(AbilityId::TerranBuildCommandCenter));
    assert_eq!(ability_of(Some(317)), None);
    assert_eq!(ability_of(None), None);
    assert_eq!(unit_type_of(Some(48)), Some(UnitTypeId::Marine));
    assert_eq!(unit_type_of(Some(3)), None);
    assert_eq!(unit_type_of(None), None);
    assert_eq!(
        unit_types_of(&vec![18, 3, 130, 9999, 132]),
        vec![UnitTypeId::CommandCenter, UnitTypeId::PlanetaryFortress, UnitTypeId::OrbitalCommand]
    );
    assert_eq!(unit_types_of(&vec![]), vec![]);
    assert_eq!(
        attributes_of(&vec![8, 0, 2, 12, 4]),
        vec![Attribute::Structure, Attribute::Armored, Attribute::Mechanical]
    );
}

#[test]
fn weapon_keeps_every_field() {
    let w = Weapon::from_proto(weapon());
    assert_eq!(w.target, TargetType::Any);
    assert_eq!(w.damage, float(6.0));
    assert_eq!(w.damage_bonus, vec![(Attribute::Armored, float(4.0)), (Attribute::Light, float(0.5))]);
    assert_eq!(w.attacks, 2);
    assert_eq!(w.range, float(5.0));
    assert_eq!(w.speed, float(0.61));
}

#[test]
fn weapon_codes_that_stand_for_nothing_read_as_the_wire_default() {
    let mut raw = weapon();
    raw.target_type = 0;
    raw.damage_bonus = vec![ProtoDamageBonus { attribute: 77, bonus: float(2.0) }];
    let w = Weapon::from_proto(raw);
    assert_eq!(w.target, TargetType::Ground);
    assert_eq!(w.damage_bonus, vec![(Attribute::Light, float(2.0))]);
}

#[test]
fn ability_with_all_optional_fields_absent() {
    let a = AbilityData::try_from_proto(ability(Some(321))).unwrap();
    assert_eq!(a.id, AbilityId::TerranBuildBarracks);
    assert_eq!(a.key_of(), 321);
    assert_eq!(a.link_name, "link");
    assert_eq!(a.link_index, 7);
    assert_eq!(a.button_name, None);
    assert_eq!(a.friendly_name, None);
    assert_eq!(a.hotkey, None);
    assert_eq!(a.remaps_to_ability_id, None);
    assert!(a.available);
    assert_eq!(a.target, AbilityTarget::NoTarget);
    assert!(!a.allow_minimap);
    assert!(!a.allow_autocast);
    assert!(!a.is_building);
    assert_eq!(a.footprint_radius, None);
    assert!(!a.is_instant_placement);
    assert_eq!(a.cast_range, None);
}

#[test]
fn ability_with_all_optional_fields_present() {
    let mut raw = ability(Some(881));
    raw.button_name = Some(String::from("Pylon"));
    raw.friendly_name = Some(String::from("Build Pylon"));
    raw.hotkey = Some(String::from("E"));
    raw.remaps_to_ability_id = Some(880);
    raw.target = 2;
    raw.allow_minimap = true;
    raw.is_building = true;
    raw.footprint_radius = Some(float(1.0));
    raw.is_instant_placement = true;
    raw.cast_range = Some(float(0.0));
    let a = AbilityData::try_from_proto(raw).unwrap();
    assert_eq!(a.id, AbilityId::ProtossBuildPylon);
    assert_eq!(a.button_name.as_deref(), Some("Pylon"));
    assert_eq!(a.friendly_name.as_deref(), Some("Build Pylon"));
    assert_eq!(a.hotkey.as_deref(), Some("E"));
    assert_eq!(a.remaps_to_ability_id, Some(AbilityId::ProtossBuildNexus));
    assert_eq!(a.target, AbilityTarget::Point);
    assert!(a.allow_minimap);
    assert!(a.is_building);
    assert_eq!(a.footprint_radius, Some(float(1.0)));
    assert!(a.is_instant_placement);
    assert_eq!(a.cast_range, Some(Float32::from_bits(0)));
}

#[test]
fn present_but_empty_fields_stay_present() {
    let mut raw = ability(Some(1));
    raw.button_name = Some(String::new());
    raw.cast_range = Some(float(0.0));
    let a = AbilityData::try_from_proto(raw).unwrap();
    assert_eq!(a.button_name, Some(String::new()));
    assert_eq!(a.cast_range, Some(float(0.0)));
    assert_eq!(a.hotkey, None);
}

#[test]
fn ability_with_unknown_remap_keeps_the_record() {
    let mut raw = ability(Some(1));
    raw.remaps_to_ability_id = Some(4_000_000);
    raw.target = 99;
    let a = AbilityData::try_from_proto(raw).unwrap();
    assert_eq!(a.id, AbilityId::Smart);
    assert_eq!(a.remaps_to_ability_id, None);
    assert_eq!(a.target, AbilityTarget::NoTarget);
}

#[test]
fn records_without_a_known_identifier_are_dropped() {
    assert!(AbilityData::try_from_proto(ability(None)).is_none());
    assert!(AbilityData::try_from_proto(ability(Some(2))).is_none());
    assert!(UnitTypeData::try_from_proto(unit(None)).is_none());
    assert!(UnitTypeData::try_from_proto(unit(Some(3))).is_none());
    assert!(UpgradeData::try_from_proto(upgrade(None, 0)).is_none());
    assert!(UpgradeData::try_from_proto(upgrade(Some(14), 0)).is_none());
    assert!(BuffData::try_from_proto(buff(None, "x")).is_none());
    assert!(BuffData::try_from_proto(buff(Some(1), "x")).is_none());
    assert!(EffectData::try_from_proto(effect(None)).is_none());
    assert!(EffectData::try_from_proto(effect(Some(13))).is_none());
}

#[test]
fn unit_type_keeps_every_field() {
    let mut raw = unit(Some(48));
    raw.tech_alias = vec![21, 3, 46];
    raw.unit_alias = Some(21);
    raw.tech_requirement = Some(19);
    raw.attributes = vec![1, 99, 3];
    let u = UnitTypeData::try_from_proto(raw).unwrap();
    assert_eq!(u.id, UnitTypeId::Marine);
    assert_eq!(u.key_of(), 48);
    assert_eq!(u.name, "Marine");
    assert!(u.available);
    assert_eq!(u.cargo_size, 1);
    assert_eq!(u.mineral_cost, 50);
    assert_eq!(u.vespene_cost, 0);
    assert_eq!(u.food_required, float(1.0));
    assert_eq!(u.food_provided, float(0.0));
    assert_eq!(u.ability, Some(AbilityId::BarracksTrainMarine));
    assert_eq!(u.race, Race::Terran);
    assert_eq!(u.build_time, float(400.0));
    assert!(!u.has_vespene);
    assert!(!u.has_minerals);
    assert_eq!(u.sight_range, float(9.0));
    assert_eq!(u.tech_alias, vec![UnitTypeId::Barracks, UnitTypeId::BarracksFlying]);
    assert_eq!(u.unit_alias, Some(UnitTypeId::Barracks));
    assert_eq!(u.tech_requirement, Some(UnitTypeId::SupplyDepot));
    assert!(!u.require_attached);
    assert_eq!(u.attributes, vec![Attribute::Light, Attribute::Biological]);
    assert_eq!(u.movement_speed, float(2.25));
    assert_eq!(u.armor, float(0.0));
    assert_eq!(u.weapons.len(), 1);
    assert_eq!(u.weapons[0].target, TargetType::Any);
    assert_eq!(u.weapons[0].attacks, 2);
    assert_eq!(u.weapons[0].damage_bonus.len(), 2);
}

#[test]
fn unit_type_with_unknown_references_keeps_the_record() {
    let mut raw = unit(Some(105));
    raw.ability_id = Some(2);
    raw.unit_alias = Some(3);
    raw.tech_requirement = Some(4_000_000);
    raw.race = 9;
    raw.weapons = vec![];
    let u = UnitTypeData::try_from_proto(raw).unwrap();
    assert_eq!(u.id, UnitTypeId::Zergling);
    assert_eq!(u.ability, None);
    assert_eq!(u.unit_alias, None);
    assert_eq!(u.tech_requirement, None);
    assert_eq!(u.race, Race::Random);
    assert!(u.weapons.is_empty());
}

#[test]
fn cost_of_a_unit_type() {
    let mut raw = unit(Some(74));
    raw.mineral_cost = 125;
    raw.vespene_cost = 50;
    raw.food_required = float(2.0);
    raw.build_time = float(480.0);
    let u = UnitTypeData::try_from_proto(raw).unwrap();
    assert_eq!(
        u.cost(),
        Cost { minerals: 125, vespene: 50, supply: float(2.0), time: float(480.0) }
    );
}

#[test]
fn cost_of_an_upgrade_takes_no_supply() {
    let u = UpgradeData::try_from_proto(upgrade(Some(15), 0)).unwrap();
    assert_eq!(u.id, UpgradeId::Stimpack);
    assert_eq!(u.key_of(), 15);
    assert_eq!(u.name, "Stimpack");
    assert_eq!(u.ability, AbilityId::Null);
    let cost = u.cost();
    assert_eq!(cost, Cost { minerals: 100, vespene: 100, supply: float(0.0), time: float(2720.0) });
    assert_eq!(cost.supply.bits, 0);
    assert_eq!(f32::from_bits(cost.supply.to_bits()), 0.0);
}

#[test]
fn default_cost_is_nothing() {
    assert_eq!(
        Cost::default(),
        Cost { minerals: 0, vespene: 0, supply: float(0.0), time: float(0.0) }
    );
}

#[test]
fn upgrade_with_unknown_ability_is_dropped() {
    assert!(UpgradeData::try_from_proto(upgrade(Some(15), 2)).is_none());
    assert!(UpgradeData::try_from_proto(upgrade(Some(15), 1)).is_some());
}

#[test]
fn buff_keeps_its_name() {
    let b = BuffData::try_from_proto(buff(Some(27), "Stimpack")).unwrap();
    assert_eq!(b.id, BuffId::Stimpack);
    assert_eq!(b.key_of(), 27);
    assert_eq!(b.name, "Stimpack");
}

#[test]
fn effect_target_and_friendly_fire_come_from_the_table() {
    let table = [
        (0, EffectId::Null, TargetType::Any, false),
        (1, EffectId::PsiStormPersistent, TargetType::Any, true),
        (2, EffectId::GuardianShieldPersistent, TargetType::Ground, false),
        (3, EffectId::TemporalFieldGrowingBubbleCreatePersistent, TargetType::Ground, false),
        (4, EffectId::TemporalFieldAfterBubbleCreatePersistent, TargetType::Ground, false),
        (5, EffectId::ThermalLancesForward, TargetType::Ground, false),
        (6, EffectId::ScannerSweep, TargetType::Any, false),
        (7, EffectId::NukePersistent, TargetType::Any, true),
        (8, EffectId::LiberatorTargetMorphDelayPersistent, TargetType::Ground, false),
        (9, EffectId::LiberatorTargetMorphPersistent, TargetType::Ground, false),
        (10, EffectId::BlindingCloudCP, TargetType::Ground, false),
        (11, EffectId::RavagerCorrosiveBileCP, TargetType::Any, true),
        (12, EffectId::LurkerMP, TargetType::Ground, false),
    ];
    for (code, id, target, friendly_fire) in table {
        let e = EffectData::try_from_proto(effect(Some(code))).unwrap();
        assert_eq!(e.id, id);
        assert_eq!(e.key_of(), code);
        assert_eq!(e.name, "effect");
        assert_eq!(e.friendly_name, "Effect");
        assert_eq!(e.radius, float(1.5));
        assert_eq!(e.target, target);
        assert_eq!(e.friendly_fire, friendly_fire);
        assert_eq!(EffectData::target_type(id), target);
        assert_eq!(EffectData::has_friendly_fire(id), friendly_fire);
    }
}

fn empty_catalog() -> ResponseData {
    ResponseData { abilities: vec![], units: vec![], upgrades: vec![], buffs: vec![], effects: vec![] }
}

#[test]
fn empty_wire_catalog_gives_an_empty_catalog() {
    let data = GameData::from_proto(empty_catalog());
    assert!(data.abilities.is_empty());
    assert!(data.units.is_empty());
    assert!(data.upgrades.is_empty());
    assert!(data.buffs.is_empty());
    assert!(data.effects.is_empty());
    let data = GameData::default();
    assert!(data.abilities.is_empty() && data.units.is_empty() && data.upgrades.is_empty());
    assert!(data.buffs.is_empty() && data.effects.is_empty());
    assert!(data.unit(UnitTypeId::Marine).is_none());
}

#[test]
fn wire_catalog_of_unknown_identifiers_gives_an_empty_catalog() {
    let mut raw = empty_catalog();
    raw.abilities = vec![ability(Some(2)), ability(None), ability(Some(4_000_000))];
    raw.units = vec![unit(Some(3)), unit(None)];
    raw.upgrades = vec![upgrade(Some(14), 0), upgrade(Some(15), 2)];
    raw.buffs = vec![buff(Some(1), "a"), buff(None, "b")];
    raw.effects = vec![effect(Some(13))];
    let data = GameData::from_proto(raw);
    assert!(data.abilities.is_empty());
    assert!(data.units.is_empty());
    assert!(data.upgrades.is_empty());
    assert!(data.buffs.is_empty());
    assert!(data.effects.is_empty());
}

#[test]
fn catalog_files_each_record_under_its_code() {
    let mut raw = empty_catalog();
    raw.abilities = vec![ability(Some(318)), ability(Some(2)), ability(Some(881)), ability(None)];
    raw.units = vec![unit(Some(48)), unit(Some(3)), unit(Some(105))];
    raw.upgrades = vec![upgrade(Some(15), 0)];
    raw.buffs = vec![buff(Some(27), "Stimpack"), buff(Some(5), "GravitonBeam")];
    raw.effects = vec![effect(Some(1)), effect(Some(6)), effect(Some(13))];
    let data = GameData::from_proto(raw);

    let mut keys: Vec<u32> = data.abilities.keys().copied().collect();
    keys.sort();
    assert_eq!(keys, vec![318, 881]);
    let mut keys: Vec<u32> = data.units.keys().copied().collect();
    keys.sort();
    assert_eq!(keys, vec![48, 105]);
    assert_eq!(data.upgrades.len(), 1);
    assert_eq!(data.buffs.len(), 2);
    assert_eq!(data.effects.len(), 2);
    for (code, record) in &data.units {
        assert_eq!(record.id.to_u32(), *code);
        assert_eq!(UnitTypeId::from_u32(*code), Some(record.id));
    }

    assert_eq!(data.ability(AbilityId::ProtossBuildPylon).unwrap().id, AbilityId::ProtossBuildPylon);
    assert!(data.ability(AbilityId::Smart).is_none());
    assert_eq!(data.unit(UnitTypeId::Zergling).unwrap().id, UnitTypeId::Zergling);
    assert!(data.unit(UnitTypeId::Zealot).is_none());
    assert_eq!(data.upgrade(UpgradeId::Stimpack).unwrap().mineral_cost, 100);
    assert!(data.upgrade(UpgradeId::Burrow).is_none());
    assert_eq!(data.buff(BuffId::GravitonBeam).unwrap().name, "GravitonBeam");
    assert!(data.buff(BuffId::Slow).is_none());
    assert!(data.effect(EffectId::PsiStormPersistent).unwrap().friendly_fire);
    assert_eq!(data.effect(EffectId::ScannerSweep).unwrap().target, TargetType::Any);
    assert!(data.effect(EffectId::LurkerMP).is_none());
}

#[test]
fn of_two_records_with_one_identifier_the_later_stays() {
    let mut raw = empty_catalog();
    raw.buffs =
        vec![buff(Some(27), "first"), buff(Some(5), "other"), buff(Some(27), "second"), buff(Some(1), "x")];
    let data = GameData::from_proto(raw);
    assert_eq!(data.buffs.len(), 2);
    assert_eq!(data.buff(BuffId::Stimpack).unwrap().name, "second");
    assert_eq!(data.buff(BuffId::GravitonBeam).unwrap().name, "other");
}

#[test]
fn catalog_can_be_cloned() {
    let mut raw = empty_catalog();
    raw.units = vec![unit(Some(48))];
    let data = GameData::from_proto(raw);
    let copy = data.clone();
    assert_eq!(copy.units.len(), 1);
    assert_eq!(copy.unit(UnitTypeId::Marine).unwrap().name, "Marine");
    assert_eq!(copy.unit(UnitTypeId::Marine).unwrap().cost(), data.unit(UnitTypeId::Marine).unwrap().cost());
}
