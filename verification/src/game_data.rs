use crate::float::Float32;
use crate::ids::ability_id::lemma_ability_id_round_trip;
use crate::ids::buff_id::lemma_buff_id_round_trip;
use crate::ids::effect_id::lemma_effect_id_round_trip;
use crate::ids::unit_type_id::lemma_unit_type_id_round_trip;
use crate::ids::upgrade_id::lemma_upgrade_id_round_trip;
use crate::ids::{AbilityId, BuffId, EffectId, UnitTypeId, UpgradeId};
use crate::player::Race;
use crate::wire::{
    Keyed, ProtoAbilityData, ProtoBuffData, ProtoDamageBonus, ProtoEffectData, ProtoUnitTypeData,
    ProtoUpgradeData, ProtoWeapon, ResponseData, TryFromProto,
};
use std::collections::HashMap;
use vstd::prelude::*;

verus! {

/// What it takes to produce a unit or to research an upgrade.
#[derive(Clone, Copy, Debug, PartialEq, Eq, Structural)]
pub struct Cost {
    pub minerals: u32,
    pub vespene: u32,
    pub supply: Float32,
    pub time: Float32,
}

impl Default for Cost {
    fn default() -> (r: Cost)
        ensures
            r == (Cost { minerals: 0, vespene: 0, supply: Float32::zero(), time: Float32::zero() }),
    {
        Cost { minerals: 0, vespene: 0, supply: Float32 { bits: 0 }, time: Float32 { bits: 0 } }
    }
}

/// What an ability is aimed at.
#[derive(Clone, Copy, Debug, PartialEq, Eq, Structural)]
pub enum AbilityTarget {
    NoTarget,
    Point,
    Unit,
    PointOrUnit,
    PointOrNone,
}

impl AbilityTarget {
    /// The target kind that a wire code stands for, if it stands for one.
    pub open spec fn of_code(code: i32) -> Option<AbilityTarget> {
        if code == 1 {
            Some(AbilityTarget::NoTarget)
        } else if code == 2 {
            Some(AbilityTarget::Point)
        } else if code == 3 {
            Some(AbilityTarget::Unit)
        } else if code == 4 {
            Some(AbilityTarget::PointOrUnit)
        } else if code == 5 {
            Some(AbilityTarget::PointOrNone)
        } else {
            None
        }
    }

    /// The target kind of a record with this wire code: a code that stands
    /// for none counts as a field left out, which the wire reads as no target.
    pub open spec fn of_field(code: i32) -> AbilityTarget {
        match AbilityTarget::of_code(code) {
            Some(t) => t,
            None => AbilityTarget::NoTarget,
        }
    }

    /// Decodes the wire code of a target kind.
    pub fn from_proto(target: i32) -> (r: Option<AbilityTarget>)
        ensures
            r == AbilityTarget::of_code(target),
    {
        match target {
            1 => Some(AbilityTarget::NoTarget),
            2 => Some(AbilityTarget::Point),
            3 => Some(AbilityTarget::Unit),
            4 => Some(AbilityTarget::PointOrUnit),
            5 => Some(AbilityTarget::PointOrNone),
            _ => None,
        }
    }
}

/// A trait of a unit type that weapons may do extra damage against.
#[derive(Clone, Copy, Debug, PartialEq, Eq, Structural)]
pub enum Attribute {
    Light,
    Armored,
    Biological,
    Mechanical,
    Robotic,
    Psionic,
    Massive,
    Structure,
    Hover,
    Heroic,
    Summoned,
}

impl Attribute {
    /// The attribute that a wire code stands for, if it stands for one.
    pub open spec fn of_code(code: i32) -> Option<Attribute> {
        if code == 1 {
            Some(Attribute::Light)
        } else if code == 2 {
            Some(Attribute::Armored)
        } else if code == 3 {
            Some(Attribute::Biological)
        } else if code == 4 {
            Some(Attribute::Mechanical)
        } else if code == 5 {
            Some(Attribute::Robotic)
        } else if code == 6 {
            Some(Attribute::Psionic)
        } else if code == 7 {
            Some(Attribute::Massive)
        } else if code == 8 {
            Some(Attribute::Structure)
        } else if code == 9 {
            Some(Attribute::Hover)
        } else if code == 10 {
            Some(Attribute::Heroic)
        } else if code == 11 {
            Some(Attribute::Summoned)
        } else {
            None
        }
    }

    /// The attribute of a record with this wire code: a code that stands for
    /// none counts as a field left out, which the wire reads as `Light`.
    pub open spec fn of_field(code: i32) -> Attribute {
        match Attribute::of_code(code) {
            Some(a) => a,
            None => Attribute::Light,
        }
    }

    /// Decodes the wire code of an attribute.
    pub fn from_proto(attribute: i32) -> (r: Option<Attribute>)
        ensures
            r == Attribute::of_code(attribute),
    {
        match attribute {
            1 => Some(Attribute::Light),
            2 => Some(Attribute::Armored),
            3 => Some(Attribute::Biological),
            4 => Some(Attribute::Mechanical),
            5 => Some(Attribute::Robotic),
            6 => Some(Attribute::Psionic),
            7 => Some(Attribute::Massive),
            8 => Some(Attribute::Structure),
            9 => Some(Attribute::Hover),
            10 => Some(Attribute::Heroic),
            11 => Some(Attribute::Summoned),
            _ => None,
        }
    }
}

/// What a weapon or an effect can hit.
#[derive(Clone, Copy, Debug, PartialEq, Eq, Hash, Structural)]
pub enum TargetType {
    Ground,
    Air,
    Any,
}

impl TargetType {
    /// The target type that a wire code stands for, if it stands for one.
    pub open spec fn of_code(code: i32) -> Option<TargetType> {
        if code == 1 {
            Some(TargetType::Ground)
        } else if code == 2 {
            Some(TargetType::Air)
        } else if code == 3 {
            Some(TargetType::Any)
        } else {
            None
        }
    }

    /// The target type of a record with this wire code: a code that stands
    /// for none counts as a field left out, which the wire reads as `Ground`.
    pub open spec fn of_field(code: i32) -> TargetType {
        match TargetType::of_code(code) {
            Some(t) => t,
            None => TargetType::Ground,
        }
    }

    /// Decodes the wire code of a target type.
    pub fn from_proto(target_type: i32) -> (r: Option<TargetType>)
        ensures
            r == TargetType::of_code(target_type),
    {
        match target_type {
            1 => Some(TargetType::Ground),
            2 => Some(TargetType::Air),
            3 => Some(TargetType::Any),
            _ => None,
        }
    }
}

/// The race of a record with this wire code: a code that stands for none
/// counts as a field left out, which the wire reads as no race.
pub open spec fn race_of_field(code: i32) -> Race {
    match Race::of_code(code) {
        Some(r) => r,
        None => Race::Random,
    }
}

/// The text of an optional string.
pub open spec fn text(s: Option<String>) -> Option<Seq<char>> {
    match s {
        Some(s) => Some(s@),
        None => None,
    }
}

/// The ability that an optional code names: none where the code is missing
/// or not known.
pub open spec fn known_ability(code: Option<u32>) -> Option<AbilityId> {
    match code {
        Some(c) => AbilityId::of_code(c),
        None => None,
    }
}

/// The unit type that an optional code names: none where the code is missing
/// or not known.
pub open spec fn known_unit_type(code: Option<u32>) -> Option<UnitTypeId> {
    match code {
        Some(c) => UnitTypeId::of_code(c),
        None => None,
    }
}

/// The values that `f` gives for the members of `s`, in their order, without
/// the members for which it gives none.
pub open spec fn filter_map<A, B>(s: Seq<A>, f: spec_fn(A) -> Option<B>) -> Seq<B>
    decreases s.len(),
{
    if s.len() == 0 {
        Seq::empty()
    } else {
        let rest = filter_map(s.drop_last(), f);
        match f(s.last()) {
            Some(b) => rest.push(b),
            None => rest,
        }
    }
}

/// The unit types that a list of codes names, without the codes not known.
pub open spec fn known_unit_types(codes: Seq<u32>) -> Seq<UnitTypeId> {
    filter_map(codes, |c: u32| UnitTypeId::of_code(c))
}

/// The attributes that a list of wire codes names, without the codes that
/// stand for none.
pub open spec fn known_attributes(codes: Seq<i32>) -> Seq<Attribute> {
    filter_map(codes, |c: i32| Attribute::of_code(c))
}

/// Every member of the result of `filter_map` is the value of some member of
/// the list, and the result is no longer than the list.
pub proof fn lemma_filter_map_members<A, B>(s: Seq<A>, f: spec_fn(A) -> Option<B>)
    ensures
        filter_map(s, f).len() <= s.len(),
        forall|k: int|
            0 <= k < filter_map(s, f).len() ==> exists|i: int|
                0 <= i < s.len() && f(s[i]) == Some(#[trigger] filter_map(s, f)[k]),
        forall|i: int|
            0 <= i < s.len() && f(s[i]) is Some ==> filter_map(s, f).contains(
                #[trigger] f(s[i]).unwrap(),
            ),
    decreases s.len(),
{
    if s.len() > 0 {
        let init = s.drop_last();
        lemma_filter_map_members(init, f);
        let rest = filter_map(init, f);
        let all = filter_map(s, f);
        assert forall|k: int| 0 <= k < all.len() implies exists|i: int|
            0 <= i < s.len() && f(s[i]) == Some(#[trigger] all[k]) by {
            if k < rest.len() {
                let i = choose|i: int| 0 <= i < init.len() && f(init[i]) == Some(rest[k]);
                assert(s[i] == init[i]);
            } else {
                assert(f(s[s.len() - 1]) == Some(all[k]));
            }
        }
        assert forall|i: int| 0 <= i < s.len() && f(s[i]) is Some implies all.contains(
            #[trigger] f(s[i]).unwrap(),
        ) by {
            if i < init.len() {
                assert(s[i] == init[i]);
                let k = choose|k: int| 0 <= k < rest.len() && rest[k] == f(init[i]).unwrap();
                assert(all[k] == rest[k]);
            } else {
                assert(all[all.len() - 1] == f(s[i]).unwrap());
            }
        }
    }
}

/// One weapon of a unit type.
#[derive(Clone, Debug)]
pub struct Weapon {
    pub target: TargetType,
    pub damage: Float32,
    pub damage_bonus: Vec<(Attribute, Float32)>,
    pub attacks: u32,
    pub range: Float32,
    pub speed: Float32,
}

/// The value of a `Weapon`.
pub struct WeaponView {
    pub target: TargetType,
    pub damage: Float32,
    pub damage_bonus: Seq<(Attribute, Float32)>,
    pub attacks: u32,
    pub range: Float32,
    pub speed: Float32,
}

impl View for Weapon {
    type V = WeaponView;

    open spec fn view(&self) -> WeaponView {
        WeaponView {
            target: self.target,
            damage: self.damage,
            damage_bonus: self.damage_bonus@,
            attacks: self.attacks,
            range: self.range,
            speed: self.speed,
        }
    }
}

impl Weapon {
    /// The damage bonuses of a wire weapon, one for one.
    pub open spec fn decoded_bonuses(bonuses: Seq<ProtoDamageBonus>) -> Seq<(Attribute, Float32)> {
        Seq::new(bonuses.len(), |i: int| (Attribute::of_field(bonuses[i].attribute), bonuses[i].bonus))
    }

    /// What a wire weapon decodes to.
    pub open spec fn decoded(weapon: ProtoWeapon) -> WeaponView {
        WeaponView {
            target: TargetType::of_field(weapon.target_type),
            damage: weapon.damage,
            damage_bonus: Weapon::decoded_bonuses(weapon.damage_bonus@),
            attacks: weapon.attacks,
            range: weapon.range,
            speed: weapon.speed,
        }
    }

    /// Decodes one weapon. Every field is carried over; the damage bonuses
    /// keep their number and order.
    pub fn from_proto(weapon: ProtoWeapon) -> (r: Weapon)
        ensures
            r@ == Weapon::decoded(weapon),
    {
        let target = match TargetType::from_proto(weapon.target_type) {
            Some(t) => t,
            None => TargetType::Ground,
        };
        let mut damage_bonus: Vec<(Attribute, Float32)> = Vec::new();
        let mut i: usize = 0;
        while i < weapon.damage_bonus.len()
            invariant
                i <= weapon.damage_bonus@.len(),
                damage_bonus@.len() == i,
                forall|k: int|
                    0 <= k < i ==> damage_bonus@[k] == Weapon::decoded_bonuses(
                        weapon.damage_bonus@,
                    )[k],
            decreases weapon.damage_bonus@.len() - i,
        {
            let attribute = match Attribute::from_proto(weapon.damage_bonus[i].attribute) {
                Some(a) => a,
                None => Attribute::Light,
            };
            damage_bonus.push((attribute, weapon.damage_bonus[i].bonus));
            i = i + 1;
        }
        assert(damage_bonus@ =~= Weapon::decoded_bonuses(weapon.damage_bonus@));
        Weapon {
            target,
            damage: weapon.damage,
            damage_bonus,
            attacks: weapon.attacks,
            range: weapon.range,
            speed: weapon.speed,
        }
    }
}

/// One ability of the catalog.
#[derive(Clone, Debug)]
pub struct AbilityData {
    pub id: AbilityId,
    pub link_name: String,
    pub link_index: u32,
    pub button_name: Option<String>,
    pub friendly_name: Option<String>,
    pub hotkey: Option<String>,
    pub remaps_to_ability_id: Option<AbilityId>,
    pub available: bool,
    pub target: AbilityTarget,
    pub allow_minimap: bool,
    pub allow_autocast: bool,
    pub is_building: bool,
    pub footprint_radius: Option<Float32>,
    pub is_instant_placement: bool,
    pub cast_range: Option<Float32>,
}

/// The value of an `AbilityData`.
pub struct AbilityDataView {
    pub id: AbilityId,
    pub link_name: Seq<char>,
    pub link_index: u32,
    pub button_name: Option<Seq<char>>,
    pub friendly_name: Option<Seq<char>>,
    pub hotkey: Option<Seq<char>>,
    pub remaps_to_ability_id: Option<AbilityId>,
    pub available: bool,
    pub target: AbilityTarget,
    pub allow_minimap: bool,
    pub allow_autocast: bool,
    pub is_building: bool,
    pub footprint_radius: Option<Float32>,
    pub is_instant_placement: bool,
    pub cast_range: Option<Float32>,
}

impl View for AbilityData {
    type V = AbilityDataView;

    open spec fn view(&self) -> AbilityDataView {
        AbilityDataView {
            id: self.id,
            link_name: self.link_name@,
            link_index: self.link_index,
            button_name: text(self.button_name),
            friendly_name: text(self.friendly_name),
            hotkey: text(self.hotkey),
            remaps_to_ability_id: self.remaps_to_ability_id,
            available: self.available,
            target: self.target,
            allow_minimap: self.allow_minimap,
            allow_autocast: self.allow_autocast,
            is_building: self.is_building,
            footprint_radius: self.footprint_radius,
            is_instant_placement: self.is_instant_placement,
            cast_range: self.cast_range,
        }
    }
}

impl TryFromProto<ProtoAbilityData> for AbilityData {
    /// The record is kept where its identifier is present and known. Fields
    /// that may be missing stay missing; an identifier that the ability remaps
    /// to is kept only where it is known.
    open spec fn decoded(a: ProtoAbilityData) -> Option<AbilityDataView> {
        match known_ability(a.ability_id) {
            Some(id) => Some(
                AbilityDataView {
                    id,
                    link_name: a.link_name@,
                    link_index: a.link_index,
                    button_name: text(a.button_name),
                    friendly_name: text(a.friendly_name),
                    hotkey: text(a.hotkey),
                    remaps_to_ability_id: known_ability(a.remaps_to_ability_id),
                    available: a.available,
                    target: AbilityTarget::of_field(a.target),
                    allow_minimap: a.allow_minimap,
                    allow_autocast: a.allow_autocast,
                    is_building: a.is_building,
                    footprint_radius: a.footprint_radius,
                    is_instant_placement: a.is_instant_placement,
                    cast_range: a.cast_range,
                },
            ),
            None => None,
        }
    }

    fn try_from_proto(a: ProtoAbilityData) -> (r: Option<AbilityData>) {
        let id = match ability_of(a.ability_id) {
            Some(id) => id,
            None => {
                return None;
            },
        };
        let target = match AbilityTarget::from_proto(a.target) {
            Some(t) => t,
            None => AbilityTarget::NoTarget,
        };
        Some(
            AbilityData {
                id,
                link_name: a.link_name,
                link_index: a.link_index,
                button_name: a.button_name,
                friendly_name: a.friendly_name,
                hotkey: a.hotkey,
                remaps_to_ability_id: ability_of(a.remaps_to_ability_id),
                available: a.available,
                target,
                allow_minimap: a.allow_minimap,
                allow_autocast: a.allow_autocast,
                is_building: a.is_building,
                footprint_radius: a.footprint_radius,
                is_instant_placement: a.is_instant_placement,
                cast_range: a.cast_range,
            },
        )
    }
}

impl Keyed for AbilityData {
    open spec fn key(v: AbilityDataView) -> u32 {
        v.id.code()
    }

    fn key_of(&self) -> (k: u32) {
        self.id.to_u32()
    }
}

/// Decodes an optional ability code.
pub fn ability_of(code: Option<u32>) -> (r: Option<AbilityId>)
    ensures
        r == known_ability(code),
{
    match code {
        Some(c) => AbilityId::from_u32(c),
        None => None,
    }
}

/// Decodes an optional unit type code.
pub fn unit_type_of(code: Option<u32>) -> (r: Option<UnitTypeId>)
    ensures
        r == known_unit_type(code),
{
    match code {
        Some(c) => UnitTypeId::from_u32(c),
        None => None,
    }
}

/// Decodes a list of unit type codes and leaves out those not known.
pub fn unit_types_of(codes: &Vec<u32>) -> (r: Vec<UnitTypeId>)
    ensures
        r@ == known_unit_types(codes@),
{
    let mut out: Vec<UnitTypeId> = Vec::new();
    let mut i: usize = 0;
    assert(codes@.take(0) =~= Seq::empty());
    while i < codes.len()
        invariant
            i <= codes@.len(),
            out@ == known_unit_types(codes@.take(i as int)),
        decreases codes@.len() - i,
    {
        assert(codes@.take(i + 1).drop_last() == codes@.take(i as int));
        match UnitTypeId::from_u32(codes[i]) {
            Some(id) => out.push(id),
            None => {},
        }
        i = i + 1;
    }
    assert(codes@.take(codes@.len() as int) == codes@);
    out
}

/// Decodes a list of attribute codes and leaves out those that stand for no
/// attribute.
pub fn attributes_of(codes: &Vec<i32>) -> (r: Vec<Attribute>)
    ensures
        r@ == known_attributes(codes@),
{
    let mut out: Vec<Attribute> = Vec::new();
    let mut i: usize = 0;
    assert(codes@.take(0) =~= Seq::empty());
    while i < codes.len()
        invariant
            i <= codes@.len(),
            out@ == known_attributes(codes@.take(i as int)),
        decreases codes@.len() - i,
    {
        assert(codes@.take(i + 1).drop_last() == codes@.take(i as int));
        match Attribute::from_proto(codes[i]) {
            Some(a) => out.push(a),
            None => {},
        }
        i = i + 1;
    }
    assert(codes@.take(codes@.len() as int) == codes@);
    out
}

/// The values of a list of weapons.
pub open spec fn weapon_views(weapons: Seq<Weapon>) -> Seq<WeaponView> {
    Seq::new(weapons.len(), |i: int| weapons[i]@)
}

/// What a list of wire weapons decodes to, one for one.
pub open spec fn decoded_weapons(weapons: Seq<ProtoWeapon>) -> Seq<WeaponView> {
    Seq::new(weapons.len(), |i: int| Weapon::decoded(weapons[i]))
}

/// Decodes a list of weapons, one for one.
pub fn weapons_of(weapons: Vec<ProtoWeapon>) -> (r: Vec<Weapon>)
    ensures
        weapon_views(r@) == decoded_weapons(weapons@),
{
    let mut out: Vec<Weapon> = Vec::new();
    for weapon in it: weapons.into_iter()
        invariant
            it.seq() == weapons@,
            out@.len() == it.index(),
            forall|k: int| 0 <= k < it.index() ==> (#[trigger] out@[k])@ == Weapon::decoded(weapons@[k]),
    {
        out.push(Weapon::from_proto(weapon));
    }
    assert(weapon_views(out@) =~= decoded_weapons(weapons@));
    out
}

/// One unit type of the catalog.
#[derive(Clone, Debug)]
pub struct UnitTypeData {
    pub id: UnitTypeId,
    pub name: String,
    pub available: bool,
    pub cargo_size: u32,
    pub mineral_cost: u32,
    pub vespene_cost: u32,
    pub food_required: Float32,
    pub food_provided: Float32,
    pub ability: Option<AbilityId>,
    pub race: Race,
    pub build_time: Float32,
    pub has_vespene: bool,
    pub has_minerals: bool,
    pub sight_range: Float32,
    pub tech_alias: Vec<UnitTypeId>,
    pub unit_alias: Option<UnitTypeId>,
    pub tech_requirement: Option<UnitTypeId>,
    pub require_attached: bool,
    pub attributes: Vec<Attribute>,
    pub movement_speed: Float32,
    pub armor: Float32,
    pub weapons: Vec<Weapon>,
}

/// The value of a `UnitTypeData`.
pub struct UnitTypeDataView {
    pub id: UnitTypeId,
    pub name: Seq<char>,
    pub available: bool,
    pub cargo_size: u32,
    pub mineral_cost: u32,
    pub vespene_cost: u32,
    pub food_required: Float32,
    pub food_provided: Float32,
    pub ability: Option<AbilityId>,
    pub race: Race,
    pub build_time: Float32,
    pub has_vespene: bool,
    pub has_minerals: bool,
    pub sight_range: Float32,
    pub tech_alias: Seq<UnitTypeId>,
    pub unit_alias: Option<UnitTypeId>,
    pub tech_requirement: Option<UnitTypeId>,
    pub require_attached: bool,
    pub attributes: Seq<Attribute>,
    pub movement_speed: Float32,
    pub armor: Float32,
    pub weapons: Seq<WeaponView>,
}

impl View for UnitTypeData {
    type V = UnitTypeDataView;

    open spec fn view(&self) -> UnitTypeDataView {
        UnitTypeDataView {
            id: self.id,
            name: self.name@,
            available: self.available,
            cargo_size: self.cargo_size,
            mineral_cost: self.mineral_cost,
            vespene_cost: self.vespene_cost,
            food_required: self.food_required,
            food_provided: self.food_provided,
            ability: self.ability,
            race: self.race,
            build_time: self.build_time,
            has_vespene: self.has_vespene,
            has_minerals: self.has_minerals,
            sight_range: self.sight_range,
            tech_alias: self.tech_alias@,
            unit_alias: self.unit_alias,
            tech_requirement: self.tech_requirement,
            require_attached: self.require_attached,
            attributes: self.attributes@,
            movement_speed: self.movement_speed,
            armor: self.armor,
            weapons: weapon_views(self.weapons@),
        }
    }
}

impl UnitTypeData {
    /// The cost of one unit of this type: its minerals, its vespene, the
    /// supply it takes and the time it takes to build.
    pub fn cost(&self) -> (r: Cost)
        ensures
            r == (Cost {
                minerals: self.mineral_cost,
                vespene: self.vespene_cost,
                supply: self.food_required,
                time: self.build_time,
            }),
    {
        Cost {
            minerals: self.mineral_cost,
            vespene: self.vespene_cost,
            supply: self.food_required,
            time: self.build_time,
        }
    }
}

impl TryFromProto<ProtoUnitTypeData> for UnitTypeData {
    /// The record is kept where its identifier is present and known. The
    /// ability, the unit alias and the tech requirement are kept only where
    /// they are present and known; the tech aliases and the attributes lose
    /// the codes not known; the weapons are decoded one for one.
    open spec fn decoded(u: ProtoUnitTypeData) -> Option<UnitTypeDataView> {
        match known_unit_type(u.unit_id) {
            Some(id) => Some(
                UnitTypeDataView {
                    id,
                    name: u.name@,
                    available: u.available,
                    cargo_size: u.cargo_size,
                    mineral_cost: u.mineral_cost,
                    vespene_cost: u.vespene_cost,
                    food_required: u.food_required,
                    food_provided: u.food_provided,
                    ability: known_ability(u.ability_id),
                    race: race_of_field(u.race),
                    build_time: u.build_time,
                    has_vespene: u.has_vespene,
                    has_minerals: u.has_minerals,
                    sight_range: u.sight_range,
                    tech_alias: known_unit_types(u.tech_alias@),
                    unit_alias: known_unit_type(u.unit_alias),
                    tech_requirement: known_unit_type(u.tech_requirement),
                    require_attached: u.require_attached,
                    attributes: known_attributes(u.attributes@),
                    movement_speed: u.movement_speed,
                    armor: u.armor,
                    weapons: decoded_weapons(u.weapons@),
                },
            ),
            None => None,
        }
    }

    fn try_from_proto(u: ProtoUnitTypeData) -> (r: Option<UnitTypeData>) {
        let id = match unit_type_of(u.unit_id) {
            Some(id) => id,
            None => {
                return None;
            },
        };
        let race = match Race::from_proto(u.race) {
            Some(r) => r,
            None => Race::Random,
        };
        let tech_alias = unit_types_of(&u.tech_alias);
        let attributes = attributes_of(&u.attributes);
        let weapons = weapons_of(u.weapons);
        Some(
            UnitTypeData {
                id,
                name: u.name,
                available: u.available,
                cargo_size: u.cargo_size,
                mineral_cost: u.mineral_cost,
                vespene_cost: u.vespene_cost,
                food_required: u.food_required,
                food_provided: u.food_provided,
                ability: ability_of(u.ability_id),
                race,
                build_time: u.build_time,
                has_vespene: u.has_vespene,
                has_minerals: u.has_minerals,
                sight_range: u.sight_range,
                tech_alias,
                unit_alias: unit_type_of(u.unit_alias),
                tech_requirement: unit_type_of(u.tech_requirement),
                require_attached: u.require_attached,
                attributes,
                movement_speed: u.movement_speed,
                armor: u.armor,
                weapons,
            },
        )
    }
}

impl Keyed for UnitTypeData {
    open spec fn key(v: UnitTypeDataView) -> u32 {
        v.id.code()
    }

    fn key_of(&self) -> (k: u32) {
        self.id.to_u32()
    }
}

/// One upgrade of the catalog.
#[derive(Clone, Debug)]
pub struct UpgradeData {
    pub id: UpgradeId,
    pub name: String,
    pub mineral_cost: u32,
    pub vespene_cost: u32,
    pub research_time: Float32,
    pub ability: AbilityId,
}

/// The value of an `UpgradeData`.
pub struct UpgradeDataView {
    pub id: UpgradeId,
    pub name: Seq<char>,
    pub mineral_cost: u32,
    pub vespene_cost: u32,
    pub research_time: Float32,
    pub ability: AbilityId,
}

impl View for UpgradeData {
    type V = UpgradeDataView;

    open spec fn view(&self) -> UpgradeDataView {
        UpgradeDataView {
            id: self.id,
            name: self.name@,
            mineral_cost: self.mineral_cost,
            vespene_cost: self.vespene_cost,
            research_time: self.research_time,
            ability: self.ability,
        }
    }
}

impl UpgradeData {
    /// The cost of this upgrade: its minerals, its vespene and the time it
    /// takes to research. An upgrade takes no supply.
    pub fn cost(&self) -> (r: Cost)
        ensures
            r == (Cost {
                minerals: self.mineral_cost,
                vespene: self.vespene_cost,
                supply: Float32::zero(),
                time: self.research_time,
            }),
            r.supply.bits == 0,
    {
        Cost {
            minerals: self.mineral_cost,
            vespene: self.vespene_cost,
            supply: Float32 { bits: 0 },
            time: self.research_time,
        }
    }
}

impl TryFromProto<ProtoUpgradeData> for UpgradeData {
    /// The record is kept where its identifier is present and known and the
    /// ability that researches it is known.
    open spec fn decoded(u: ProtoUpgradeData) -> Option<UpgradeDataView> {
        match (
            match u.upgrade_id {
                Some(c) => UpgradeId::of_code(c),
                None => None,
            },
            AbilityId::of_code(u.ability_id),
        ) {
            (Some(id), Some(ability)) => Some(
                UpgradeDataView {
                    id,
                    name: u.name@,
                    mineral_cost: u.mineral_cost,
                    vespene_cost: u.vespene_cost,
                    research_time: u.research_time,
                    ability,
                },
            ),
            _ => None,
        }
    }

    fn try_from_proto(u: ProtoUpgradeData) -> (r: Option<UpgradeData>) {
        let id = match u.upgrade_id {
            Some(code) => match UpgradeId::from_u32(code) {
                Some(id) => id,
                None => {
                    return None;
                },
            },
            None => {
                return None;
            },
        };
        let ability = match AbilityId::from_u32(u.ability_id) {
            Some(id) => id,
            None => {
                return None;
            },
        };
        Some(
            UpgradeData {
                id,
                name: u.name,
                mineral_cost: u.mineral_cost,
                vespene_cost: u.vespene_cost,
                research_time: u.research_time,
                ability,
            },
        )
    }
}

impl Keyed for UpgradeData {
    open spec fn key(v: UpgradeDataView) -> u32 {
        v.id.code()
    }

    fn key_of(&self) -> (k: u32) {
        self.id.to_u32()
    }
}

/// One buff of the catalog.
#[derive(Clone, Debug)]
pub struct BuffData {
    pub id: BuffId,
    pub name: String,
}

/// The value of a `BuffData`.
pub struct BuffDataView {
    pub id: BuffId,
    pub name: Seq<char>,
}

impl View for BuffData {
    type V = BuffDataView;

    open spec fn view(&self) -> BuffDataView {
        BuffDataView { id: self.id, name: self.name@ }
    }
}

impl TryFromProto<ProtoBuffData> for BuffData {
    /// The record is kept where its identifier is present and known.
    open spec fn decoded(b: ProtoBuffData) -> Option<BuffDataView> {
        match b.buff_id {
            Some(code) => match BuffId::of_code(code) {
                Some(id) => Some(BuffDataView { id, name: b.name@ }),
                None => None,
            },
            None => None,
        }
    }

    fn try_from_proto(b: ProtoBuffData) -> (r: Option<BuffData>) {
        let id = match b.buff_id {
            Some(code) => match BuffId::from_u32(code) {
                Some(id) => id,
                None => {
                    return None;
                },
            },
            None => {
                return None;
            },
        };
        Some(BuffData { id, name: b.name })
    }
}

impl Keyed for BuffData {
    open spec fn key(v: BuffDataView) -> u32 {
        v.id.code()
    }

    fn key_of(&self) -> (k: u32) {
        self.id.to_u32()
    }
}

/// One effect of the catalog.
#[derive(Clone, Debug)]
pub struct EffectData {
    pub id: EffectId,
    pub name: String,
    pub friendly_name: String,
    pub radius: Float32,
    pub target: TargetType,
    pub friendly_fire: bool,
}

/// The value of an `EffectData`.
pub struct EffectDataView {
    pub id: EffectId,
    pub name: Seq<char>,
    pub friendly_name: Seq<char>,
    pub radius: Float32,
    pub target: TargetType,
    pub friendly_fire: bool,
}

impl View for EffectData {
    type V = EffectDataView;

    open spec fn view(&self) -> EffectDataView {
        EffectDataView {
            id: self.id,
            name: self.name@,
            friendly_name: self.friendly_name@,
            radius: self.radius,
            target: self.target,
            friendly_fire: self.friendly_fire,
        }
    }
}

impl EffectData {
    /// What each effect can hit. The wire does not say; this table does.
    pub open spec fn target_of(id: EffectId) -> TargetType {
        match id {
            EffectId::Null => TargetType::Any,
            EffectId::PsiStormPersistent => TargetType::Any,
            EffectId::GuardianShieldPersistent => TargetType::Ground,
            EffectId::TemporalFieldGrowingBubbleCreatePersistent => TargetType::Ground,
            EffectId::TemporalFieldAfterBubbleCreatePersistent => TargetType::Ground,
            EffectId::ThermalLancesForward => TargetType::Ground,
            EffectId::ScannerSweep => TargetType::Any,
            EffectId::NukePersistent => TargetType::Any,
            EffectId::LiberatorTargetMorphDelayPersistent => TargetType::Ground,
            EffectId::LiberatorTargetMorphPersistent => TargetType::Ground,
            EffectId::BlindingCloudCP => TargetType::Ground,
            EffectId::RavagerCorrosiveBileCP => TargetType::Any,
            EffectId::LurkerMP => TargetType::Ground,
        }
    }

    /// Whether each effect hurts the units of the player who made it. The
    /// wire does not say; this table does.
    pub open spec fn friendly_fire_of(id: EffectId) -> bool {
        match id {
            EffectId::Null => false,
            EffectId::PsiStormPersistent => true,
            EffectId::GuardianShieldPersistent => false,
            EffectId::TemporalFieldGrowingBubbleCreatePersistent => false,
            EffectId::TemporalFieldAfterBubbleCreatePersistent => false,
            EffectId::ThermalLancesForward => false,
            EffectId::ScannerSweep => false,
            EffectId::NukePersistent => true,
            EffectId::LiberatorTargetMorphDelayPersistent => false,
            EffectId::LiberatorTargetMorphPersistent => false,
            EffectId::BlindingCloudCP => false,
            EffectId::RavagerCorrosiveBileCP => true,
            EffectId::LurkerMP => false,
        }
    }

    /// What the effect can hit.
    pub fn target_type(id: EffectId) -> (r: TargetType)
        ensures
            r == EffectData::target_of(id),
    {
        match id {
            EffectId::Null
            | EffectId::PsiStormPersistent
            | EffectId::ScannerSweep
            | EffectId::NukePersistent
            | EffectId::RavagerCorrosiveBileCP => TargetType::Any,
            EffectId::GuardianShieldPersistent
            | EffectId::TemporalFieldGrowingBubbleCreatePersistent
            | EffectId::TemporalFieldAfterBubbleCreatePersistent
            | EffectId::ThermalLancesForward
            | EffectId::LiberatorTargetMorphDelayPersistent
            | EffectId::LiberatorTargetMorphPersistent
            | EffectId::BlindingCloudCP
            | EffectId::LurkerMP => TargetType::Ground,
        }
    }

    /// Whether the effect hurts the units of the player who made it.
    pub fn has_friendly_fire(id: EffectId) -> (r: bool)
        ensures
            r == EffectData::friendly_fire_of(id),
    {
        match id {
            EffectId::PsiStormPersistent
            | EffectId::NukePersistent
            | EffectId::RavagerCorrosiveBileCP => true,
            EffectId::Null
            | EffectId::GuardianShieldPersistent
            | EffectId::TemporalFieldGrowingBubbleCreatePersistent
            | EffectId::TemporalFieldAfterBubbleCreatePersistent
            | EffectId::ThermalLancesForward
            | EffectId::ScannerSweep
            | EffectId::LiberatorTargetMorphDelayPersistent
            | EffectId::LiberatorTargetMorphPersistent
            | EffectId::BlindingCloudCP
            | EffectId::LurkerMP => false,
        }
    }
}

impl TryFromProto<ProtoEffectData> for EffectData {
    /// The record is kept where its identifier is present and known. What the
    /// effect can hit and whether it hurts its maker's units come from the
    /// two tables, by the identifier alone.
    open spec fn decoded(e: ProtoEffectData) -> Option<EffectDataView> {
        match e.effect_id {
            Some(code) => match EffectId::of_code(code) {
                Some(id) => Some(
                    EffectDataView {
                        id,
                        name: e.name@,
                        friendly_name: e.friendly_name@,
                        radius: e.radius,
                        target: EffectData::target_of(id),
                        friendly_fire: EffectData::friendly_fire_of(id),
                    },
                ),
                None => None,
            },
            None => None,
        }
    }

    fn try_from_proto(e: ProtoEffectData) -> (r: Option<EffectData>) {
        let id = match e.effect_id {
            Some(code) => match EffectId::from_u32(code) {
                Some(id) => id,
                None => {
                    return None;
                },
            },
            None => {
                return None;
            },
        };
        Some(
            EffectData {
                id,
                name: e.name,
                friendly_name: e.friendly_name,
                radius: e.radius,
                target: EffectData::target_type(id),
                friendly_fire: EffectData::has_friendly_fire(id),
            },
        )
    }
}

impl Keyed for EffectData {
    open spec fn key(v: EffectDataView) -> u32 {
        v.id.code()
    }

    fn key_of(&self) -> (k: u32) {
        self.id.to_u32()
    }
}

/// The values of the records of a map, each under its key.
pub open spec fn views<R: View>(m: Map<u32, R>) -> Map<u32, R::V> {
    m.map_values(|r: R| r@)
}

/// The catalog that a list of wire records gives: each record that decodes
/// is filed under its key, and of two records with one key the later stays.
pub open spec fn collected<T, R: TryFromProto<T> + Keyed>(raws: Seq<T>) -> Map<u32, R::V>
    decreases raws.len(),
{
    if raws.len() == 0 {
        Map::empty()
    } else {
        let rest = collected::<T, R>(raws.drop_last());
        match R::decoded(raws.last()) {
            Some(v) => rest.insert(R::key(v), v),
            None => rest,
        }
    }
}

/// Whether record `i` of the list decodes and is filed under `k`.
pub open spec fn files_under<T, R: TryFromProto<T> + Keyed>(raws: Seq<T>, i: int, k: u32) -> bool {
    &&& 0 <= i < raws.len()
    &&& R::decoded(raws[i]) matches Some(v) && R::key(v) == k
}

/// A key is in the catalog exactly when some record of the list is filed
/// under it, and what stands there is the last such record. So a record that
/// is dropped puts nothing into the catalog.
pub proof fn lemma_collected<T, R: TryFromProto<T> + Keyed>(raws: Seq<T>, k: u32)
    ensures
        collected::<T, R>(raws).contains_key(k) <==> exists|i: int| files_under::<T, R>(raws, i, k),
        forall|i: int|
            #![trigger files_under::<T, R>(raws, i, k)]
            files_under::<T, R>(raws, i, k) && (forall|j: int|
                i < j < raws.len() ==> !files_under::<T, R>(raws, j, k)) ==> collected::<T, R>(
                raws,
            )[k] == R::decoded(raws[i]).unwrap(),
        collected::<T, R>(raws).contains_key(k) ==> R::key(collected::<T, R>(raws)[k]) == k,
    decreases raws.len(),
{
    if raws.len() > 0 {
        let init = raws.drop_last();
        let n = raws.len() - 1;
        lemma_collected::<T, R>(init, k);
        assert forall|i: int| 0 <= i < n implies files_under::<T, R>(raws, i, k) == files_under::<
            T,
            R,
        >(init, i, k) by {
            assert(init[i] == raws[i]);
        }
        if collected::<T, R>(raws).contains_key(k) {
            if files_under::<T, R>(raws, n, k) {
            } else {
                assert(collected::<T, R>(init).contains_key(k));
                let i = choose|i: int| files_under::<T, R>(init, i, k);
                assert(files_under::<T, R>(raws, i, k));
            }
        }
        if exists|i: int| files_under::<T, R>(raws, i, k) {
            let i = choose|i: int| files_under::<T, R>(raws, i, k);
            if i < n {
                assert(files_under::<T, R>(init, i, k));
            }
        }
        assert forall|i: int|
            #![trigger files_under::<T, R>(raws, i, k)]
            files_under::<T, R>(raws, i, k) && (forall|j: int|
                i < j < raws.len() ==> !files_under::<T, R>(
                    raws,
                    j,
                    k,
                )) implies collected::<T, R>(raws)[k] == R::decoded(raws[i]).unwrap() by {
            if i < n {
                assert(!files_under::<T, R>(raws, n, k));
                assert(files_under::<T, R>(init, i, k));
                assert forall|j: int| i < j < init.len() implies !files_under::<T, R>(
                    init,
                    j,
                    k,
                ) by {
                    assert(!files_under::<T, R>(raws, j, k));
                }
            }
        }
    }
}

/// A list of records none of which decodes gives an empty catalog.
pub proof fn lemma_collected_none<T, R: TryFromProto<T> + Keyed>(raws: Seq<T>)
    requires
        forall|i: int| 0 <= i < raws.len() ==> R::decoded(#[trigger] raws[i]) is None,
    ensures
        collected::<T, R>(raws) == Map::<u32, R::V>::empty(),
    decreases raws.len(),
{
    if raws.len() > 0 {
        let init = raws.drop_last();
        assert forall|i: int| 0 <= i < init.len() implies R::decoded(#[trigger] init[i]) is None by {
            assert(init[i] == raws[i]);
        }
        lemma_collected_none::<T, R>(init);
        assert(R::decoded(raws[raws.len() - 1]) is None);
    }
}

/// Every key of a catalog is the code of a known identifier, and that
/// identifier is the one of the record filed there: a record whose code is
/// not known is nowhere in the catalog.
pub proof fn lemma_catalog_keys_known(data: ResponseData, k: u32)
    ensures
        collected::<ProtoAbilityData, AbilityData>(data.abilities@).contains_key(k)
            ==> AbilityId::of_code(k) == Some(
            collected::<ProtoAbilityData, AbilityData>(data.abilities@)[k].id,
        ),
        collected::<ProtoUnitTypeData, UnitTypeData>(data.units@).contains_key(k)
            ==> UnitTypeId::of_code(k) == Some(
            collected::<ProtoUnitTypeData, UnitTypeData>(data.units@)[k].id,
        ),
        collected::<ProtoUpgradeData, UpgradeData>(data.upgrades@).contains_key(k)
            ==> UpgradeId::of_code(k) == Some(
            collected::<ProtoUpgradeData, UpgradeData>(data.upgrades@)[k].id,
        ),
        collected::<ProtoBuffData, BuffData>(data.buffs@).contains_key(k) ==> BuffId::of_code(k)
            == Some(collected::<ProtoBuffData, BuffData>(data.buffs@)[k].id),
        collected::<ProtoEffectData, EffectData>(data.effects@).contains_key(k)
            ==> EffectId::of_code(k) == Some(
            collected::<ProtoEffectData, EffectData>(data.effects@)[k].id,
        ),
{
    lemma_collected::<ProtoAbilityData, AbilityData>(data.abilities@, k);
    lemma_collected::<ProtoUnitTypeData, UnitTypeData>(data.units@, k);
    lemma_collected::<ProtoUpgradeData, UpgradeData>(data.upgrades@, k);
    lemma_collected::<ProtoBuffData, BuffData>(data.buffs@, k);
    lemma_collected::<ProtoEffectData, EffectData>(data.effects@, k);
    if collected::<ProtoAbilityData, AbilityData>(data.abilities@).contains_key(k) {
        lemma_ability_id_round_trip(
            collected::<ProtoAbilityData, AbilityData>(data.abilities@)[k].id,
        );
    }
    if collected::<ProtoUnitTypeData, UnitTypeData>(data.units@).contains_key(k) {
        lemma_unit_type_id_round_trip(
            collected::<ProtoUnitTypeData, UnitTypeData>(data.units@)[k].id,
        );
    }
    if collected::<ProtoUpgradeData, UpgradeData>(data.upgrades@).contains_key(k) {
        lemma_upgrade_id_round_trip(
            collected::<ProtoUpgradeData, UpgradeData>(data.upgrades@)[k].id,
        );
    }
    if collected::<ProtoBuffData, BuffData>(data.buffs@).contains_key(k) {
        lemma_buff_id_round_trip(collected::<ProtoBuffData, BuffData>(data.buffs@)[k].id);
    }
    if collected::<ProtoEffectData, EffectData>(data.effects@).contains_key(k) {
        lemma_effect_id_round_trip(
            collected::<ProtoEffectData, EffectData>(data.effects@)[k].id,
        );
    }
}

/// The whole catalog of the game: abilities, unit types, upgrades, buffs and
/// effects, each filed under the numeric code of its identifier.
#[derive(Clone)]
pub struct GameData {
    pub abilities: HashMap<u32, AbilityData>,
    pub units: HashMap<u32, UnitTypeData>,
    pub upgrades: HashMap<u32, UpgradeData>,
    pub buffs: HashMap<u32, BuffData>,
    pub effects: HashMap<u32, EffectData>,
}

/// Files the records of one list that decode, each under its key.
pub fn collect<T, R: TryFromProto<T> + Keyed>(raws: Vec<T>) -> (m: HashMap<u32, R>)
    ensures
        views(m@) == collected::<T, R>(raws@),
{
    broadcast use vstd::std_specs::hash::group_hash_axioms;

    let mut m: HashMap<u32, R> = HashMap::new();
    assert(views(m@) =~= collected::<T, R>(raws@.take(0)));
    for raw in it: raws.into_iter()
        invariant
            it.seq() == raws@,
            views(m@) == collected::<T, R>(raws@.take(it.index() as int)),
    {
        let ghost i = it.index() as int;
        assert(raws@.take(i + 1).drop_last() == raws@.take(i));
        assert(raws@.take(i + 1).last() == raw);
        match R::try_from_proto(raw) {
            Some(x) => {
                let k = x.key_of();
                let ghost before = m@;
                m.insert(k, x);
                assert(views(m@) =~= views(before).insert(k, x@));
            },
            None => {},
        }
    }
    assert(raws@.take(raws@.len() as int) == raws@);
    m
}

impl GameData {
    /// Whether every record stands under the code of its own identifier.
    pub open spec fn wf(&self) -> bool {
        &&& forall|k: u32| #[trigger] self.abilities@.contains_key(k) ==> self.abilities@[k].id.code() == k
        &&& forall|k: u32| #[trigger] self.units@.contains_key(k) ==> self.units@[k].id.code() == k
        &&& forall|k: u32| #[trigger] self.upgrades@.contains_key(k) ==> self.upgrades@[k].id.code() == k
        &&& forall|k: u32| #[trigger] self.buffs@.contains_key(k) ==> self.buffs@[k].id.code() == k
        &&& forall|k: u32| #[trigger] self.effects@.contains_key(k) ==> self.effects@[k].id.code() == k
    }

    /// Builds the catalog from the wire catalog. Each of the five lists is
    /// read in order; a record that does not decode is left out, and of two
    /// records with one identifier the later stays. This never fails: from
    /// lists that are empty, or hold no known identifier, it gives an empty
    /// catalog.
    pub fn from_proto(data: ResponseData) -> (r: GameData)
        ensures
            r.wf(),
            views(r.abilities@) == collected::<ProtoAbilityData, AbilityData>(data.abilities@),
            views(r.units@) == collected::<ProtoUnitTypeData, UnitTypeData>(data.units@),
            views(r.upgrades@) == collected::<ProtoUpgradeData, UpgradeData>(data.upgrades@),
            views(r.buffs@) == collected::<ProtoBuffData, BuffData>(data.buffs@),
            views(r.effects@) == collected::<ProtoEffectData, EffectData>(data.effects@),
    {
        let r = GameData {
            abilities: collect(data.abilities),
            units: collect(data.units),
            upgrades: collect(data.upgrades),
            buffs: collect(data.buffs),
            effects: collect(data.effects),
        };
        proof {
            assert forall|k: u32| #[trigger] r.abilities@.contains_key(k) implies r.abilities@[k].id.code()
                == k by {
                lemma_collected::<ProtoAbilityData, AbilityData>(data.abilities@, k);
                assert(views(r.abilities@).contains_key(k));
                assert(views(r.abilities@)[k] == r.abilities@[k]@);
            }
            assert forall|k: u32| #[trigger] r.units@.contains_key(k) implies r.units@[k].id.code()
                == k by {
                lemma_collected::<ProtoUnitTypeData, UnitTypeData>(data.units@, k);
                assert(views(r.units@).contains_key(k));
                assert(views(r.units@)[k] == r.units@[k]@);
            }
            assert forall|k: u32| #[trigger] r.upgrades@.contains_key(k) implies r.upgrades@[k].id.code()
                == k by {
                lemma_collected::<ProtoUpgradeData, UpgradeData>(data.upgrades@, k);
                assert(views(r.upgrades@).contains_key(k));
                assert(views(r.upgrades@)[k] == r.upgrades@[k]@);
            }
            assert forall|k: u32| #[trigger] r.buffs@.contains_key(k) implies r.buffs@[k].id.code()
                == k by {
                lemma_collected::<ProtoBuffData, BuffData>(data.buffs@, k);
                assert(views(r.buffs@).contains_key(k));
                assert(views(r.buffs@)[k] == r.buffs@[k]@);
            }
            assert forall|k: u32| #[trigger] r.effects@.contains_key(k) implies r.effects@[k].id.code()
                == k by {
                lemma_collected::<ProtoEffectData, EffectData>(data.effects@, k);
                assert(views(r.effects@).contains_key(k));
                assert(views(r.effects@)[k] == r.effects@[k]@);
            }
        }
        r
    }

    /// The record of an ability, if the catalog holds one.
    pub fn ability(&self, id: AbilityId) -> (r: Option<&AbilityData>)
        ensures
            r is Some <==> self.abilities@.contains_key(id.code()),
            r matches Some(a) ==> *a == self.abilities@[id.code()],
            self.wf() ==> (r matches Some(a) ==> a.id == id),
    {
        broadcast use vstd::std_specs::hash::group_hash_axioms;

        let k = id.to_u32();
        self.abilities.get(&k)
    }

    /// The record of a unit type, if the catalog holds one.
    pub fn unit(&self, id: UnitTypeId) -> (r: Option<&UnitTypeData>)
        ensures
            r is Some <==> self.units@.contains_key(id.code()),
            r matches Some(u) ==> *u == self.units@[id.code()],
            self.wf() ==> (r matches Some(u) ==> u.id == id),
    {
        broadcast use vstd::std_specs::hash::group_hash_axioms;

        let k = id.to_u32();
        self.units.get(&k)
    }

    /// The record of an upgrade, if the catalog holds one.
    pub fn upgrade(&self, id: UpgradeId) -> (r: Option<&UpgradeData>)
        ensures
            r is Some <==> self.upgrades@.contains_key(id.code()),
            r matches Some(u) ==> *u == self.upgrades@[id.code()],
            self.wf() ==> (r matches Some(u) ==> u.id == id),
    {
        broadcast use vstd::std_specs::hash::group_hash_axioms;

        let k = id.to_u32();
        self.upgrades.get(&k)
    }

    /// The record of a buff, if the catalog holds one.
    pub fn buff(&self, id: BuffId) -> (r: Option<&BuffData>)
        ensures
            r is Some <==> self.buffs@.contains_key(id.code()),
            r matches Some(b) ==> *b == self.buffs@[id.code()],
            self.wf() ==> (r matches Some(b) ==> b.id == id),
    {
        broadcast use vstd::std_specs::hash::group_hash_axioms;

        let k = id.to_u32();
        self.buffs.get(&k)
    }

    /// The record of an effect, if the catalog holds one.
    pub fn effect(&self, id: EffectId) -> (r: Option<&EffectData>)
        ensures
            r is Some <==> self.effects@.contains_key(id.code()),
            r matches Some(e) ==> *e == self.effects@[id.code()],
            self.wf() ==> (r matches Some(e) ==> e.id == id),
    {
        broadcast use vstd::std_specs::hash::group_hash_axioms;

        let k = id.to_u32();
        self.effects.get(&k)
    }
}

impl Default for GameData {
    fn default() -> (r: GameData)
        ensures
            r.wf(),
            r.abilities@ == Map::<u32, AbilityData>::empty(),
            r.units@ == Map::<u32, UnitTypeData>::empty(),
            r.upgrades@ == Map::<u32, UpgradeData>::empty(),
            r.buffs@ == Map::<u32, BuffData>::empty(),
            r.effects@ == Map::<u32, EffectData>::empty(),
    {
        GameData {
            abilities: HashMap::new(),
            units: HashMap::new(),
            upgrades: HashMap::new(),
            buffs: HashMap::new(),
            effects: HashMap::new(),
        }
    }
}

} // verus!
