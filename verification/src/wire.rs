use crate::float::Float32;
use vstd::prelude::*;

verus! {

/// One ability as the wire catalog describes it.
///
/// A field is an `Option` where the catalog tells a missing value from a
/// present one; the other fields hold the wire's default when it sent nothing.
/// An enumerated field holds its wire code.
pub struct ProtoAbilityData {
    pub ability_id: Option<u32>,
    pub link_name: String,
    pub link_index: u32,
    pub button_name: Option<String>,
    pub friendly_name: Option<String>,
    pub hotkey: Option<String>,
    pub remaps_to_ability_id: Option<u32>,
    pub available: bool,
    pub target: i32,
    pub allow_minimap: bool,
    pub allow_autocast: bool,
    pub is_building: bool,
    pub footprint_radius: Option<Float32>,
    pub is_instant_placement: bool,
    pub cast_range: Option<Float32>,
}

/// Extra damage of a weapon against units with one attribute.
pub struct ProtoDamageBonus {
    pub attribute: i32,
    pub bonus: Float32,
}

/// One weapon of a unit type as the wire catalog describes it.
pub struct ProtoWeapon {
    pub target_type: i32,
    pub damage: Float32,
    pub damage_bonus: Vec<ProtoDamageBonus>,
    pub attacks: u32,
    pub range: Float32,
    pub speed: Float32,
}

/// One unit type as the wire catalog describes it.
pub struct ProtoUnitTypeData {
    pub unit_id: Option<u32>,
    pub name: String,
    pub available: bool,
    pub cargo_size: u32,
    pub mineral_cost: u32,
    pub vespene_cost: u32,
    pub food_required: Float32,
    pub food_provided: Float32,
    pub ability_id: Option<u32>,
    pub race: i32,
    pub build_time: Float32,
    pub has_vespene: bool,
    pub has_minerals: bool,
    pub sight_range: Float32,
    pub tech_alias: Vec<u32>,
    pub unit_alias: Option<u32>,
    pub tech_requirement: Option<u32>,
    pub require_attached: bool,
    pub attributes: Vec<i32>,
    pub movement_speed: Float32,
    pub armor: Float32,
    pub weapons: Vec<ProtoWeapon>,
}

/// One upgrade as the wire catalog describes it.
pub struct ProtoUpgradeData {
    pub upgrade_id: Option<u32>,
    pub name: String,
    pub mineral_cost: u32,
    pub vespene_cost: u32,
    pub research_time: Float32,
    pub ability_id: u32,
}

/// One buff as the wire catalog describes it.
pub struct ProtoBuffData {
    pub buff_id: Option<u32>,
    pub name: String,
}

/// One effect as the wire catalog describes it.
pub struct ProtoEffectData {
    pub effect_id: Option<u32>,
    pub name: String,
    pub friendly_name: String,
    pub radius: Float32,
}

/// The whole wire catalog: five parallel lists of records.
pub struct ResponseData {
    pub abilities: Vec<ProtoAbilityData>,
    pub units: Vec<ProtoUnitTypeData>,
    pub upgrades: Vec<ProtoUpgradeData>,
    pub buffs: Vec<ProtoBuffData>,
    pub effects: Vec<ProtoEffectData>,
}

/// The header of a grid image: `x` cells wide, `y` cells high.
#[derive(Clone, Copy, Debug, PartialEq, Eq, Structural)]
pub struct Size2DI {
    pub x: i32,
    pub y: i32,
}

/// A grid image as the wire sends it: a header and a flat buffer that holds
/// the rows one after the other.
pub struct ImageData {
    pub bits_per_pixel: i32,
    pub size: Size2DI,
    pub data: Vec<u8>,
}

/// A catalog record that is built from a wire record, or not at all.
pub trait TryFromProto<T>: Sized + View {
    /// What the wire record decodes to: the view of the catalog record, or
    /// `None` where the wire record is dropped.
    spec fn decoded(raw: T) -> Option<Self::V>;

    /// Decodes one wire record. A record whose identifier is missing or not
    /// known is dropped: that is no error.
    fn try_from_proto(raw: T) -> (r: Option<Self>)
        ensures
            r is Some <==> Self::decoded(raw) is Some,
            r matches Some(x) ==> Self::decoded(raw) == Some(x@),
    ;
}

/// A catalog record that is filed under the numeric code of its identifier.
pub trait Keyed: View {
    /// The code under which a record with this view is filed.
    spec fn key(v: Self::V) -> u32;

    /// The code under which this record is filed.
    fn key_of(&self) -> (k: u32)
        ensures
            k == Self::key(self@),
    ;
}

} // verus!
