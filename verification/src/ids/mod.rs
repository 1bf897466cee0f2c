pub mod ability_id;
pub mod buff_id;
pub mod effect_id;
pub mod unit_type_id;
pub mod upgrade_id;

pub use ability_id::AbilityId;
pub use buff_id::BuffId;
pub use effect_id::EffectId;
pub use unit_type_id::UnitTypeId;
pub use upgrade_id::UpgradeId;
