use vstd::prelude::*;

verus! {

/// The faction a player or a unit type belongs to.
#[derive(Clone, Copy, Debug, PartialEq, Eq, Hash, Structural)]
pub enum Race {
    Terran,
    Zerg,
    Protoss,
    Random,
}

impl Race {
    /// The race that a wire code stands for. The wire knows five codes: 0 for
    /// "no race", which counts as `Random`, then Terran, Zerg, Protoss and
    /// Random. Any other code stands for nothing.
    pub open spec fn of_code(code: i32) -> Option<Race> {
        if code == 0 || code == 4 {
            Some(Race::Random)
        } else if code == 1 {
            Some(Race::Terran)
        } else if code == 2 {
            Some(Race::Zerg)
        } else if code == 3 {
            Some(Race::Protoss)
        } else {
            None
        }
    }

    /// Decodes the wire code of a race.
    pub fn from_proto(race: i32) -> (r: Option<Race>)
        ensures
            r == Race::of_code(race),
    {
        match race {
            0 => Some(Race::Random),
            1 => Some(Race::Terran),
            2 => Some(Race::Zerg),
            3 => Some(Race::Protoss),
            4 => Some(Race::Random),
            _ => None,
        }
    }
}

impl Default for Race {
    fn default() -> (r: Race)
        ensures
            r == Race::Random,
    {
        Race::Random
    }
}

} // verus!
