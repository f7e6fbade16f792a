//! Plant species and the seasonal catalog.

use vstd::prelude::*;

verus! {

/// One of the four seasons, forming a yearly cycle
/// (Spring, Summer, Autumn, Winter, and back to Spring).
///
/// In this core, seasons are catalog metadata used only for equality and
/// membership checks; nothing tracks a current season yet, so seasonal
/// sowing legality is deliberately not enforced by the grid or the
/// interaction tick.
#[derive(Clone, Copy, PartialEq, Eq, Debug, Structural)]
pub enum Season {
    Spring,
    Summer,
    Autumn,
    Winter,
}

/// A plant species: a display name and the seasonal windows in which it is
/// sown and harvested. Species are plain values; two species are equal when
/// all their fields are equal.
#[derive(Clone, Copy, PartialEq, Eq, Debug)]
pub struct Plant {
    pub name: &'static str,
    pub sow: Season,
    pub harvest: Season,
}

/// Kumara, a starter species: sown in autumn, harvested in spring.
pub fn kumara() -> (p: Plant)
    ensures
        p.name@ == "Kumara"@,
        p.sow == Season::Autumn,
        p.harvest == Season::Spring,
{
    Plant { name: "Kumara", sow: Season::Autumn, harvest: Season::Spring }
}

/// Manuka, a starter species: sown in autumn, harvested in spring.
pub fn manuka() -> (p: Plant)
    ensures
        p.name@ == "Manuka"@,
        p.sow == Season::Autumn,
        p.harvest == Season::Spring,
{
    Plant { name: "Manuka", sow: Season::Autumn, harvest: Season::Spring }
}

/// Puha, a starter species: sown in autumn, harvested in spring.
pub fn puha() -> (p: Plant)
    ensures
        p.name@ == "Puha"@,
        p.sow == Season::Autumn,
        p.harvest == Season::Spring,
{
    Plant { name: "Puha", sow: Season::Autumn, harvest: Season::Spring }
}

} // verus!
