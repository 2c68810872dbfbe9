//! Identifiers of the solar-system bodies known to the simulation.

use vstd::prelude::*;

verus! {

/// Identifier for celestial bodies in the simulation.
#[derive(Clone, Copy, Debug, PartialEq, Eq, Hash, Structural)]
pub enum CelestialBodyId {
    Sun,
    Mercury,
    Venus,
    Earth,
    Mars,
    Jupiter,
    Saturn,
    Uranus,
    Neptune,
    // Moons
    Moon,
    Io,
    Europa,
    Ganymede,
    Callisto,
    Titan,
}

/// The body a moon orbits; `None` for the Sun and the planets.
pub open spec fn spec_parent(id: CelestialBodyId) -> Option<CelestialBodyId> {
    match id {
        CelestialBodyId::Moon => Some(CelestialBodyId::Earth),
        CelestialBodyId::Io | CelestialBodyId::Europa | CelestialBodyId::Ganymede
        | CelestialBodyId::Callisto => Some(CelestialBodyId::Jupiter),
        CelestialBodyId::Titan => Some(CelestialBodyId::Saturn),
        _ => None,
    }
}

/// The eight planets, in order of distance from the Sun.
pub open spec fn is_planet(id: CelestialBodyId) -> bool {
    match id {
        CelestialBodyId::Mercury | CelestialBodyId::Venus | CelestialBodyId::Earth
        | CelestialBodyId::Mars | CelestialBodyId::Jupiter | CelestialBodyId::Saturn
        | CelestialBodyId::Uranus | CelestialBodyId::Neptune => true,
        _ => false,
    }
}

/// Position of a body in the order the enum declares them, `0 .. 15`.
pub open spec fn body_slot(id: CelestialBodyId) -> int {
    match id {
        CelestialBodyId::Sun => 0,
        CelestialBodyId::Mercury => 1,
        CelestialBodyId::Venus => 2,
        CelestialBodyId::Earth => 3,
        CelestialBodyId::Mars => 4,
        CelestialBodyId::Jupiter => 5,
        CelestialBodyId::Saturn => 6,
        CelestialBodyId::Uranus => 7,
        CelestialBodyId::Neptune => 8,
        CelestialBodyId::Moon => 9,
        CelestialBodyId::Io => 10,
        CelestialBodyId::Europa => 11,
        CelestialBodyId::Ganymede => 12,
        CelestialBodyId::Callisto => 13,
        CelestialBodyId::Titan => 14,
    }
}

/// Number of bodies in the model.
pub const BODY_COUNT: usize = 15;

/// Position of a body in the order the enum declares them, as an index.
pub(crate) fn slot(id: CelestialBodyId) -> (r: usize)
    ensures
        r == body_slot(id),
        r < BODY_COUNT,
{
    match id {
        CelestialBodyId::Sun => 0,
        CelestialBodyId::Mercury => 1,
        CelestialBodyId::Venus => 2,
        CelestialBodyId::Earth => 3,
        CelestialBodyId::Mars => 4,
        CelestialBodyId::Jupiter => 5,
        CelestialBodyId::Saturn => 6,
        CelestialBodyId::Uranus => 7,
        CelestialBodyId::Neptune => 8,
        CelestialBodyId::Moon => 9,
        CelestialBodyId::Io => 10,
        CelestialBodyId::Europa => 11,
        CelestialBodyId::Ganymede => 12,
        CelestialBodyId::Callisto => 13,
        CelestialBodyId::Titan => 14,
    }
}

/// The six moons of the model.
pub open spec fn is_moon(id: CelestialBodyId) -> bool {
    match id {
        CelestialBodyId::Moon | CelestialBodyId::Io | CelestialBodyId::Europa
        | CelestialBodyId::Ganymede | CelestialBodyId::Callisto | CelestialBodyId::Titan => true,
        _ => false,
    }
}

/// The human-readable name of a body.
pub open spec fn spec_name(id: CelestialBodyId) -> Seq<char> {
    match id {
        CelestialBodyId::Sun => "Sun"@,
        CelestialBodyId::Mercury => "Mercury"@,
        CelestialBodyId::Venus => "Venus"@,
        CelestialBodyId::Earth => "Earth"@,
        CelestialBodyId::Mars => "Mars"@,
        CelestialBodyId::Jupiter => "Jupiter"@,
        CelestialBodyId::Saturn => "Saturn"@,
        CelestialBodyId::Uranus => "Uranus"@,
        CelestialBodyId::Neptune => "Neptune"@,
        CelestialBodyId::Moon => "Moon"@,
        CelestialBodyId::Io => "Io"@,
        CelestialBodyId::Europa => "Europa"@,
        CelestialBodyId::Ganymede => "Ganymede"@,
        CelestialBodyId::Callisto => "Callisto"@,
        CelestialBodyId::Titan => "Titan"@,
    }
}

impl CelestialBodyId {
    /// All planets (not including Sun or moons), ordered outward from the Sun.
    pub const PLANETS: [CelestialBodyId; 8] = [
        CelestialBodyId::Mercury,
        CelestialBodyId::Venus,
        CelestialBodyId::Earth,
        CelestialBodyId::Mars,
        CelestialBodyId::Jupiter,
        CelestialBodyId::Saturn,
        CelestialBodyId::Uranus,
        CelestialBodyId::Neptune,
    ];

    /// All moons.
    pub const MOONS: [CelestialBodyId; 6] = [
        CelestialBodyId::Moon,
        CelestialBodyId::Io,
        CelestialBodyId::Europa,
        CelestialBodyId::Ganymede,
        CelestialBodyId::Callisto,
        CelestialBodyId::Titan,
    ];

    /// Get the parent body (for moons)
    pub fn parent(&self) -> (r: Option<CelestialBodyId>)
        ensures
            r == spec_parent(*self),
            *self == CelestialBodyId::Moon ==> r == Some(CelestialBodyId::Earth),
            *self == CelestialBodyId::Io || *self == CelestialBodyId::Europa || *self
                == CelestialBodyId::Ganymede || *self == CelestialBodyId::Callisto ==> r == Some(
                CelestialBodyId::Jupiter,
            ),
            *self == CelestialBodyId::Titan ==> r == Some(CelestialBodyId::Saturn),
            !is_moon(*self) ==> r is None,
    {
        match self {
            CelestialBodyId::Moon => Some(CelestialBodyId::Earth),
            CelestialBodyId::Io
            | CelestialBodyId::Europa
            | CelestialBodyId::Ganymede
            | CelestialBodyId::Callisto => Some(CelestialBodyId::Jupiter),
            CelestialBodyId::Titan => Some(CelestialBodyId::Saturn),
            _ => None,
        }
    }

    /// Human-readable name
    pub fn name(&self) -> (r: &'static str)
        ensures
            r@ == spec_name(*self),
    {
        match self {
            CelestialBodyId::Sun => "Sun",
            CelestialBodyId::Mercury => "Mercury",
            CelestialBodyId::Venus => "Venus",
            CelestialBodyId::Earth => "Earth",
            CelestialBodyId::Mars => "Mars",
            CelestialBodyId::Jupiter => "Jupiter",
            CelestialBodyId::Saturn => "Saturn",
            CelestialBodyId::Uranus => "Uranus",
            CelestialBodyId::Neptune => "Neptune",
            CelestialBodyId::Moon => "Moon",
            CelestialBodyId::Io => "Io",
            CelestialBodyId::Europa => "Europa",
            CelestialBodyId::Ganymede => "Ganymede",
            CelestialBodyId::Callisto => "Callisto",
            CelestialBodyId::Titan => "Titan",
        }
    }
}

/// Only moons have a parent, and the parent of a moon is always a planet:
/// the hierarchy of bodies is at most one level deep.
pub proof fn lemma_parent_hierarchy(id: CelestialBodyId)
    ensures
        spec_parent(id) is Some <==> is_moon(id),
        spec_parent(id) matches Some(p) ==> is_planet(p) && spec_parent(p) is None,
{
}

/// No two bodies share a name.
pub proof fn lemma_names_distinct(a: CelestialBodyId, b: CelestialBodyId)
    ensures
        a != b ==> spec_name(a) != spec_name(b),
{
    reveal_strlit("Sun");
    reveal_strlit("Mercury");
    reveal_strlit("Venus");
    reveal_strlit("Earth");
    reveal_strlit("Mars");
    reveal_strlit("Jupiter");
    reveal_strlit("Saturn");
    reveal_strlit("Uranus");
    reveal_strlit("Neptune");
    reveal_strlit("Moon");
    reveal_strlit("Io");
    reveal_strlit("Europa");
    reveal_strlit("Ganymede");
    reveal_strlit("Callisto");
    reveal_strlit("Titan");
    if a != b && spec_name(a) == spec_name(b) {
        assert(spec_name(a)[0] == spec_name(b)[0]);
        assert(spec_name(a)[1] == spec_name(b)[1]);
    }
}

/// The catalogue of parents: the Moon orbits the Earth; Io, Europa, Ganymede
/// and Callisto orbit Jupiter; Titan orbits Saturn; the Sun and the planets
/// orbit no parent body.
pub proof fn lemma_parent_catalogue(id: CelestialBodyId)
    ensures
        spec_parent(CelestialBodyId::Moon) == Some(CelestialBodyId::Earth),
        spec_parent(CelestialBodyId::Io) == Some(CelestialBodyId::Jupiter),
        spec_parent(CelestialBodyId::Europa) == Some(CelestialBodyId::Jupiter),
        spec_parent(CelestialBodyId::Ganymede) == Some(CelestialBodyId::Jupiter),
        spec_parent(CelestialBodyId::Callisto) == Some(CelestialBodyId::Jupiter),
        spec_parent(CelestialBodyId::Titan) == Some(CelestialBodyId::Saturn),
        id == CelestialBodyId::Sun || is_planet(id) ==> spec_parent(id) is None,
{
}

} // verus!
