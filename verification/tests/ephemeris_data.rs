use deorbiting::ephemeris::data::CelestialBodyId;
use deorbiting::ephemeris::horizons_tables::stable_body_id;

#[test]
fn test_moon_parents() {
    assert_eq!(CelestialBodyId::Moon.parent(), Some(CelestialBodyId::Earth));
    assert_eq!(CelestialBodyId::Io.parent(), Some(CelestialBodyId::Jupiter));
    assert_eq!(
        CelestialBodyId::Titan.parent(),
        Some(CelestialBodyId::Saturn)
    );
    assert_eq!(CelestialBodyId::Earth.parent(), None);
}

#[test]
fn test_only_moons_have_parents_and_parents_are_planets() {
    for id in CelestialBodyId::MOONS {
        let p = id.parent().expect("moons have a parent");
        assert!(CelestialBodyId::PLANETS.contains(&p));
        assert_eq!(p.parent(), None);
    }
    for id in CelestialBodyId::PLANETS {
        assert_eq!(id.parent(), None);
    }
    assert_eq!(CelestialBodyId::Sun.parent(), None);
}

#[test]
fn test_body_names() {
    assert_eq!(CelestialBodyId::Sun.name(), "Sun");
    assert_eq!(CelestialBodyId::Mercury.name(), "Mercury");
    assert_eq!(CelestialBodyId::Earth.name(), "Earth");
    assert_eq!(CelestialBodyId::Ganymede.name(), "Ganymede");
    assert_eq!(CelestialBodyId::Titan.name(), "Titan");
}

const ALL_BODIES: [CelestialBodyId; 15] = [
    CelestialBodyId::Sun,
    CelestialBodyId::Mercury,
    CelestialBodyId::Venus,
    CelestialBodyId::Earth,
    CelestialBodyId::Mars,
    CelestialBodyId::Jupiter,
    CelestialBodyId::Saturn,
    CelestialBodyId::Uranus,
    CelestialBodyId::Neptune,
    CelestialBodyId::Moon,
    CelestialBodyId::Io,
    CelestialBodyId::Europa,
    CelestialBodyId::Ganymede,
    CelestialBodyId::Callisto,
    CelestialBodyId::Titan,
];

#[test]
fn test_body_names_are_distinct() {
    for (i, a) in ALL_BODIES.iter().enumerate() {
        for b in &ALL_BODIES[i + 1..] {
            assert_ne!(a.name(), b.name());
        }
    }
}

#[test]
fn test_stable_body_ids_are_distinct_and_planets_only() {
    let mut seen = Vec::new();
    for id in ALL_BODIES {
        match stable_body_id(id) {
            Some(n) => {
                assert!(CelestialBodyId::PLANETS.contains(&id));
                assert!((1..=8).contains(&n));
                assert!(!seen.contains(&n));
                seen.push(n);
            }
            None => assert!(!CelestialBodyId::PLANETS.contains(&id)),
        }
    }
    assert_eq!(seen, vec![1, 2, 3, 4, 5, 6, 7, 8]);
}
