use deorbiting::ephemeris::data::CelestialBodyId;
use deorbiting::ephemeris::horizons_tables::{stable_body_id, HorizonsTables};
use deorbiting::ephemeris::table::{Cursor, EphemerisTable, EphemerisTableError, State2};
use deorbiting::ephemeris::Ephemeris;

/// Build the bytes of a table file.
fn table_bytes(
    magic: &[u8; 8],
    version: u32,
    body_id: u32,
    step: f64,
    start: f64,
    count: u32,
    samples: &[[f64; 4]],
) -> Vec<u8> {
    let mut b = Vec::new();
    b.extend_from_slice(magic);
    b.extend_from_slice(&version.to_le_bytes());
    b.extend_from_slice(&body_id.to_le_bytes());
    b.extend_from_slice(&step.to_le_bytes());
    b.extend_from_slice(&start.to_le_bytes());
    b.extend_from_slice(&count.to_le_bytes());
    b.extend_from_slice(&0u32.to_le_bytes());
    for s in samples {
        for v in s {
            b.extend_from_slice(&v.to_le_bytes());
        }
    }
    b
}

const MAGIC: &[u8; 8] = b"DEOEPH1\0";

#[test]
fn test_cursor_reads_little_endian() {
    let bytes = [1u8, 2, 3, 4, 0, 0, 0, 0, 0, 0, 0xF0, 0x3F, 9];
    let mut c = Cursor::new(&bytes);
    assert_eq!(c.read_u32_le(), 0x0403_0201);
    assert_eq!(c.offset, 4);
    assert_eq!(f64::from_bits(c.read_f64_le()), 1.0);
    let mut last = [0u8; 1];
    c.read_exact(&mut last);
    assert_eq!(last, [9]);
    assert_eq!(c.offset, bytes.len());
}

#[test]
fn test_from_bytes_reads_valid_table() {
    let samples = [[1.5e11, -2.0, 3.0e4, 4.0], [1.6e11, 5.0, -6.0, 7.25]];
    let bytes = table_bytes(MAGIC, 1, 3, 3600.0, 86400.0, 2, &samples);
    assert!(EphemerisTable::is_complete(&bytes));
    let t = EphemerisTable::from_bytes(&bytes).expect("valid table");
    assert_eq!(t.body_id, 3);
    assert_eq!(f64::from_bits(t.step_seconds), 3600.0);
    assert_eq!(f64::from_bits(t.start_t0), 86400.0);
    assert_eq!(t.samples.len(), 2);
    assert_eq!(
        t.samples[1],
        State2 {
            pos_x: 1.6e11f64.to_bits(),
            pos_y: 5.0f64.to_bits(),
            vel_x: (-6.0f64).to_bits(),
            vel_y: 7.25f64.to_bits(),
        }
    );
    assert_eq!(f64::from_bits(t.samples[0].pos_x), 1.5e11);
}

#[test]
fn test_from_bytes_rejects_bad_magic() {
    let bytes = table_bytes(b"DEOEPH2\0", 1, 3, 3600.0, 0.0, 1, &[[0.0; 4]]);
    assert_eq!(EphemerisTable::from_bytes(&bytes).unwrap_err(), EphemerisTableError::BadMagic);
    // a wrong magic needs no more than the magic itself
    assert!(EphemerisTable::is_complete(b"XXXXXXXX"));
    assert_eq!(EphemerisTable::from_bytes(b"XXXXXXXX").unwrap_err(), EphemerisTableError::BadMagic);
}

#[test]
fn test_from_bytes_rejects_unsupported_version() {
    let bytes = table_bytes(MAGIC, 2, 3, 3600.0, 0.0, 1, &[[0.0; 4]]);
    assert_eq!(
        EphemerisTable::from_bytes(&bytes).unwrap_err(),
        EphemerisTableError::UnsupportedVersion(2)
    );
}

#[test]
fn test_from_bytes_rejects_invalid_steps() {
    for step in [0.0, -0.0, -3600.0, f64::INFINITY, f64::NEG_INFINITY, f64::NAN] {
        let bytes = table_bytes(MAGIC, 1, 3, step, 0.0, 1, &[[0.0; 4]]);
        assert_eq!(
            EphemerisTable::from_bytes(&bytes).unwrap_err(),
            EphemerisTableError::InvalidStepSize(step.to_bits()),
            "step {step} must be refused"
        );
    }
    // the smallest positive and the largest finite steps are accepted
    for step in [f64::from_bits(1), f64::MAX] {
        let bytes = table_bytes(MAGIC, 1, 3, step, 0.0, 1, &[[0.0; 4]]);
        assert!(EphemerisTable::from_bytes(&bytes).is_ok());
    }
}

#[test]
fn test_from_bytes_rejects_empty_table() {
    let bytes = table_bytes(MAGIC, 1, 3, 3600.0, 0.0, 0, &[]);
    assert_eq!(bytes.len(), 40);
    assert_eq!(EphemerisTable::from_bytes(&bytes).unwrap_err(), EphemerisTableError::Empty);
}

#[test]
fn test_is_complete_detects_truncation() {
    let samples = [[1.0, 2.0, 3.0, 4.0], [5.0, 6.0, 7.0, 8.0]];
    let bytes = table_bytes(MAGIC, 1, 3, 3600.0, 0.0, 2, &samples);
    assert!(EphemerisTable::is_complete(&bytes));
    assert!(!EphemerisTable::is_complete(&bytes[..bytes.len() - 1]));
    assert!(!EphemerisTable::is_complete(&bytes[..39]));
    assert!(!EphemerisTable::is_complete(&bytes[..11]));
    assert!(!EphemerisTable::is_complete(&bytes[..7]));
    // a header that is refused needs no samples behind it
    let empty = table_bytes(MAGIC, 1, 3, 3600.0, 0.0, 0, &[]);
    assert!(EphemerisTable::is_complete(&empty));
    let bad_version = table_bytes(MAGIC, 7, 3, 3600.0, 0.0, 1, &[]);
    assert!(EphemerisTable::is_complete(&bad_version[..12]));
}

#[test]
fn test_stable_body_ids() {
    assert_eq!(stable_body_id(CelestialBodyId::Mercury), Some(1));
    assert_eq!(stable_body_id(CelestialBodyId::Earth), Some(3));
    assert_eq!(stable_body_id(CelestialBodyId::Neptune), Some(8));
    assert_eq!(stable_body_id(CelestialBodyId::Sun), None);
    assert_eq!(stable_body_id(CelestialBodyId::Moon), None);
    assert_eq!(stable_body_id(CelestialBodyId::Titan), None);
}

#[test]
fn test_horizons_load_table_checks_body_id() {
    let mut tables = HorizonsTables::new();
    assert!(!tables.has(CelestialBodyId::Earth));

    let earth = table_bytes(MAGIC, 1, 3, 3600.0, 0.0, 1, &[[1.0, 2.0, 3.0, 4.0]]);
    assert_eq!(tables.load_table(CelestialBodyId::Earth, &earth), Ok(()));
    assert!(tables.has(CelestialBodyId::Earth));
    assert_eq!(tables.table(CelestialBodyId::Earth).unwrap().body_id, 3);

    // Earth's table offered as Mars's is refused and nothing changes
    assert_eq!(
        tables.load_table(CelestialBodyId::Mars, &earth),
        Err(EphemerisTableError::BodyIdMismatch { expected: 4, got: 3 })
    );
    assert!(!tables.has(CelestialBodyId::Mars));
    assert!(tables.table(CelestialBodyId::Mars).is_none());

    // a body without a stable id accepts any table
    assert_eq!(tables.load_table(CelestialBodyId::Moon, &earth), Ok(()));
    assert!(tables.has(CelestialBodyId::Moon));

    // invalid bytes are refused
    let empty = table_bytes(MAGIC, 1, 4, 3600.0, 0.0, 0, &[]);
    assert_eq!(tables.load_table(CelestialBodyId::Mars, &empty), Err(EphemerisTableError::Empty));
}

#[test]
fn test_horizons_load_embedded_stops_at_first_error() {
    let mercury = table_bytes(MAGIC, 1, 1, 3600.0, 0.0, 1, &[[0.0; 4]]);
    let venus = table_bytes(MAGIC, 1, 2, 3600.0, 0.0, 1, &[[0.0; 4]]);
    let wrong = table_bytes(MAGIC, 1, 9, 3600.0, 0.0, 1, &[[0.0; 4]]);

    let ok = HorizonsTables::load_embedded(&[
        (CelestialBodyId::Mercury, &mercury[..]),
        (CelestialBodyId::Venus, &venus[..]),
    ])
    .expect("both tables are valid");
    assert!(ok.has(CelestialBodyId::Mercury));
    assert!(ok.has(CelestialBodyId::Venus));
    assert!(!ok.has(CelestialBodyId::Earth));

    let err = HorizonsTables::load_embedded(&[
        (CelestialBodyId::Mercury, &mercury[..]),
        (CelestialBodyId::Earth, &wrong[..]),
        (CelestialBodyId::Venus, &[0u8; 8][..]),
    ]);
    assert_eq!(
        err.err(),
        Some(EphemerisTableError::BodyIdMismatch { expected: 3, got: 9 })
    );
}

#[test]
fn test_entity_registration() {
    let mut eph = Ephemeris::new();

    // Fake entity identifier (in real usage these come from the scene)
    let fake_entity = 42u64;

    eph.register(fake_entity, CelestialBodyId::Earth);

    assert_eq!(eph.get_id(fake_entity), Some(CelestialBodyId::Earth));
    assert_eq!(eph.get_entity(CelestialBodyId::Earth), Some(fake_entity));
}

#[test]
fn test_entity_registration_lists_all_pairs() {
    let mut eph = Ephemeris::new();
    assert!(eph.all_registered().is_empty());
    assert_eq!(eph.get_entity(CelestialBodyId::Sun), None);
    eph.register(1, CelestialBodyId::Sun);
    eph.register(2, CelestialBodyId::Mars);
    eph.register(1, CelestialBodyId::Venus);
    let mut all = eph.all_registered();
    all.sort_by_key(|p| p.0);
    assert_eq!(all, vec![(1, CelestialBodyId::Venus), (2, CelestialBodyId::Mars)]);
    // the Sun keeps the entity it was last registered with
    assert_eq!(eph.get_entity(CelestialBodyId::Sun), Some(1));
    assert_eq!(eph.get_entity(CelestialBodyId::Venus), Some(1));
    assert_eq!(eph.get_id(3), None);
}
