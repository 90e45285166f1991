use wkb_reader::error::GeoError;
use wkb_reader::header::read_gpkg_header;
use wkb_reader::processor::EventCollector;
use wkb_reader::types::{CoordDimensions, Event, WKBGeometryType};
use wkb_reader::walker::process_gpkg_geom;

fn hex(s: &str) -> Vec<u8> {
    let digits: Vec<u8> = s
        .bytes()
        .map(|b| match b {
            b'0'..=b'9' => b - b'0',
            b'a'..=b'f' => b - b'a' + 10,
            b'A'..=b'F' => b - b'A' + 10,
            _ => panic!("not a hex digit"),
        })
        .collect();
    digits.chunks(2).map(|p| (p[0] << 4) | p[1]).collect()
}

fn bits(v: f64) -> u64 {
    v.to_bits()
}

fn xy(x: f64, y: f64, idx: usize) -> Event {
    Event::Xy { x: x.to_bits(), y: y.to_bits(), idx }
}

fn decode_gpkg(data: &[u8]) -> Vec<Event> {
    let bytes: Vec<u8> = data.to_vec();
    let mut pos: usize = 0;
    let mut collector = EventCollector::new(CoordDimensions { z: false, m: false });
    process_gpkg_geom(&bytes, &mut pos, &mut collector).unwrap();
    collector.collected
}

#[test]
fn gpkg_geometries() {
    // pt2d
    let wkb = hex("47500003E61000009A9999999999F13F9A9999999999F13F9A9999999999F13F9A9999999999F13F01010000009A9999999999F13F9A9999999999F13F");
    let mut pos: usize = 0;
    let info = read_gpkg_header(&wkb, &mut pos).unwrap();
    assert_eq!(info.kind, WKBGeometryType::Point);
    assert!(!info.has_z);
    assert!(!info.has_m);
    assert_eq!(info.srid, Some(4326));

    let events = decode_gpkg(&wkb);
    assert_eq!(
        events,
        vec![Event::PointBegin { idx: 0 }, xy(1.1, 1.1, 0), Event::PointEnd { idx: 0 }]
    );

    // mln3dzm
    let wkb = hex("47500003E6100000000000000000244000000000000034400000000000002440000000000000344001BD0B00000100000001BA0B0000020000000000000000003440000000000000244000000000000008400000000000001440000000000000244000000000000034400000000000001C400000000000000040");
    let mut pos: usize = 0;
    let info = read_gpkg_header(&wkb, &mut pos).unwrap();
    assert_eq!(info.kind, WKBGeometryType::MultiLineString);
    assert!(info.has_z);
    assert!(info.has_m);
    assert_eq!(info.envelope, vec![bits(10.0), bits(20.0), bits(10.0), bits(20.0)]);

    let events = decode_gpkg(&wkb);
    assert_eq!(
        events,
        vec![
            Event::MultiLineStringBegin { n: 1, idx: 0 },
            Event::LineStringBegin { tagged: false, n: 2, idx: 0 },
            xy(20.0, 10.0, 0),
            xy(10.0, 20.0, 1),
            Event::LineStringEnd { tagged: false, idx: 0 },
            Event::MultiLineStringEnd { idx: 0 },
        ]
    );

    // gc2d
    let wkb = hex("47500003e6100000000000000000f03f0000000000003640000000000000084000000000000036400107000000020000000101000000000000000000f03f00000000000008400103000000010000000400000000000000000035400000000000003540000000000000364000000000000035400000000000003540000000000000364000000000000035400000000000003540");
    let mut pos: usize = 0;
    let info = read_gpkg_header(&wkb, &mut pos).unwrap();
    assert_eq!(info.kind, WKBGeometryType::GeometryCollection);
    assert_eq!(info.envelope, vec![bits(1.0), bits(22.0), bits(3.0), bits(22.0)]);

    let events = decode_gpkg(&wkb);
    assert_eq!(
        events,
        vec![
            Event::GeometryCollectionBegin { n: 2, idx: 0 },
            Event::PointBegin { idx: 0 },
            xy(1.0, 3.0, 0),
            Event::PointEnd { idx: 0 },
            Event::PolygonBegin { tagged: true, n: 1, idx: 1 },
            Event::LineStringBegin { tagged: false, n: 4, idx: 0 },
            xy(21.0, 21.0, 0),
            xy(22.0, 21.0, 1),
            xy(21.0, 22.0, 2),
            xy(21.0, 21.0, 3),
            Event::LineStringEnd { tagged: false, idx: 0 },
            Event::PolygonEnd { tagged: true, idx: 1 },
            Event::GeometryCollectionEnd { idx: 0 },
        ]
    );
}

#[test]
fn gpkg_empty_envelope_point() {
    // Magic "GP", flags selecting little-endian and envelope selector 0,
    // SRID 4326, embedding an OGC 2D point (1.1, 1.1).
    let wkb = hex("47500001E610000001010000009A9999999999F13F9A9999999999F13F");
    let mut pos: usize = 0;
    let info = read_gpkg_header(&wkb, &mut pos).unwrap();
    assert_eq!(info.envelope, Vec::<u64>::new());
    assert_eq!(info.srid, Some(4326));
    assert_eq!(info.kind, WKBGeometryType::Point);
    assert!(!info.has_z);
    assert!(!info.has_m);

    let events = decode_gpkg(&wkb);
    assert_eq!(
        events,
        vec![Event::PointBegin { idx: 0 }, xy(1.1, 1.1, 0), Event::PointEnd { idx: 0 }]
    );
}

#[test]
fn gpkg_envelope_selector_lengths() {
    // Selectors 0 to 4 yield envelopes of 0, 4, 6, 6 and 8 doubles.
    let expected: [(u8, usize); 5] = [(0, 0), (1, 4), (2, 6), (3, 6), (4, 8)];
    for (sel, len) in expected {
        let mut data: Vec<u8> = vec![0x47, 0x50, 0x00, 0x01 | (sel << 1)];
        data.extend_from_slice(&hex("E6100000"));
        for _ in 0..len {
            data.extend_from_slice(&1.5f64.to_le_bytes());
        }
        // embedded OGC 2D point
        data.extend_from_slice(&hex("01010000009A9999999999F13F9A9999999999F13F"));
        let mut pos: usize = 0;
        let info = read_gpkg_header(&data, &mut pos).unwrap();
        assert_eq!(info.envelope.len(), len);
        assert_eq!(info.envelope, vec![1.5f64.to_bits(); len]);
    }
}

#[test]
fn gpkg_envelope_selector_rejected() {
    // Selectors 5 to 7 are a geometry format error.
    for sel in 5u8..8u8 {
        let mut data: Vec<u8> = vec![0x47, 0x50, 0x00, 0x01 | (sel << 1)];
        data.extend_from_slice(&hex("E610000001010000009A9999999999F13F9A9999999999F13F"));
        let mut pos: usize = 0;
        let err = read_gpkg_header(&data, &mut pos).unwrap_err();
        assert_eq!(err, GeoError::GeometryFormat);
    }
}

#[test]
fn gpkg_truncated_after_magic_is_io_error() {
    let data = hex("4750");
    let mut pos: usize = 0;
    let err = read_gpkg_header(&data, &mut pos).unwrap_err();
    assert_eq!(err, GeoError::Io);
    assert_eq!(err.message(), "I/O error");
}

#[test]
fn gpkg_wrong_magic_is_format_error() {
    let data = hex("47510003E610000001010000009A9999999999F13F9A9999999999F13F");
    let mut pos: usize = 0;
    let err = read_gpkg_header(&data, &mut pos).unwrap_err();
    assert_eq!(err, GeoError::GeometryFormat);
    assert_eq!(err.message(), "geometry format error");
}

#[test]
fn gpkg_big_endian_stream_decodes() {
    // Flags byte 0x02: big-endian, envelope selector 1; SRID and envelope
    // big-endian; embedded big-endian OGC point.
    let mut data: Vec<u8> = vec![0x47, 0x50, 0x00, 0x02];
    data.extend_from_slice(&4326i32.to_be_bytes());
    for v in [1.0f64, 2.0, 3.0, 4.0] {
        data.extend_from_slice(&v.to_be_bytes());
    }
    data.push(0x00);
    data.extend_from_slice(&1u32.to_be_bytes());
    data.extend_from_slice(&(-5.5f64).to_be_bytes());
    data.extend_from_slice(&8.25f64.to_be_bytes());

    let mut pos: usize = 0;
    let info = read_gpkg_header(&data, &mut pos).unwrap();
    assert_eq!(info.srid, Some(4326));
    assert_eq!(info.kind, WKBGeometryType::Point);
    assert_eq!(info.envelope, vec![bits(1.0), bits(2.0), bits(3.0), bits(4.0)]);

    let events = decode_gpkg(&data);
    assert_eq!(
        events,
        vec![Event::PointBegin { idx: 0 }, xy(-5.5, 8.25, 0), Event::PointEnd { idx: 0 }]
    );
}
