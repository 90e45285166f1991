use wkb_reader::error::GeoError;
use wkb_reader::header::read_ewkb_header;
use wkb_reader::processor::EventCollector;
use wkb_reader::types::{CoordDimensions, Event, WKBGeometryType};
use wkb_reader::walker::process_ewkb_geom;

fn hex(s: &str) -> Vec<u8> {
    let digits: Vec<u8> = s
        .bytes()
        .map(|b| match b {
            b'0'..=b'9' => b - b'0',
            b'a'..=b'f' => b - b'a' + 10,
            b'A'..=b'F' => b - b'A' + 10,
            _ => panic!("not a hex digit"),
        })
        .collect();
    digits.chunks(2).map(|p| (p[0] << 4) | p[1]).collect()
}

fn decode_ewkb(data: &[u8], z: bool, m: bool) -> Vec<Event> {
    let bytes: Vec<u8> = data.to_vec();
    let mut pos: usize = 0;
    let mut collector = EventCollector::new(CoordDimensions { z, m });
    process_ewkb_geom(&bytes, &mut pos, &mut collector).unwrap();
    collector.collected
}

fn xy(x: f64, y: f64, idx: usize) -> Event {
    Event::Xy { x: x.to_bits(), y: y.to_bits(), idx }
}

fn coord(x: f64, y: f64, z: Option<f64>, m: Option<f64>, idx: usize) -> Event {
    Event::Coordinate {
        x: x.to_bits(),
        y: y.to_bits(),
        z: z.map(|v| v.to_bits()),
        m: m.map(|v| v.to_bits()),
        t: None,
        tm: None,
        idx,
    }
}

#[test]
fn ewkb_geometries() {
    // SELECT 'POINT(10 -20 100 1)'::geometry
    let ewkb = hex("01010000C0000000000000244000000000000034C00000000000005940000000000000F03F");
    let mut pos: usize = 0;
    let info = read_ewkb_header(&ewkb, &mut pos).unwrap();
    assert_eq!(info.srid, None);
    assert!(info.has_z);
    assert!(info.has_m);

    // Process xy only
    let events = decode_ewkb(&ewkb, false, false);
    assert_eq!(
        events,
        vec![Event::PointBegin { idx: 0 }, xy(10.0, -20.0, 0), Event::PointEnd { idx: 0 }]
    );

    // Process all dimensions
    let events = decode_ewkb(&ewkb, true, true);
    assert_eq!(
        events,
        vec![
            Event::PointBegin { idx: 0 },
            coord(10.0, -20.0, Some(100.0), Some(1.0), 0),
            Event::PointEnd { idx: 0 },
        ]
    );

    // SELECT 'SRID=4326;MULTIPOINT ((10 -20 100), (0 -0.5 101))'::geometry
    let ewkb = hex("01040000A0E6100000020000000101000080000000000000244000000000000034C0000000000000594001010000800000000000000000000000000000E0BF0000000000405940");
    let mut pos: usize = 0;
    let info = read_ewkb_header(&ewkb, &mut pos).unwrap();
    assert_eq!(info.kind, WKBGeometryType::MultiPoint);
    assert_eq!(info.srid, Some(4326));
    assert!(info.has_z);

    let events = decode_ewkb(&ewkb, true, false);
    assert_eq!(
        events,
        vec![
            Event::MultiPointBegin { n: 2, idx: 0 },
            coord(10.0, -20.0, Some(100.0), None, 0),
            coord(0.0, -0.5, Some(101.0), None, 1),
            Event::MultiPointEnd { idx: 0 },
        ]
    );

    // SELECT 'SRID=4326;LINESTRING (10 -20 100, 0 -0.5 101)'::geometry
    let ewkb = hex("01020000A0E610000002000000000000000000244000000000000034C000000000000059400000000000000000000000000000E0BF0000000000405940");
    let events = decode_ewkb(&ewkb, true, false);
    assert_eq!(
        events,
        vec![
            Event::LineStringBegin { tagged: true, n: 2, idx: 0 },
            coord(10.0, -20.0, Some(100.0), None, 0),
            coord(0.0, -0.5, Some(101.0), None, 1),
            Event::LineStringEnd { tagged: true, idx: 0 },
        ]
    );

    // SELECT 'SRID=4326;MULTILINESTRING ((10 -20, 0 -0.5), (0 0, 2 0))'::geometry
    let ewkb = hex("0105000020E610000002000000010200000002000000000000000000244000000000000034C00000000000000000000000000000E0BF0102000000020000000000000000000000000000000000000000000000000000400000000000000000");
    let events = decode_ewkb(&ewkb, true, false);
    assert_eq!(
        events,
        vec![
            Event::MultiLineStringBegin { n: 2, idx: 0 },
            Event::LineStringBegin { tagged: false, n: 2, idx: 0 },
            coord(10.0, -20.0, None, None, 0),
            coord(0.0, -0.5, None, None, 1),
            Event::LineStringEnd { tagged: false, idx: 0 },
            Event::LineStringBegin { tagged: false, n: 2, idx: 1 },
            coord(0.0, 0.0, None, None, 0),
            coord(2.0, 0.0, None, None, 1),
            Event::LineStringEnd { tagged: false, idx: 1 },
            Event::MultiLineStringEnd { idx: 0 },
        ]
    );

    // SELECT 'SRID=4326;POLYGON ((0 0, 2 0, 2 2, 0 2, 0 0))'::geometry
    let ewkb = hex("0103000020E610000001000000050000000000000000000000000000000000000000000000000000400000000000000000000000000000004000000000000000400000000000000000000000000000004000000000000000000000000000000000");
    let events = decode_ewkb(&ewkb, false, false);
    assert_eq!(
        events,
        vec![
            Event::PolygonBegin { tagged: true, n: 1, idx: 0 },
            Event::LineStringBegin { tagged: false, n: 5, idx: 0 },
            xy(0.0, 0.0, 0),
            xy(2.0, 0.0, 1),
            xy(2.0, 2.0, 2),
            xy(0.0, 2.0, 3),
            xy(0.0, 0.0, 4),
            Event::LineStringEnd { tagged: false, idx: 0 },
            Event::PolygonEnd { tagged: true, idx: 0 },
        ]
    );

    // SELECT 'SRID=4326;MULTIPOLYGON (((0 0, 2 0, 2 2, 0 2, 0 0)), ((10 10, -2 10, -2 -2, 10 -2, 10 10)))'::geometry
    let ewkb = hex("0106000020E610000002000000010300000001000000050000000000000000000000000000000000000000000000000000400000000000000000000000000000004000000000000000400000000000000000000000000000004000000000000000000000000000000000010300000001000000050000000000000000002440000000000000244000000000000000C0000000000000244000000000000000C000000000000000C0000000000000244000000000000000C000000000000024400000000000002440");
    let events = decode_ewkb(&ewkb, false, false);
    assert_eq!(
        events,
        vec![
            Event::MultiPolygonBegin { n: 2, idx: 0 },
            Event::PolygonBegin { tagged: false, n: 1, idx: 0 },
            Event::LineStringBegin { tagged: false, n: 5, idx: 0 },
            xy(0.0, 0.0, 0),
            xy(2.0, 0.0, 1),
            xy(2.0, 2.0, 2),
            xy(0.0, 2.0, 3),
            xy(0.0, 0.0, 4),
            Event::LineStringEnd { tagged: false, idx: 0 },
            Event::PolygonEnd { tagged: false, idx: 0 },
            Event::PolygonBegin { tagged: false, n: 1, idx: 1 },
            Event::LineStringBegin { tagged: false, n: 5, idx: 0 },
            xy(10.0, 10.0, 0),
            xy(-2.0, 10.0, 1),
            xy(-2.0, -2.0, 2),
            xy(10.0, -2.0, 3),
            xy(10.0, 10.0, 4),
            Event::LineStringEnd { tagged: false, idx: 0 },
            Event::PolygonEnd { tagged: false, idx: 1 },
            Event::MultiPolygonEnd { idx: 0 },
        ]
    );

    // SELECT 'GeometryCollection(POINT (10 10),POINT (30 30),LINESTRING (15 15, 20 20))'::geometry
    let ewkb = hex("01070000000300000001010000000000000000002440000000000000244001010000000000000000003E400000000000003E400102000000020000000000000000002E400000000000002E4000000000000034400000000000003440");
    let events = decode_ewkb(&ewkb, false, false);
    assert_eq!(
        events,
        vec![
            Event::GeometryCollectionBegin { n: 3, idx: 0 },
            Event::PointBegin { idx: 0 },
            xy(10.0, 10.0, 0),
            Event::PointEnd { idx: 0 },
            Event::PointBegin { idx: 1 },
            xy(30.0, 30.0, 0),
            Event::PointEnd { idx: 1 },
            Event::LineStringBegin { tagged: true, n: 2, idx: 2 },
            xy(15.0, 15.0, 0),
            xy(20.0, 20.0, 1),
            Event::LineStringEnd { tagged: true, idx: 2 },
            Event::GeometryCollectionEnd { idx: 0 },
        ]
    );
}

#[test]
fn scroll_error() {
    let empty: Vec<u8> = Vec::new();
    let mut pos: usize = 0;
    let err = read_ewkb_header(&empty, &mut pos).unwrap_err();
    assert_eq!(err.message(), "I/O error");
}

#[test]
fn ewkb_unsupported_kind_is_format_error() {
    // A little-endian EWKB header declaring a Triangle (code 17), which
    // classification accepts but dispatch rejects.
    let ewkb = hex("0111000000");
    let bytes = ewkb.clone();
    let mut pos: usize = 0;
    let mut collector = EventCollector::new(CoordDimensions { z: false, m: false });
    let err = process_ewkb_geom(&bytes, &mut pos, &mut collector).unwrap_err();
    assert_eq!(err, GeoError::GeometryFormat);
    assert_eq!(err.message(), "geometry format error");
}

#[test]
fn ewkb_truncated_coordinate_is_io_error() {
    // A point header followed by only one of its two doubles.
    let ewkb = hex("01010000000000000000002440");
    let mut pos: usize = 0;
    let mut collector = EventCollector::new(CoordDimensions { z: false, m: false });
    let err = process_ewkb_geom(&ewkb, &mut pos, &mut collector).unwrap_err();
    assert_eq!(err, GeoError::Io);
}

#[test]
fn ewkb_collection_nested_too_deep() {
    // 65 nested single-element GeometryCollections exhaust the depth
    // budget of 64.
    let mut data: Vec<u8> = Vec::new();
    for _ in 0..65 {
        data.extend_from_slice(&hex("010700000001000000"));
    }
    let mut pos: usize = 0;
    let mut collector = EventCollector::new(CoordDimensions { z: false, m: false });
    let err = process_ewkb_geom(&data, &mut pos, &mut collector).unwrap_err();
    assert_eq!(err, GeoError::NestingTooDeep);
    assert_eq!(err.message(), "geometry nesting too deep");
}

#[test]
fn ewkb_collection_nested_to_the_limit_decodes() {
    // 64 nested collections, the innermost empty, stay within the budget.
    let mut data: Vec<u8> = Vec::new();
    for _ in 0..64 {
        data.extend_from_slice(&hex("010700000001000000"));
    }
    data.extend_from_slice(&hex("010700000000000000"));
    let mut pos: usize = 0;
    let mut collector = EventCollector::new(CoordDimensions { z: false, m: false });
    process_ewkb_geom(&data, &mut pos, &mut collector).unwrap();
    assert_eq!(pos, data.len());
    assert_eq!(collector.collected.len(), 130);
}
