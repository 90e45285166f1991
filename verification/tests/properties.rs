use wkb_reader::header::{read_ewkb_header, read_wkb_header};
use wkb_reader::processor::EventCollector;
use wkb_reader::types::{CoordDimensions, Event, WKBGeometryType};
use wkb_reader::walker::process_ewkb_geom;

fn xy(x: f64, y: f64, idx: usize) -> Event {
    Event::Xy { x: x.to_bits(), y: y.to_bits(), idx }
}

#[test]
fn from_u32_classifies_the_catalogue() {
    assert_eq!(WKBGeometryType::from_u32(1), WKBGeometryType::Point);
    assert_eq!(WKBGeometryType::from_u32(2), WKBGeometryType::LineString);
    assert_eq!(WKBGeometryType::from_u32(3), WKBGeometryType::Polygon);
    assert_eq!(WKBGeometryType::from_u32(4), WKBGeometryType::MultiPoint);
    assert_eq!(WKBGeometryType::from_u32(5), WKBGeometryType::MultiLineString);
    assert_eq!(WKBGeometryType::from_u32(6), WKBGeometryType::MultiPolygon);
    assert_eq!(WKBGeometryType::from_u32(7), WKBGeometryType::GeometryCollection);
    assert_eq!(WKBGeometryType::from_u32(15), WKBGeometryType::PolyhedralSurface);
    assert_eq!(WKBGeometryType::from_u32(16), WKBGeometryType::Tin);
    assert_eq!(WKBGeometryType::from_u32(17), WKBGeometryType::Triangle);
    assert_eq!(WKBGeometryType::from_u32(0), WKBGeometryType::Unknown);
    assert_eq!(WKBGeometryType::from_u32(8), WKBGeometryType::Unknown);
    assert_eq!(WKBGeometryType::from_u32(255), WKBGeometryType::Unknown);
}

#[test]
fn ogc_dimension_indicator_selects_z_and_m() {
    // The dimension indicator (code / 1000) maps 0, 1, 2, 3 to the four
    // (has_z, has_m) combinations.
    let cases: [(u32, bool, bool); 4] = [
        (1, false, false),
        (1001, true, false),
        (2001, false, true),
        (3001, true, true),
    ];
    for (code, z, m) in cases {
        let mut data: Vec<u8> = vec![0x01];
        data.extend_from_slice(&code.to_le_bytes());
        let mut pos: usize = 0;
        let info = read_wkb_header(&data, &mut pos).unwrap();
        assert_eq!(info.kind, WKBGeometryType::Point);
        assert_eq!(info.has_z, z);
        assert_eq!(info.has_m, m);
        assert_eq!(info.srid, None);
        assert_eq!(pos, 5);
    }
}

#[test]
fn ewkb_srid_round_trip() {
    // With the SRID bit: the encoded SRID comes back exactly.
    for srid in [4326i32, 0, -1, i32::MIN, i32::MAX] {
        let code: u32 = 0x20000001;
        let mut data: Vec<u8> = vec![0x01];
        data.extend_from_slice(&code.to_le_bytes());
        data.extend_from_slice(&srid.to_le_bytes());
        let mut pos: usize = 0;
        let info = read_ewkb_header(&data, &mut pos).unwrap();
        assert_eq!(info.srid, Some(srid));
        assert_eq!(pos, 9);
    }
    // Without the bit: no SRID.
    let mut data: Vec<u8> = vec![0x01];
    data.extend_from_slice(&1u32.to_le_bytes());
    let mut pos: usize = 0;
    let info = read_ewkb_header(&data, &mut pos).unwrap();
    assert_eq!(info.srid, None);
    assert_eq!(pos, 5);
}

#[test]
fn endianness_gives_identical_decodes() {
    // The same logical point encoded big-endian and little-endian.
    let (x, y) = (1.25f64, -7.5f64);
    let mut big: Vec<u8> = vec![0x00];
    big.extend_from_slice(&1u32.to_be_bytes());
    big.extend_from_slice(&x.to_be_bytes());
    big.extend_from_slice(&y.to_be_bytes());
    let mut little: Vec<u8> = vec![0x01];
    little.extend_from_slice(&1u32.to_le_bytes());
    little.extend_from_slice(&x.to_le_bytes());
    little.extend_from_slice(&y.to_le_bytes());

    let mut events_big = EventCollector::new(CoordDimensions { z: false, m: false });
    let mut pos: usize = 0;
    process_ewkb_geom(&big, &mut pos, &mut events_big).unwrap();
    let mut events_little = EventCollector::new(CoordDimensions { z: false, m: false });
    let mut pos: usize = 0;
    process_ewkb_geom(&little, &mut pos, &mut events_little).unwrap();

    assert_eq!(events_big.collected, events_little.collected);
    assert_eq!(
        events_big.collected,
        vec![Event::PointBegin { idx: 0 }, xy(1.25, -7.5, 0), Event::PointEnd { idx: 0 }]
    );
}

#[test]
fn collection_children_keep_declared_order_across_byte_orders() {
    // A collection holding a big-endian point and a little-endian polygon:
    // both children decode correctly, in declared order.
    let mut data: Vec<u8> = vec![0x01];
    data.extend_from_slice(&7u32.to_le_bytes());
    data.extend_from_slice(&2u32.to_le_bytes());
    // child 0: big-endian point (10, 30)
    data.push(0x00);
    data.extend_from_slice(&1u32.to_be_bytes());
    data.extend_from_slice(&10.0f64.to_be_bytes());
    data.extend_from_slice(&30.0f64.to_be_bytes());
    // child 1: little-endian polygon with one ring of three points
    data.push(0x01);
    data.extend_from_slice(&3u32.to_le_bytes());
    data.extend_from_slice(&1u32.to_le_bytes());
    data.extend_from_slice(&3u32.to_le_bytes());
    for (px, py) in [(0.0f64, 0.0f64), (4.0, 0.0), (0.0, 4.0)] {
        data.extend_from_slice(&px.to_le_bytes());
        data.extend_from_slice(&py.to_le_bytes());
    }

    let mut collector = EventCollector::new(CoordDimensions { z: false, m: false });
    let mut pos: usize = 0;
    process_ewkb_geom(&data, &mut pos, &mut collector).unwrap();
    assert_eq!(pos, data.len());
    assert_eq!(
        collector.collected,
        vec![
            Event::GeometryCollectionBegin { n: 2, idx: 0 },
            Event::PointBegin { idx: 0 },
            xy(10.0, 30.0, 0),
            Event::PointEnd { idx: 0 },
            Event::PolygonBegin { tagged: true, n: 1, idx: 1 },
            Event::LineStringBegin { tagged: false, n: 3, idx: 0 },
            xy(0.0, 0.0, 0),
            xy(4.0, 0.0, 1),
            xy(0.0, 4.0, 2),
            Event::LineStringEnd { tagged: false, idx: 0 },
            Event::PolygonEnd { tagged: true, idx: 1 },
            Event::GeometryCollectionEnd { idx: 0 },
        ]
    );
}

#[test]
fn collector_starts_empty() {
    let collector = EventCollector::new(CoordDimensions { z: true, m: false });
    assert_eq!(collector.collected, Vec::<Event>::new());
    assert_eq!(collector.dims, CoordDimensions { z: true, m: false });
}
