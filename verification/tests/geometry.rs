use copernicus_explorer::error::CopernicusError;
use copernicus_explorer::geometry::{BoundingBox, Geometry, Point, Polygon};
use copernicus_explorer::json::{JsonMember, JsonValue};

/// Coordinate text as `f64`'s `Display` writes it.
fn num(x: f64) -> String {
    x.to_string()
}

fn pairs(coords: &[(f64, f64)]) -> Vec<(String, String)> {
    coords.iter().map(|(a, b)| (num(*a), num(*b))).collect()
}

fn obj(members: Vec<(&str, JsonValue)>) -> JsonValue {
    JsonValue::Object(
        members
            .into_iter()
            .map(|(k, v)| JsonMember { key: k.to_string(), value: v })
            .collect(),
    )
}

fn s(x: &str) -> JsonValue {
    JsonValue::Str(x.to_string())
}

fn n(x: f64) -> JsonValue {
    JsonValue::Number(num(x))
}

fn position(lon: f64, lat: f64) -> JsonValue {
    JsonValue::Array(vec![n(lon), n(lat)])
}

fn square_ring() -> JsonValue {
    JsonValue::Array(vec![JsonValue::Array(vec![
        position(1.0, 43.0),
        position(2.0, 43.0),
        position(2.0, 44.0),
        position(1.0, 44.0),
        position(1.0, 43.0),
    ])])
}

/// The coordinate pairs of a WKT polygon's ring.
fn ring_of(wkt: &str) -> Vec<String> {
    let inner = &wkt["POLYGON((".len()..wkt.len() - "))".len()];
    inner.split(',').map(|c| c.to_string()).collect()
}

#[test]
fn point_wkt() {
    let p = Geometry::Point(Point::new(num(43.6), num(1.44)));
    assert_eq!(p.to_wkt(), "POINT(1.44 43.6)");
}

#[test]
fn geometry_point_wkt() {
    let p = Geometry::Point(Point::new(num(43.6), num(1.44)));
    assert_eq!(p.to_wkt(), "POINT(1.44 43.6)");
}

#[test]
fn bbox_wkt() {
    let bb = Geometry::BoundingBox(BoundingBox::new(
        (num(52.1), num(-114.4)),
        (num(51.9), num(-114.1)),
    ));
    let wkt = bb.to_wkt();
    assert!(wkt.starts_with("POLYGON(("));
    assert!(wkt.ends_with("))"));
    let coords = ring_of(&wkt);
    assert_eq!(coords.first(), coords.last());
}

#[test]
fn geometry_bbox_wkt() {
    let bb = Geometry::BoundingBox(BoundingBox::new(
        (num(52.1), num(-114.4)),
        (num(51.9), num(-114.1)),
    ));
    let wkt = bb.to_wkt();
    assert!(wkt.starts_with("POLYGON(("));
    assert!(wkt.ends_with("))"));
    let coords = ring_of(&wkt);
    assert_eq!(coords.first(), coords.last());
}

#[test]
fn bbox_wkt_exact() {
    let bb = Geometry::BoundingBox(BoundingBox::new(
        (num(52.1), num(-114.4)),
        (num(51.9), num(-114.1)),
    ));
    assert_eq!(
        bb.to_wkt(),
        "POLYGON((-114.4 52.1,-114.1 52.1,-114.1 51.9,-114.4 51.9,-114.4 52.1))"
    );
}

#[test]
fn polygon_wkt() {
    let poly = Polygon::new(pairs(&[(1.0, 43.0), (2.0, 43.0), (2.0, 44.0), (1.0, 44.0)])).unwrap();
    let geom = Geometry::Polygon(poly);
    let wkt = geom.to_wkt();
    assert!(wkt.starts_with("POLYGON(("));
    assert!(wkt.ends_with("))"));
    let coords = ring_of(&wkt);
    assert_eq!(coords.first(), coords.last(), "ring must be closed");
}

#[test]
fn polygon_auto_closes() {
    let poly = Polygon::new(pairs(&[(1.0, 43.0), (2.0, 43.0), (2.0, 44.0)])).unwrap();
    assert_eq!(poly.exterior.len(), 4);
    assert_eq!(poly.exterior.first(), poly.exterior.last());
}

#[test]
fn polygon_already_closed_kept() {
    let poly = Polygon::new(pairs(&[(1.0, 43.0), (2.0, 43.0), (2.0, 44.0), (1.0, 43.0)])).unwrap();
    assert_eq!(poly.exterior.len(), 4);
}

#[test]
fn polygon_too_few_points() {
    assert!(Polygon::new(pairs(&[(1.0, 43.0), (2.0, 43.0)])).is_err());
}

#[test]
fn polygon_too_few_points_message() {
    match Polygon::new(pairs(&[(1.0, 43.0)])) {
        Err(CopernicusError::InvalidArgument(m)) => {
            assert_eq!(m, "a polygon requires at least 3 coordinate pairs")
        }
        other => panic!("unexpected {other:?}"),
    }
}

#[test]
fn geojson_point() {
    let json = obj(vec![("type", s("Point")), ("coordinates", position(1.44, 43.6))]);
    let geom = Geometry::from_geojson_value(&json).unwrap();
    assert_eq!(geom.to_wkt(), "POINT(1.44 43.6)");
}

#[test]
fn geojson_polygon() {
    let json = obj(vec![("type", s("Polygon")), ("coordinates", square_ring())]);
    let geom = Geometry::from_geojson_value(&json).unwrap();
    let wkt = geom.to_wkt();
    assert!(wkt.starts_with("POLYGON(("));
    assert!(wkt.contains("1 43"));
}

#[test]
fn geojson_feature() {
    let json = obj(vec![
        ("type", s("Feature")),
        ("properties", obj(vec![])),
        (
            "geometry",
            obj(vec![("type", s("Point")), ("coordinates", position(1.44, 43.6))]),
        ),
    ]);
    let geom = Geometry::from_geojson_value(&json).unwrap();
    assert_eq!(geom.to_wkt(), "POINT(1.44 43.6)");
}

#[test]
fn geojson_feature_collection() {
    let feature = obj(vec![
        ("type", s("Feature")),
        ("properties", obj(vec![])),
        ("geometry", obj(vec![("type", s("Polygon")), ("coordinates", square_ring())])),
    ]);
    let json = obj(vec![
        ("type", s("FeatureCollection")),
        ("features", JsonValue::Array(vec![feature])),
    ]);
    let geom = Geometry::from_geojson_value(&json).unwrap();
    assert!(geom.to_wkt().starts_with("POLYGON(("));
}

#[test]
fn geojson_unsupported_type() {
    let json = obj(vec![
        ("type", s("MultiPoint")),
        ("coordinates", JsonValue::Array(vec![position(1.0, 2.0)])),
    ]);
    assert!(Geometry::from_geojson_value(&json).is_err());
}

#[test]
fn geojson_errors_name_the_problem() {
    let not_object = JsonValue::Array(vec![]);
    match Geometry::from_geojson_value(&not_object) {
        Err(CopernicusError::InvalidArgument(m)) => assert_eq!(m, "GeoJSON must be a JSON object"),
        other => panic!("unexpected {other:?}"),
    }
    let no_type = obj(vec![("coordinates", position(1.0, 2.0))]);
    match Geometry::from_geojson_value(&no_type) {
        Err(CopernicusError::InvalidArgument(m)) => {
            assert_eq!(m, "GeoJSON object has no \"type\" field")
        }
        other => panic!("unexpected {other:?}"),
    }
    let empty = obj(vec![
        ("type", s("FeatureCollection")),
        ("features", JsonValue::Array(vec![])),
    ]);
    match Geometry::from_geojson_value(&empty) {
        Err(CopernicusError::InvalidArgument(m)) => {
            assert_eq!(m, "GeoJSON FeatureCollection is empty")
        }
        other => panic!("unexpected {other:?}"),
    }
    let multi = obj(vec![("type", s("MultiPoint"))]);
    match Geometry::from_geojson_value(&multi) {
        Err(CopernicusError::InvalidArgument(m)) => assert_eq!(
            m,
            "unsupported GeoJSON type \"MultiPoint\"; expected Point, Polygon, Feature, or FeatureCollection"
        ),
        other => panic!("unexpected {other:?}"),
    }
}

#[test]
fn json_get_first_member() {
    let v = obj(vec![("a", s("x")), ("b", s("y"))]);
    match v.get("b") {
        Some(JsonValue::Str(t)) => assert_eq!(t, "y"),
        other => panic!("unexpected {other:?}"),
    }
    assert!(v.get("c").is_none());
    assert!(JsonValue::Null.get("a").is_none());
}

#[test]
fn polygon_needs_three_distinct_points() {
    assert!(Polygon::new(pairs(&[(0.0, 0.0), (1.0, 1.0), (0.0, 0.0)])).is_err());
    assert!(Polygon::new(pairs(&[(0.0, 0.0), (1.0, 1.0), (1.0, 1.0), (0.0, 0.0)])).is_err());
    let poly = Polygon::new(pairs(&[(0.0, 0.0), (1.0, 0.0), (1.0, 1.0)])).unwrap();
    assert!(poly.exterior.len() >= 4);
}

#[test]
fn polygon_negative_zero_is_zero() {
    let poly = Polygon::new(pairs(&[(0.0, 0.0), (1.0, 0.0), (1.0, 1.0), (-0.0, 0.0)])).unwrap();
    assert_eq!(poly.exterior.len(), 4);
}

#[test]
fn polygon_nan_never_closes() {
    let poly = Polygon::new(pairs(&[(f64::NAN, 0.0), (1.0, 0.0), (1.0, 1.0), (f64::NAN, 0.0)])).unwrap();
    assert_eq!(poly.exterior.len(), 5);
}
