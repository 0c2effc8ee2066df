//! Geometries used as spatial filters, their WKT form, and GeoJSON input.
//!
//! Coordinates are held as decimal text: the text that `f64`'s `Display`
//! writes for the coordinate. The WKT form is built from that text.

use vstd::prelude::*;
use crate::error::CopernicusError;
use crate::json::{lemma_member_index, member, member_index, JsonValue};
use crate::text::{join_spec, join_strings, push_all, str_eq, strings_view};

verus! {

/// A geographic point in latitude/longitude (EPSG:4326).
#[derive(Debug, Clone)]
pub struct Point {
    pub lat: String,
    pub lon: String,
}

impl Point {
    pub fn new(lat: String, lon: String) -> (r: Self)
        ensures
            r.lat == lat,
            r.lon == lon,
    {
        Point { lat, lon }
    }
}

/// A bounding box defined by its upper-left and lower-right corners,
/// each a `(lat, lon)` pair.
#[derive(Debug)]
pub struct BoundingBox {
    pub upper_left: (String, String),
    pub lower_right: (String, String),
}

impl Clone for BoundingBox {
    fn clone(&self) -> (r: Self)
        ensures
            r == *self,
    {
        BoundingBox {
            upper_left: (self.upper_left.0.clone(), self.upper_left.1.clone()),
            lower_right: (self.lower_right.0.clone(), self.lower_right.1.clone()),
        }
    }
}

impl BoundingBox {
    pub fn new(upper_left: (String, String), lower_right: (String, String)) -> (r: Self)
        ensures
            r.upper_left == upper_left,
            r.lower_right == lower_right,
    {
        BoundingBox { upper_left, lower_right }
    }
}

/// The plain values of a list of coordinate pairs.
pub open spec fn pairs_view(v: Seq<(String, String)>) -> Seq<(Seq<char>, Seq<char>)> {
    v.map_values(|p: (String, String)| (p.0@, p.1@))
}

/// A polygon defined by an exterior ring of `(lon, lat)` coordinates.
///
/// The ring is closed (first point == last point) and holds at least 4
/// coordinate pairs.
#[derive(Debug, Clone)]
pub struct Polygon {
    pub exterior: Vec<(String, String)>,
}

/// A coordinate text names zero (`f64`'s `Display` writes `0` and `-0`).
pub open spec fn is_zero_text(a: Seq<char>) -> bool {
    a == "0"@ || a == "-0"@
}

/// Two coordinate texts, as `f64`'s `Display` writes them, name equal
/// numbers: the same text other than `NaN` (which equals nothing), or both
/// zero.
pub open spec fn same_coordinate(a: Seq<char>, b: Seq<char>) -> bool {
    (a == b && a != "NaN"@) || (is_zero_text(a) && is_zero_text(b))
}

/// Two `(lon, lat)` pairs are the same point: both coordinates equal.
pub open spec fn same_point(p: (Seq<char>, Seq<char>), q: (Seq<char>, Seq<char>)) -> bool {
    same_coordinate(p.0, q.0) && same_coordinate(p.1, q.1)
}

/// `coords` holds at least 3 distinct points.
pub open spec fn has_three_distinct(coords: Seq<(Seq<char>, Seq<char>)>) -> bool {
    exists|i: int, j: int, k: int|
        0 <= i < j < k < coords.len() && !#[trigger] same_point(coords[i], coords[j])
            && !#[trigger] same_point(coords[i], coords[k]) && !#[trigger] same_point(
            coords[j],
            coords[k],
        )
}

/// The exterior ring `Polygon::new` makes of `coords`: closed by repeating
/// the first pair when the last is not the same point.
pub open spec fn closed_ring(coords: Seq<(Seq<char>, Seq<char>)>) -> Seq<(Seq<char>, Seq<char>)> {
    if !same_point(coords[0], coords.last()) {
        coords.push(coords[0])
    } else {
        coords
    }
}

/// Whether two coordinate texts name equal numbers.
fn same_coordinate_exec(a: &str, b: &str) -> (r: bool)
    ensures
        r == same_coordinate(a@, b@),
{
    let zero_a = str_eq(a, "0") || str_eq(a, "-0");
    let zero_b = str_eq(b, "0") || str_eq(b, "-0");
    (str_eq(a, b) && !str_eq(a, "NaN")) || (zero_a && zero_b)
}

/// Whether two pairs are the same point.
fn same_point_exec(p: &(String, String), q: &(String, String)) -> (r: bool)
    ensures
        r == same_point((p.0@, p.1@), (q.0@, q.1@)),
{
    same_coordinate_exec(p.0.as_str(), q.0.as_str()) && same_coordinate_exec(p.1.as_str(), q.1.as_str())
}

/// Being the same point is symmetric and transitive.
proof fn lemma_same_point(
    p: (Seq<char>, Seq<char>),
    q: (Seq<char>, Seq<char>),
    r: (Seq<char>, Seq<char>),
)
    ensures
        same_point(p, q) ==> same_point(q, p),
        same_point(p, q) && same_point(q, r) ==> same_point(p, r),
{
}

/// Where `coords` holds 3 distinct points, some are the first point, the
/// first point not the same as it, and a later one the same as neither.
proof fn lemma_three_distinct_greedy(coords: Seq<(Seq<char>, Seq<char>)>, j: int)
    requires
        0 < j < coords.len(),
        !same_point(coords[0], coords[j]),
        forall|m: int| 0 < m < j ==> same_point(coords[0], #[trigger] coords[m]),
        forall|m: int|
            j < m < coords.len() ==> same_point(coords[0], #[trigger] coords[m]) || same_point(
                coords[j],
                coords[m],
            ),
    ensures
        !has_three_distinct(coords),
{
    assert forall|a: int, b: int, c: int|
        0 <= a < b < c < coords.len() implies same_point(coords[a], coords[b]) || same_point(
        coords[a],
        coords[c],
    ) || same_point(coords[b], coords[c]) by {
        // Every position is the first, the same point as the first, `j`, or
        // the same point as `j`: two of any three share a side.
        lemma_same_point(coords[0], coords[a], coords[b]);
        lemma_same_point(coords[0], coords[a], coords[c]);
        lemma_same_point(coords[0], coords[b], coords[c]);
        lemma_same_point(coords[a], coords[0], coords[b]);
        lemma_same_point(coords[a], coords[0], coords[c]);
        lemma_same_point(coords[b], coords[0], coords[c]);
        lemma_same_point(coords[j], coords[a], coords[b]);
        lemma_same_point(coords[j], coords[a], coords[c]);
        lemma_same_point(coords[j], coords[b], coords[c]);
        lemma_same_point(coords[a], coords[j], coords[b]);
        lemma_same_point(coords[a], coords[j], coords[c]);
        lemma_same_point(coords[b], coords[j], coords[c]);
    }
}

/// Where no point after the first differs from it, there are no 3 distinct
/// points.
proof fn lemma_one_point(coords: Seq<(Seq<char>, Seq<char>)>)
    requires
        forall|m: int| 0 < m < coords.len() ==> same_point(coords[0], #[trigger] coords[m]),
    ensures
        !has_three_distinct(coords),
{
    assert forall|a: int, b: int, c: int|
        0 <= a < b < c < coords.len() implies same_point(coords[a], coords[b]) || same_point(
        coords[a],
        coords[c],
    ) || same_point(coords[b], coords[c]) by {
        lemma_same_point(coords[0], coords[b], coords[c]);
        lemma_same_point(coords[b], coords[0], coords[c]);
    }
}

impl Polygon {
    /// Create a polygon from an exterior ring of `(lon, lat)` pairs.
    ///
    /// The ring is automatically closed if the last point is not the same
    /// as the first.  Returns an error if fewer than 3 distinct points are
    /// provided.
    pub fn new(coords: Vec<(String, String)>) -> (r: Result<Self, CopernicusError>)
        ensures
            !has_three_distinct(pairs_view(coords@)) ==> (r matches Err(
                CopernicusError::InvalidArgument(m),
            ) && m@ == "a polygon requires at least 3 coordinate pairs"@),
            has_three_distinct(pairs_view(coords@)) ==> (r matches Ok(p) && pairs_view(p.exterior@)
                == closed_ring(pairs_view(coords@))),
    {
        let mut coords = coords;
        let ghost v = pairs_view(coords@);
        let n = coords.len();
        let mut distinct = false;
        if n >= 3 {
            let mut j: usize = 1;
            while j < n && same_point_exec(&coords[0], &coords[j])
                invariant
                    1 <= j <= n == coords@.len(),
                    v == pairs_view(coords@),
                    forall|m: int| 0 < m < j ==> same_point(v[0], #[trigger] v[m]),
                decreases n - j,
            {
                j += 1;
            }
            if j == n {
                proof {
                    lemma_one_point(v);
                }
            } else {
                let mut k: usize = j + 1;
                while k < n && (same_point_exec(&coords[0], &coords[k]) || same_point_exec(
                    &coords[j],
                    &coords[k],
                ))
                    invariant
                        1 <= j < k <= n == coords@.len(),
                        v == pairs_view(coords@),
                        !same_point(v[0], v[j as int]),
                        forall|m: int| 0 < m < j ==> same_point(v[0], #[trigger] v[m]),
                        forall|m: int|
                            j < m < k ==> same_point(v[0], #[trigger] v[m]) || same_point(
                                v[j as int],
                                v[m],
                            ),
                    decreases n - k,
                {
                    k += 1;
                }
                if k == n {
                    proof {
                        lemma_three_distinct_greedy(v, j as int);
                    }
                } else {
                    proof {
                        lemma_same_point(v[0], v[j as int], v[k as int]);
                        assert(!same_point(v[0], v[j as int]) && !same_point(v[0], v[k as int])
                            && !same_point(v[j as int], v[k as int]));
                    }
                    distinct = true;
                }
            }
        } else {
            assert(!has_three_distinct(v));
        }
        if !distinct {
            let mut m = String::new();
            push_all(&mut m, "a polygon requires at least 3 coordinate pairs");
            return Err(CopernicusError::InvalidArgument(m));
        }
        let ghost before = pairs_view(coords@);
        let same = same_point_exec(&coords[0], &coords[n - 1]);
        assert(before[0] == (coords@[0].0@, coords@[0].1@));
        assert(before.last() == (coords@[n - 1].0@, coords@[n - 1].1@));
        if !same {
            let first = (coords[0].0.clone(), coords[0].1.clone());
            coords.push(first);
            assert(pairs_view(coords@) == before.push(before[0]));
        }
        Ok(Polygon { exterior: coords })
    }
}

/// A geometry that can be used as a spatial filter in catalogue searches.
#[derive(Debug, Clone)]
pub enum Geometry {
    Point(Point),
    BoundingBox(BoundingBox),
    Polygon(Polygon),
}

/// `lon lat`, the WKT form of one coordinate pair.
pub open spec fn wkt_pair(lon: Seq<char>, lat: Seq<char>) -> Seq<char> {
    lon + " "@ + lat
}

/// The WKT polygon of a ring of `(lon, lat)` pairs.
pub open spec fn wkt_polygon(ring: Seq<(Seq<char>, Seq<char>)>) -> Seq<char> {
    "POLYGON(("@ + join_spec(ring.map_values(|p: (Seq<char>, Seq<char>)| wkt_pair(p.0, p.1)), ","@)
        + "))"@
}

/// The closed ring of a bounding box, in `(lon, lat)` order: top-left,
/// top-right, bottom-right, bottom-left, top-left.
pub open spec fn bbox_ring(bb: BoundingBox) -> Seq<(Seq<char>, Seq<char>)> {
    let lat_top = bb.upper_left.0@;
    let lon_left = bb.upper_left.1@;
    let lat_bottom = bb.lower_right.0@;
    let lon_right = bb.lower_right.1@;
    seq![
        (lon_left, lat_top),
        (lon_right, lat_top),
        (lon_right, lat_bottom),
        (lon_left, lat_bottom),
        (lon_left, lat_top),
    ]
}

impl Geometry {
    /// The Well-Known Text of this geometry, in longitude-latitude order.
    pub open spec fn wkt_spec(&self) -> Seq<char> {
        match self {
            Geometry::Point(p) => "POINT("@ + p.lon@ + " "@ + p.lat@ + ")"@,
            Geometry::BoundingBox(bb) => wkt_polygon(bbox_ring(*bb)),
            Geometry::Polygon(poly) => wkt_polygon(pairs_view(poly.exterior@)),
        }
    }

    /// Convert to Well-Known Text (WKT) for the OData spatial filter.
    ///
    /// The catalogue expects WKT in **longitude-latitude** order (the
    /// opposite of how points and boxes are stored).
    pub fn to_wkt(&self) -> (r: String)
        ensures
            r@ == self.wkt_spec(),
    {
        match self {
            Geometry::Point(p) => {
                let mut r = String::new();
                push_all(&mut r, "POINT(");
                push_all(&mut r, p.lon.as_str());
                push_all(&mut r, " ");
                push_all(&mut r, p.lat.as_str());
                push_all(&mut r, ")");
                r
            },
            Geometry::BoundingBox(bb) => {
                let ring = vec![
                    (bb.upper_left.1.clone(), bb.upper_left.0.clone()),
                    (bb.lower_right.1.clone(), bb.upper_left.0.clone()),
                    (bb.lower_right.1.clone(), bb.lower_right.0.clone()),
                    (bb.upper_left.1.clone(), bb.lower_right.0.clone()),
                    (bb.upper_left.1.clone(), bb.upper_left.0.clone()),
                ];
                assert(pairs_view(ring@) == bbox_ring(*bb));
                polygon_text(&ring)
            },
            Geometry::Polygon(poly) => polygon_text(&poly.exterior),
        }
    }
}

/// The WKT polygon of a ring.
fn polygon_text(ring: &Vec<(String, String)>) -> (r: String)
    ensures
        r@ == wkt_polygon(pairs_view(ring@)),
{
    let mut texts: Vec<String> = Vec::new();
    let mut i: usize = 0;
    while i < ring.len()
        invariant
            i <= ring@.len(),
            strings_view(texts@) == pairs_view(ring@).take(i as int).map_values(
                |p: (Seq<char>, Seq<char>)| wkt_pair(p.0, p.1),
            ),
        decreases ring@.len() - i,
    {
        let mut t = String::new();
        push_all(&mut t, ring[i].0.as_str());
        push_all(&mut t, " ");
        push_all(&mut t, ring[i].1.as_str());
        let ghost before = texts@;
        texts.push(t);
        assert(strings_view(texts@) == strings_view(before).push(t@));
        assert(pairs_view(ring@).take(i + 1) == pairs_view(ring@).take(i as int).push(
            pairs_view(ring@)[i as int],
        ));
        i += 1;
    }
    assert(pairs_view(ring@).take(ring@.len() as int) == pairs_view(ring@));
    let joined = join_strings(&texts, ",");
    let mut r = String::new();
    push_all(&mut r, "POLYGON((");
    push_all(&mut r, joined.as_str());
    push_all(&mut r, "))");
    r
}

} // verus!

verus! {

/// A geometry as plain values.
pub enum GeometryView {
    Point { lat: Seq<char>, lon: Seq<char> },
    BoundingBox { upper_left: (Seq<char>, Seq<char>), lower_right: (Seq<char>, Seq<char>) },
    Polygon { exterior: Seq<(Seq<char>, Seq<char>)> },
}

impl View for Geometry {
    type V = GeometryView;

    open spec fn view(&self) -> GeometryView {
        match self {
            Geometry::Point(p) => GeometryView::Point { lat: p.lat@, lon: p.lon@ },
            Geometry::BoundingBox(bb) => GeometryView::BoundingBox {
                upper_left: (bb.upper_left.0@, bb.upper_left.1@),
                lower_right: (bb.lower_right.0@, bb.lower_right.1@),
            },
            Geometry::Polygon(poly) => GeometryView::Polygon { exterior: pairs_view(poly.exterior@) },
        }
    }
}

/// The `(lon, lat)` pair a GeoJSON position holds.
pub open spec fn position_spec(c: JsonValue) -> Result<(Seq<char>, Seq<char>), Seq<char>> {
    match c {
        JsonValue::Array(p) => if p@.len() < 2 {
            Err("GeoJSON coordinate requires at least [lon, lat]"@)
        } else {
            match (p@[0], p@[1]) {
                (JsonValue::Number(lon), JsonValue::Number(lat)) => Ok((lon@, lat@)),
                _ => Err("GeoJSON coordinate is not a number"@),
            }
        },
        _ => Err("GeoJSON coordinate is not an array"@),
    }
}

/// The pairs a list of GeoJSON positions holds; the first bad position's
/// message if any is bad.
pub open spec fn positions_spec(items: Seq<JsonValue>) -> Result<Seq<(Seq<char>, Seq<char>)>, Seq<char>>
    decreases items.len(),
{
    if items.len() == 0 {
        Ok(Seq::empty())
    } else {
        match position_spec(items[0]) {
            Err(m) => Err(m),
            Ok(p) => match positions_spec(items.drop_first()) {
                Ok(rest) => Ok(seq![p] + rest),
                Err(m) => Err(m),
            },
        }
    }
}

/// The pairs of a GeoJSON linear ring `[[lon, lat], ...]`.
pub open spec fn ring_spec(ring: JsonValue) -> Result<Seq<(Seq<char>, Seq<char>)>, Seq<char>> {
    match ring {
        JsonValue::Array(items) => positions_spec(items@),
        _ => Err("GeoJSON ring is not an array"@),
    }
}

/// The point a GeoJSON `Point`'s `coordinates` member gives.
pub open spec fn point_spec(coordinates: Option<JsonValue>) -> Result<GeometryView, Seq<char>> {
    match coordinates {
        Some(JsonValue::Array(cs)) => if cs@.len() < 2 {
            Err("GeoJSON Point requires at least [lon, lat]"@)
        } else {
            match (cs@[0], cs@[1]) {
                (JsonValue::Number(lon), JsonValue::Number(lat)) => Ok(
                    GeometryView::Point { lat: lat@, lon: lon@ },
                ),
                _ => Err("GeoJSON coordinate is not a number"@),
            }
        },
        _ => Err("GeoJSON Point missing \"coordinates\" array"@),
    }
}

/// The polygon a GeoJSON `Polygon`'s `coordinates` member gives: its first
/// (exterior) ring, closed; holes are ignored.
pub open spec fn polygon_spec(coordinates: Option<JsonValue>) -> Result<GeometryView, Seq<char>> {
    match coordinates {
        Some(JsonValue::Array(rings)) => if rings@.len() == 0 {
            Err("GeoJSON Polygon has no rings"@)
        } else {
            match ring_spec(rings@[0]) {
                Err(m) => Err(m),
                Ok(ext) => if !has_three_distinct(ext) {
                    Err("a polygon requires at least 3 coordinate pairs"@)
                } else {
                    Ok(GeometryView::Polygon { exterior: closed_ring(ext) })
                },
            }
        },
        _ => Err("GeoJSON Polygon missing \"coordinates\" array"@),
    }
}

/// The message for an unsupported GeoJSON `type`.
pub open spec fn unsupported_type_message(t: Seq<char>) -> Seq<char> {
    "unsupported GeoJSON type \""@ + t
        + "\"; expected Point, Polygon, Feature, or FeatureCollection"@
}

/// The geometry a GeoJSON document describes: a `Point`, a `Polygon`, or the
/// geometry of a `Feature` or of the first feature of a `FeatureCollection`.
/// `Err` holds the message of the invalid-argument error.
pub open spec fn geojson_spec(v: JsonValue) -> Result<GeometryView, Seq<char>>
    decreases v,
{
    match v {
        JsonValue::Object(members) => match member_index(members@, "type"@) {
            None => Err("GeoJSON object has no \"type\" field"@),
            Some(ti) => match members@[ti].value {
                JsonValue::Str(t) => if t@ == "Point"@ {
                    point_spec(member(v, "coordinates"@))
                } else if t@ == "Polygon"@ {
                    polygon_spec(member(v, "coordinates"@))
                } else if t@ == "Feature"@ {
                    match member_index(members@, "geometry"@) {
                        Some(gi) => {
                            proof {
                                lemma_member_index(members@, "geometry"@);
                                assert(decreases_to!(v => members));
                                assert(decreases_to!(members => members@));
                                assert(decreases_to!(members@ => members@[gi]));
                                assert(decreases_to!(members@[gi] => members@[gi].value));
                            }
                            geojson_spec(members@[gi].value)
                        },
                        None => Err("GeoJSON Feature has no \"geometry\" field"@),
                    }
                } else if t@ == "FeatureCollection"@ {
                    match member_index(members@, "features"@) {
                        Some(fi) => match members@[fi].value {
                            JsonValue::Array(fs) => if fs@.len() == 0 {
                                Err("GeoJSON FeatureCollection is empty"@)
                            } else {
                                proof {
                                    lemma_member_index(members@, "features"@);
                                    assert(decreases_to!(v => members));
                                    assert(decreases_to!(members => members@));
                                    assert(decreases_to!(members@ => members@[fi]));
                                    assert(decreases_to!(members@[fi] => members@[fi].value));
                                    assert(decreases_to!(members@[fi].value => fs));
                                    assert(decreases_to!(fs => fs@));
                                    assert(decreases_to!(fs@ => fs@[0]));
                                }
                                geojson_spec(fs@[0])
                            },
                            _ => Err("GeoJSON FeatureCollection has no \"features\" array"@),
                        },
                        None => Err("GeoJSON FeatureCollection has no \"features\" array"@),
                    }
                } else {
                    Err(unsupported_type_message(t@))
                },
                _ => Err("GeoJSON object has no \"type\" field"@),
            },
        },
        _ => Err("GeoJSON must be a JSON object"@),
    }
}

} // verus!

verus! {

/// An invalid-argument error with message `msg`.
fn invalid(msg: &str) -> (e: CopernicusError)
    ensures
        e matches CopernicusError::InvalidArgument(m) && m@ == msg@,
{
    CopernicusError::InvalidArgument(msg.to_owned())
}

/// Parse a GeoJSON position `[lon, lat, ...]` into `(lon, lat)`.
fn parse_position(c: &JsonValue) -> (r: Result<(String, String), CopernicusError>)
    ensures
        match (r, position_spec(*c)) {
            (Ok(p), Ok(v)) => p.0@ == v.0 && p.1@ == v.1,
            (Err(CopernicusError::InvalidArgument(m)), Err(v)) => m@ == v,
            _ => false,
        },
{
    match c {
        JsonValue::Array(pair) => {
            if pair.len() < 2 {
                return Err(invalid("GeoJSON coordinate requires at least [lon, lat]"));
            }
            match (&pair[0], &pair[1]) {
                (JsonValue::Number(lon), JsonValue::Number(lat)) => Ok((lon.clone(), lat.clone())),
                _ => Err(invalid("GeoJSON coordinate is not a number")),
            }
        },
        _ => Err(invalid("GeoJSON coordinate is not an array")),
    }
}

/// Parse a GeoJSON coordinate ring `[[lon, lat], ...]` into `(lon, lat)` pairs.
fn parse_ring(ring: &JsonValue) -> (r: Result<Vec<(String, String)>, CopernicusError>)
    ensures
        match (r, ring_spec(*ring)) {
            (Ok(ps), Ok(v)) => pairs_view(ps@) == v,
            (Err(CopernicusError::InvalidArgument(m)), Err(v)) => m@ == v,
            _ => false,
        },
{
    let items = match ring {
        JsonValue::Array(items) => items,
        _ => return Err(invalid("GeoJSON ring is not an array")),
    };
    let mut out: Vec<(String, String)> = Vec::new();
    let mut i: usize = 0;
    assert(items@.skip(0) == items@);
    while i < items.len()
        invariant
            i <= items@.len(),
            ring_spec(*ring) == positions_spec(items@),
            positions_spec(items@) == match positions_spec(items@.skip(i as int)) {
                Ok(rest) => Ok(pairs_view(out@) + rest),
                Err(m) => Err(m),
            },
        decreases items@.len() - i,
    {
        assert(items@.skip(i as int)[0] == items@[i as int]);
        assert(items@.skip(i as int).drop_first() == items@.skip(i + 1));
        let p = parse_position(&items[i])?;
        let ghost before = out@;
        out.push(p);
        proof {
            assert(pairs_view(out@) == pairs_view(before).push((p.0@, p.1@)));
            match positions_spec(items@.skip(i + 1)) {
                Ok(rest) => {
                    assert(pairs_view(before) + (seq![(p.0@, p.1@)] + rest) == pairs_view(out@)
                        + rest);
                },
                Err(_) => {},
            }
        }
        i += 1;
    }
    assert(items@.skip(items@.len() as int) == Seq::<JsonValue>::empty());
    assert(pairs_view(out@) + Seq::<(Seq<char>, Seq<char>)>::empty() == pairs_view(out@));
    Ok(out)
}

impl Geometry {
    /// Extract a `Geometry` from a parsed GeoJSON document.
    ///
    /// Supports GeoJSON objects of type `Point`, `Polygon`, `Feature`, and
    /// `FeatureCollection`.  For `Feature` and `FeatureCollection`, the
    /// geometry is taken from the (first) feature's `"geometry"` member.
    /// Only the first geometry is used; multi-geometries and holes
    /// (interior rings) are not supported.
    pub fn from_geojson_value(value: &JsonValue) -> (r: Result<Geometry, CopernicusError>)
        ensures
            match (r, geojson_spec(*value)) {
                (Ok(g), Ok(v)) => g@ == v,
                (Err(CopernicusError::InvalidArgument(m)), Err(v)) => m@ == v,
                _ => false,
            },
        decreases value,
    {
        match value {
            JsonValue::Object(_) => {},
            _ => return Err(invalid("GeoJSON must be a JSON object")),
        }
        let geo_type = match value.get("type") {
            Some(JsonValue::Str(t)) => t,
            _ => return Err(invalid("GeoJSON object has no \"type\" field")),
        };
        if str_eq(geo_type.as_str(), "Point") {
            let coords = match value.get("coordinates") {
                Some(JsonValue::Array(cs)) => cs,
                _ => return Err(invalid("GeoJSON Point missing \"coordinates\" array")),
            };
            if coords.len() < 2 {
                return Err(invalid("GeoJSON Point requires at least [lon, lat]"));
            }
            match (&coords[0], &coords[1]) {
                (JsonValue::Number(lon), JsonValue::Number(lat)) => Ok(
                    Geometry::Point(Point::new(lat.clone(), lon.clone())),
                ),
                _ => Err(invalid("GeoJSON coordinate is not a number")),
            }
        } else if str_eq(geo_type.as_str(), "Polygon") {
            let rings = match value.get("coordinates") {
                Some(JsonValue::Array(rings)) => rings,
                _ => return Err(invalid("GeoJSON Polygon missing \"coordinates\" array")),
            };
            if rings.len() == 0 {
                return Err(invalid("GeoJSON Polygon has no rings"));
            }
            let exterior = parse_ring(&rings[0])?;
            let poly = Polygon::new(exterior)?;
            Ok(Geometry::Polygon(poly))
        } else if str_eq(geo_type.as_str(), "Feature") {
            let geom = match value.get("geometry") {
                Some(g) => g,
                None => return Err(invalid("GeoJSON Feature has no \"geometry\" field")),
            };
            proof {
                crate::json::lemma_member_decreases(*value, "geometry"@);
            }
            Self::from_geojson_value(geom)
        } else if str_eq(geo_type.as_str(), "FeatureCollection") {
            let fv = value.get("features");
            let features = match fv {
                Some(JsonValue::Array(fs)) => fs,
                _ => return Err(invalid("GeoJSON FeatureCollection has no \"features\" array")),
            };
            if features.len() == 0 {
                return Err(invalid("GeoJSON FeatureCollection is empty"));
            }
            proof {
                crate::json::lemma_member_decreases(*value, "features"@);
                let x = fv.unwrap();
                assert(decreases_to!(*x => *features));
                assert(decreases_to!(*features => features@));
                assert(decreases_to!(features@ => features@[0]));
            }
            Self::from_geojson_value(&features[0])
        } else {
            let mut m = String::new();
            push_all(&mut m, "unsupported GeoJSON type \"");
            push_all(&mut m, geo_type.as_str());
            push_all(&mut m, "\"; expected Point, Polygon, Feature, or FeatureCollection");
            Err(CopernicusError::InvalidArgument(m))
        }
    }
}

} // verus!
