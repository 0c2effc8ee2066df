//! Catalogue search: scene-name parsing and OData filter construction.

use vstd::prelude::*;
use crate::dates::{
    date_of, decimal_string, decimal_text, is_valid_ymd, midnight_odata_text, midnight_text, next_day, next_day_spec,
    numeral_value, parse_compact_date, previous_day, previous_day_spec, CalendarDate, UtcDateTime,
};
use crate::geometry::Geometry;
use crate::models::Satellite;
use crate::error::{CopernicusError, ErrorView};
use crate::json::{member, JsonValue};
use crate::text::{join_spec, join_strings, push_all, string_of, strings_view, chars_of, split_chars, split_spec, string_of_range, utf8_len, utf8_len_at_least};

verus! {

/// An ASCII decimal digit.
pub open spec fn is_digit(c: char) -> bool {
    '0' <= c && c <= '9'
}

/// A piece of a scene name that carries the sensing date: at least 15 bytes
/// long, and its first eight characters (or all, if fewer) are digits.
pub open spec fn is_sensing_piece(p: Seq<char>) -> bool {
    &&& utf8_len(p) >= 15
    &&& forall|k: int| 0 <= k < p.len() && k < 8 ==> is_digit(#[trigger] p[k])
}

/// The first eight characters of the first sensing piece among `ps`.
pub open spec fn first_sensing_date(ps: Seq<Seq<char>>) -> Option<Seq<char>>
    decreases ps.len(),
{
    if ps.len() == 0 {
        None
    } else if is_sensing_piece(ps[0]) {
        Some(ps[0].take(8))
    } else {
        first_sensing_date(ps.drop_first())
    }
}

/// The 8-digit sensing date of a scene name: the date part of its first
/// `_`-separated piece that looks like `YYYYMMDDTHHMMSS`.
pub open spec fn sensing_date_spec(scene_name: Seq<char>) -> Option<Seq<char>> {
    first_sensing_date(split_spec(scene_name, '_'))
}

/// A sequence of at most eight digits is as many bytes long as it has characters.
proof fn lemma_digits_utf8_len(p: Seq<char>)
    requires
        forall|k: int| 0 <= k < p.len() ==> is_digit(#[trigger] p[k]),
    ensures
        utf8_len(p) == p.len(),
    decreases p.len(),
{
    if p.len() > 0 {
        lemma_digits_utf8_len(p.drop_last());
    }
}

/// A sensing piece has at least eight characters, all of the first eight digits.
proof fn lemma_sensing_piece_long(p: Seq<char>)
    requires
        is_sensing_piece(p),
    ensures
        p.len() >= 8,
{
    if p.len() < 8 {
        lemma_digits_utf8_len(p);
    }
}

/// The sensing date found in a scene name is eight digits.
pub proof fn sensing_date_is_eight_digits(scene_name: Seq<char>)
    ensures
        sensing_date_spec(scene_name) matches Some(d) ==> d.len() == 8 && forall|k: int|
            0 <= k < 8 ==> is_digit(#[trigger] d[k]),
{
    lemma_first_sensing_date_digits(split_spec(scene_name, '_'));
}

/// The date of the first sensing piece is eight digits.
proof fn lemma_first_sensing_date_digits(ps: Seq<Seq<char>>)
    ensures
        first_sensing_date(ps) matches Some(d) ==> d.len() == 8 && forall|k: int|
            0 <= k < 8 ==> is_digit(#[trigger] d[k]),
    decreases ps.len(),
{
    if ps.len() > 0 {
        if is_sensing_piece(ps[0]) {
            lemma_sensing_piece_long(ps[0]);
            assert forall|k: int| 0 <= k < 8 implies is_digit(#[trigger] ps[0].take(8)[k]) by {
                assert(ps[0].take(8)[k] == ps[0][k]);
            }
        } else {
            lemma_first_sensing_date_digits(ps.drop_first());
        }
    }
}

/// Whether the piece `p` is a sensing piece.
fn is_sensing_piece_exec(p: &Vec<char>) -> (r: bool)
    ensures
        r == is_sensing_piece(p@),
{
    if !utf8_len_at_least(p, 0, p.len(), 15) {
        assert(p@.subrange(0, p@.len() as int) == p@);
        return false;
    }
    assert(p@.subrange(0, p@.len() as int) == p@);
    let mut k: usize = 0;
    while k < p.len() && k < 8
        invariant
            k <= p.len(),
            k <= 8,
            forall|j: int| 0 <= j < k ==> is_digit(#[trigger] p@[j]),
        decreases 8 - k,
    {
        if !(p[k] >= '0' && p[k] <= '9') {
            return false;
        }
        k += 1;
    }
    true
}

/// Extract the 8-digit sensing date from a Sentinel scene name.
/// E.g. "S2B_MSIL2A_20200804T183919_..." -> "20200804"
pub fn extract_sensing_date(scene_name: &str) -> (r: Option<String>)
    ensures
        match r {
            Some(d) => sensing_date_spec(scene_name@) == Some(d@),
            None => sensing_date_spec(scene_name@) is None,
        },
{
    let name = chars_of(scene_name);
    let pieces = split_chars(&name, '_');
    let ghost ps = split_spec(scene_name@, '_');
    let mut i: usize = 0;
    assert(ps.skip(0) == ps);
    while i < pieces.len()
        invariant
            i <= pieces@.len(),
            ps == split_spec(scene_name@, '_'),
            pieces@.len() == ps.len(),
            forall|k: int| 0 <= k < pieces@.len() ==> #[trigger] pieces@[k]@ == ps[k],
            first_sensing_date(ps) == first_sensing_date(ps.skip(i as int)),
        decreases pieces@.len() - i,
    {
        assert(ps.skip(i as int)[0] == ps[i as int]);
        assert(ps.skip(i as int).drop_first() == ps.skip(i + 1));
        if is_sensing_piece_exec(&pieces[i]) {
            proof {
                lemma_sensing_piece_long(ps[i as int]);
                assert(first_sensing_date(ps.skip(i as int)) == Some(ps[i as int].take(8)));
                assert(ps[i as int].take(8) == pieces@[i as int]@.subrange(0, 8));
            }
            let d = string_of_range(&pieces[i], 0, 8);
            assert(d@ == ps[i as int].take(8));
            assert(sensing_date_spec(scene_name@) == Some(d@));
            return Some(d);
        }
        i += 1;
    }
    assert(ps.skip(pieces@.len() as int).len() == 0);
    None
}

} // verus!

verus! {

/// A builder for catalogue search queries.
///
/// Each method takes `self` by value and returns it with one filter set,
/// so that calls chain.
pub struct SearchQuery {
    satellite: Satellite,
    product: Option<String>,
    date_range: Option<(UtcDateTime, UtcDateTime)>,
    tile: Option<String>,
    max_cloud_cover: Option<String>,
    geometry: Option<Geometry>,
    max_results: u32,
}

/// The settings of a search query as plain values.
pub struct SearchQueryView {
    pub satellite: Satellite,
    pub product: Option<Seq<char>>,
    pub date_range: Option<(UtcDateTime, UtcDateTime)>,
    pub tile: Option<Seq<char>>,
    /// The cloud-cover threshold in percent, written with two decimals.
    pub max_cloud_cover: Option<Seq<char>>,
    pub geometry: Option<Geometry>,
    pub max_results: u32,
}

/// The characters of an optional string.
pub open spec fn opt_view(s: Option<String>) -> Option<Seq<char>> {
    match s {
        Some(x) => Some(x@),
        None => None,
    }
}

impl View for SearchQuery {
    type V = SearchQueryView;

    closed spec fn view(&self) -> SearchQueryView {
        SearchQueryView {
            satellite: self.satellite,
            product: opt_view(self.product),
            date_range: self.date_range,
            tile: opt_view(self.tile),
            max_cloud_cover: opt_view(self.max_cloud_cover),
            geometry: self.geometry,
            max_results: self.max_results,
        }
    }
}

impl SearchQuery {
    /// Start building a query for the given satellite: no filters, at most
    /// 100 results.
    pub fn new(satellite: Satellite) -> (r: Self)
        ensures
            r@ == (SearchQueryView {
                satellite,
                product: None,
                date_range: None,
                tile: None,
                max_cloud_cover: None,
                geometry: None,
                max_results: 100,
            }),
    {
        SearchQuery {
            satellite,
            product: None,
            date_range: None,
            tile: None,
            max_cloud_cover: None,
            geometry: None,
            max_results: 100,
        }
    }

    /// Filter by product type (e.g. "L2A", "L1C", "GRD").
    pub fn product(self, product: &str) -> (r: Self)
        ensures
            r@ == (SearchQueryView { product: Some(product@), ..self@ }),
    {
        let mut q = self;
        q.product = Some(product.to_owned());
        q
    }

    /// Filter by acquisition date range.
    pub fn dates(self, start: UtcDateTime, end: UtcDateTime) -> (r: Self)
        ensures
            r@ == (SearchQueryView { date_range: Some((start, end)), ..self@ }),
    {
        let mut q = self;
        q.date_range = Some((start, end));
        q
    }

    /// Filter by Sentinel-2 tile identifier (e.g. "T31TFJ").
    pub fn tile(self, tile: &str) -> (r: Self)
        ensures
            r@ == (SearchQueryView { tile: Some(tile@), ..self@ }),
    {
        let mut q = self;
        q.tile = Some(tile.to_owned());
        q
    }

    /// Maximum allowable cloud cover in percent (0-100), written with two
    /// decimals (e.g. "20.00").
    pub fn max_cloud_cover(self, percent: &str) -> (r: Self)
        ensures
            r@ == (SearchQueryView { max_cloud_cover: Some(percent@), ..self@ }),
    {
        let mut q = self;
        q.max_cloud_cover = Some(percent.to_owned());
        q
    }

    /// Spatial filter: only return products intersecting this geometry.
    pub fn geometry(self, geom: Geometry) -> (r: Self)
        ensures
            r@ == (SearchQueryView { geometry: Some(geom), ..self@ }),
    {
        let mut q = self;
        q.geometry = Some(geom);
        q
    }

    /// Maximum number of results to return (default: 100).
    pub fn max_results(self, n: u32) -> (r: Self)
        ensures
            r@ == (SearchQueryView { max_results: n, ..self@ }),
    {
        let mut q = self;
        q.max_results = n;
        q
    }
}

} // verus!

verus! {

/// The clause selecting the mission's collection.
pub open spec fn collection_clause(sat: Satellite) -> Seq<char> {
    "Collection/Name eq '"@ + sat.collection_name_spec() + "'"@
}

/// The message for a product type the mission does not know.
pub open spec fn unknown_product_message(sat: Satellite, product: Seq<char>) -> Seq<char> {
    "unknown product type '"@ + product + "' for "@ + sat.collection_name_spec()
        + ". Known types: "@ + join_spec(sat.known_products_spec(), ", "@)
}

/// The product-type clause, or the message refusing the product type.
pub open spec fn product_clause(q: SearchQueryView) -> Result<Option<Seq<char>>, Seq<char>> {
    match q.product {
        None => Ok(None),
        Some(p) => if q.satellite.is_valid_product_spec(p) {
            Ok(Some("contains(Name,'"@ + p + "')"@))
        } else {
            Err(unknown_product_message(q.satellite, p))
        },
    }
}

/// The acquisition-window clause, or the message refusing the window.
pub open spec fn date_clause(q: SearchQueryView) -> Result<Option<Seq<char>>, Seq<char>> {
    match q.date_range {
        None => Ok(None),
        Some(range) => if range.0.is_after(range.1) {
            Err("start date must be before end date"@)
        } else {
            Ok(
                Some(
                    "ContentDate/Start gt "@ + range.0.text_spec() + " and ContentDate/Start lt "@
                        + range.1.text_spec(),
                ),
            )
        },
    }
}

/// The catalogue's tile identifier: the tile without one leading `T`.
pub open spec fn tile_id(tile: Seq<char>) -> Seq<char> {
    if tile.len() > 0 && tile[0] == 'T' {
        tile.drop_first()
    } else {
        tile
    }
}

/// The tile clause (Sentinel-2 only), or the message refusing it.
pub open spec fn tile_clause(q: SearchQueryView) -> Result<Option<Seq<char>>, Seq<char>> {
    match q.tile {
        None => Ok(None),
        Some(t) => if q.satellite != Satellite::Sentinel2 {
            Err("tile filter is only supported for Sentinel-2"@)
        } else {
            Ok(
                Some(
                    "Attributes/OData.CSC.StringAttribute/any(att:att/Name eq 'tileId' and att/OData.CSC.StringAttribute/Value eq '"@
                        + tile_id(t) + "')"@,
                ),
            )
        },
    }
}

/// The cloud-cover clause (not for Sentinel-1), or the message refusing it.
pub open spec fn cloud_clause(q: SearchQueryView) -> Result<Option<Seq<char>>, Seq<char>> {
    match q.max_cloud_cover {
        None => Ok(None),
        Some(c) => if q.satellite == Satellite::Sentinel1 {
            Err("cloud cover filter is not supported for Sentinel-1"@)
        } else {
            Ok(
                Some(
                    "Attributes/OData.CSC.DoubleAttribute/any(att:att/Name eq 'cloudCover' and att/OData.CSC.DoubleAttribute/Value lt "@
                        + c + ")"@,
                ),
            )
        },
    }
}

/// The spatial clause.
pub open spec fn geometry_clause(q: SearchQueryView) -> Option<Seq<char>> {
    match q.geometry {
        None => None,
        Some(g) => Some("OData.CSC.Intersects(area=geography'SRID=4326;"@ + g.wkt_spec() + "')"@),
    }
}

/// The clause, if any, as a list.
pub open spec fn opt_list(c: Option<Seq<char>>) -> Seq<Seq<char>> {
    match c {
        Some(x) => seq![x],
        None => Seq::empty(),
    }
}

/// The OData `$filter` of a query: its clauses in order (collection,
/// product, dates, tile, cloud cover, geometry) joined with ` and `; or the
/// message of the first setting the query refuses, in that order.
pub open spec fn filter_spec(q: SearchQueryView) -> Result<Seq<char>, Seq<char>> {
    match product_clause(q) {
        Err(m) => Err(m),
        Ok(pc) => match date_clause(q) {
            Err(m) => Err(m),
            Ok(dc) => match tile_clause(q) {
                Err(m) => Err(m),
                Ok(tc) => match cloud_clause(q) {
                    Err(m) => Err(m),
                    Ok(cc) => Ok(
                        join_spec(
                            seq![collection_clause(q.satellite)] + opt_list(pc) + opt_list(dc)
                                + opt_list(tc) + opt_list(cc) + opt_list(geometry_clause(q)),
                            " and "@,
                        ),
                    ),
                },
            },
        },
    }
}

/// Appends the clause `c` to `filters`.
fn push_clause(filters: &mut Vec<String>, c: String)
    ensures
        strings_view(final(filters)@) == strings_view(old(filters)@).push(c@),
{
    filters.push(c);
    assert(strings_view(filters@) == strings_view(old(filters)@).push(c@));
}

impl SearchQuery {
    /// Build the OData `$filter` string from all configured filters.
    pub fn build_filter(&self) -> (r: Result<String, CopernicusError>)
        ensures
            match (r, filter_spec(self@)) {
                (Ok(f), Ok(v)) => f@ == v,
                (Err(CopernicusError::InvalidArgument(m)), Err(v)) => m@ == v,
                _ => false,
            },
    {
        let ghost q = self@;
        let mut filters: Vec<String> = Vec::new();
        let mut c = String::new();
        push_all(&mut c, "Collection/Name eq '");
        push_all(&mut c, self.satellite.collection_name());
        push_all(&mut c, "'");
        push_clause(&mut filters, c);
        let ghost mut expected: Seq<Seq<char>> = seq![collection_clause(q.satellite)];
        assert(strings_view(filters@) == expected);

        match &self.product {
            Some(product) => {
                if !self.satellite.is_valid_product(product.as_str()) {
                    let mut m = String::new();
                    push_all(&mut m, "unknown product type '");
                    push_all(&mut m, product.as_str());
                    push_all(&mut m, "' for ");
                    push_all(&mut m, self.satellite.collection_name());
                    push_all(&mut m, ". Known types: ");
                    push_all(&mut m, self.satellite.known_products_list().as_str());
                    return Err(CopernicusError::InvalidArgument(m));
                }
                let mut c = String::new();
                push_all(&mut c, "contains(Name,'");
                push_all(&mut c, product.as_str());
                push_all(&mut c, "')");
                push_clause(&mut filters, c);
            },
            None => {},
        }
        let ghost pc = product_clause(q)->Ok_0;
        proof {
            expected = expected + opt_list(pc);
        }
        assert(strings_view(filters@) == expected);

        match &self.date_range {
            Some((start, end)) => {
                if start.after(end) {
                    let mut m = String::new();
                    push_all(&mut m, "start date must be before end date");
                    return Err(CopernicusError::InvalidArgument(m));
                }
                let mut c = String::new();
                push_all(&mut c, "ContentDate/Start gt ");
                push_all(&mut c, start.odata_text().as_str());
                push_all(&mut c, " and ContentDate/Start lt ");
                push_all(&mut c, end.odata_text().as_str());
                push_clause(&mut filters, c);
            },
            None => {},
        }
        let ghost dc = date_clause(q)->Ok_0;
        proof {
            expected = expected + opt_list(dc);
        }
        assert(strings_view(filters@) == expected);

        match &self.tile {
            Some(tile) => {
                if self.satellite != Satellite::Sentinel2 {
                    let mut m = String::new();
                    push_all(&mut m, "tile filter is only supported for Sentinel-2");
                    return Err(CopernicusError::InvalidArgument(m));
                }
                let t = chars_of(tile.as_str());
                let id = if t.len() > 0 && t[0] == 'T' {
                    string_of_range(&t, 1, t.len())
                } else {
                    string_of(&t)
                };
                assert(t@.len() > 0 ==> t@.drop_first() == t@.subrange(1, t@.len() as int));
                let mut c = String::new();
                push_all(
                    &mut c,
                    "Attributes/OData.CSC.StringAttribute/any(att:att/Name eq 'tileId' and att/OData.CSC.StringAttribute/Value eq '",
                );
                push_all(&mut c, id.as_str());
                push_all(&mut c, "')");
                push_clause(&mut filters, c);
            },
            None => {},
        }
        let ghost tc = tile_clause(q)->Ok_0;
        proof {
            expected = expected + opt_list(tc);
        }
        assert(strings_view(filters@) == expected);

        match &self.max_cloud_cover {
            Some(max_clouds) => {
                if self.satellite == Satellite::Sentinel1 {
                    let mut m = String::new();
                    push_all(&mut m, "cloud cover filter is not supported for Sentinel-1");
                    return Err(CopernicusError::InvalidArgument(m));
                }
                let mut c = String::new();
                push_all(
                    &mut c,
                    "Attributes/OData.CSC.DoubleAttribute/any(att:att/Name eq 'cloudCover' and att/OData.CSC.DoubleAttribute/Value lt ",
                );
                push_all(&mut c, max_clouds.as_str());
                push_all(&mut c, ")");
                push_clause(&mut filters, c);
            },
            None => {},
        }
        let ghost cc = cloud_clause(q)->Ok_0;
        proof {
            expected = expected + opt_list(cc);
        }
        assert(strings_view(filters@) == expected);

        match &self.geometry {
            Some(geom) => {
                let mut c = String::new();
                push_all(&mut c, "OData.CSC.Intersects(area=geography'SRID=4326;");
                push_all(&mut c, geom.to_wkt().as_str());
                push_all(&mut c, "')");
                push_clause(&mut filters, c);
            },
            None => {},
        }
        proof {
            expected = expected + opt_list(geometry_clause(q));
        }
        assert(strings_view(filters@) == expected);
        Ok(join_strings(&filters, " and "))
    }
}

} // verus!

verus! {

/// The sensing date found in a scene name is eight digits.
pub proof fn lemma_sensing_date_digits(ps: Seq<Seq<char>>)
    ensures
        first_sensing_date(ps) matches Some(d) ==> d.len() == 8 && forall|i: int|
            0 <= i < 8 ==> is_digit(#[trigger] d[i]),
    decreases ps.len(),
{
    if ps.len() > 0 {
        if is_sensing_piece(ps[0]) {
            lemma_sensing_piece_long(ps[0]);
        } else {
            lemma_sensing_date_digits(ps.drop_first());
        }
    }
}

/// A numeral of `to - from` digits is below `10^(to - from)`.
pub proof fn lemma_numeral_bound(s: Seq<char>, from: int, to: int)
    requires
        0 <= from <= to <= s.len(),
        forall|i: int| from <= i < to ==> is_digit(#[trigger] s[i]),
    ensures
        0 <= numeral_value(s, from, to) < pow10((to - from) as nat),
    decreases to - from,
{
    if to > from {
        lemma_numeral_bound(s, from, to - 1);
        assert(is_digit(s[to - 1]));
    }
}

/// `10^n`.
pub open spec fn pow10(n: nat) -> int
    decreases n,
{
    if n == 0 {
        1
    } else {
        10 * pow10((n - 1) as nat)
    }
}

/// The day before and the day after a date of years 0 to 9999 are dates of
/// years -1 to 10000.
pub proof fn lemma_neighbour_days(d: CalendarDate)
    requires
        is_valid_ymd(d.year as int, d.month as int, d.day as int),
        0 <= d.year <= 9999,
    ensures
        ({
            let p = date_of(previous_day_spec(d));
            is_valid_ymd(p.year as int, p.month as int, p.day as int) && -1 <= p.year <= 10000
        }),
        ({
            let n = date_of(next_day_spec(d));
            is_valid_ymd(n.year as int, n.month as int, n.day as int) && -1 <= n.year <= 10000
        }),
{
}

/// The catalogue filter that finds a scene by name: a one-day margin
/// around its sensing date (when the name has one), and the name itself.
/// `Err` holds the message of the invalid-argument error for a sensing date
/// that is no calendar date.
pub open spec fn scene_filter_spec(scene_name: Seq<char>) -> Result<Seq<char>, Seq<char>> {
    let by_name = "contains(Name,'"@ + scene_name + "')"@;
    match sensing_date_spec(scene_name) {
        None => Ok(by_name),
        Some(d8) => {
            let y = numeral_value(d8, 0, 4);
            let m = numeral_value(d8, 4, 6);
            let d = numeral_value(d8, 6, 8);
            if is_valid_ymd(y, m, d) {
                let date = date_of((y, m, d));
                Ok(
                    "ContentDate/Start gt "@ + midnight_text(date_of(previous_day_spec(date)))
                        + " and ContentDate/Start lt "@ + midnight_text(
                        date_of(next_day_spec(date)),
                    ) + " and "@ + by_name,
                )
            } else {
                Err("failed to parse date from scene name: "@ + "input is out of range"@)
            }
        },
    }
}

/// Build the catalogue filter that looks a scene up by its name.
pub fn scene_search_filter(scene_name: &str) -> (r: Result<String, CopernicusError>)
    ensures
        match (r, scene_filter_spec(scene_name@)) {
            (Ok(f), Ok(v)) => f@ == v,
            (Err(CopernicusError::InvalidArgument(m)), Err(v)) => m@ == v,
            _ => false,
        },
{
    let mut filter = String::new();
    match extract_sensing_date(scene_name) {
        Some(date8) => {
            proof {
                lemma_sensing_date_digits(split_spec(scene_name@, '_'));
                lemma_numeral_bound(date8@, 0, 4);
                lemma_numeral_bound(date8@, 4, 6);
                lemma_numeral_bound(date8@, 6, 8);
                reveal_with_fuel(pow10, 5);
            }
            let date = match parse_compact_date(date8.as_str()) {
                Ok(d) => d,
                Err(e) => {
                    let mut m = String::new();
                    push_all(&mut m, "failed to parse date from scene name: ");
                    push_all(&mut m, e.as_str());
                    return Err(CopernicusError::InvalidArgument(m));
                },
            };
            proof {
                lemma_neighbour_days(date);
            }
            let start = match previous_day(date) {
                Some(p) => p,
                None => date,
            };
            let end = match next_day(date) {
                Some(n) => n,
                None => date,
            };
            push_all(&mut filter, "ContentDate/Start gt ");
            push_all(&mut filter, midnight_odata_text(start).as_str());
            push_all(&mut filter, " and ContentDate/Start lt ");
            push_all(&mut filter, midnight_odata_text(end).as_str());
            push_all(&mut filter, " and ");
        },
        None => {},
    }
    push_all(&mut filter, "contains(Name,'");
    push_all(&mut filter, scene_name);
    push_all(&mut filter, "')");
    Ok(filter)
}

} // verus!

verus! {

/// The catalogue's OData products endpoint.
pub const CATALOGUE_URL: &'static str = "https://catalogue.dataspace.copernicus.eu/odata/v1/Products";

/// The plain values of a list of query parameters.
pub open spec fn params_view(params: Seq<(String, String)>) -> Seq<(Seq<char>, Seq<char>)> {
    params.map_values(|p: (String, String)| (p.0@, p.1@))
}

impl SearchQuery {
    /// The query parameters of the catalogue request: the filter, expansion
    /// of the attributes, the result limit and ascending acquisition order.
    pub fn search_params(&self) -> (r: Result<Vec<(String, String)>, CopernicusError>)
        ensures
            match (r, filter_spec(self@)) {
                (Ok(ps), Ok(f)) => params_view(ps@) == seq![
                    ("$filter"@, f),
                    ("$expand"@, "Attributes"@),
                    ("$top"@, decimal_text(self@.max_results as nat)),
                    ("$orderby"@, "ContentDate/Start asc"@),
                ],
                (Err(CopernicusError::InvalidArgument(m)), Err(v)) => m@ == v,
                _ => false,
            },
    {
        let filter = self.build_filter()?;
        let r = vec![
            ("$filter".to_owned(), filter),
            ("$expand".to_owned(), "Attributes".to_owned()),
            ("$top".to_owned(), decimal_string(self.max_results as u64)),
            ("$orderby".to_owned(), "ContentDate/Start asc".to_owned()),
        ];
        assert(params_view(r@) =~= seq![
            ("$filter"@, r@[0].1@),
            ("$expand"@, "Attributes"@),
            ("$top"@, decimal_text(self@.max_results as nat)),
            ("$orderby"@, "ContentDate/Start asc"@),
        ]);
        Ok(r)
    }
}

/// The query parameters that look a scene up by name.
pub fn scene_search_params(scene_name: &str) -> (r: Result<Vec<(String, String)>, CopernicusError>)
    ensures
        match (r, scene_filter_spec(scene_name@)) {
            (Ok(ps), Ok(f)) => params_view(ps@) == seq![("$filter"@, f), ("$expand"@, "Attributes"@)],
            (Err(CopernicusError::InvalidArgument(m)), Err(v)) => m@ == v,
            _ => false,
        },
{
    let filter = scene_search_filter(scene_name)?;
    let r = vec![("$filter".to_owned(), filter), ("$expand".to_owned(), "Attributes".to_owned())];
    assert(params_view(r@) =~= seq![("$filter"@, r@[0].1@), ("$expand"@, "Attributes"@)]);
    Ok(r)
}

/// The error for a catalogue reply with a failure status.
pub fn search_status_failure(status: &str) -> (e: CopernicusError)
    ensures
        e matches CopernicusError::SearchFailed(m) && m@ == "HTTP "@ + status@,
{
    let mut m = String::new();
    push_all(&mut m, "HTTP ");
    push_all(&mut m, status);
    CopernicusError::SearchFailed(m)
}

/// What a scene look-up reply yields: the `Id` of the first product of its
/// `value` array; an error when `value` is no array (unexpected format),
/// is empty (no results), or its first product has no string `Id`.
pub open spec fn scene_id_spec(body: JsonValue) -> Result<Seq<char>, ErrorView> {
    match member(body, "value"@) {
        Some(JsonValue::Array(values)) => if values@.len() == 0 {
            Err(ErrorView::NoResults)
        } else {
            match member(values@[0], "Id"@) {
                Some(JsonValue::Str(id)) => Ok(id@),
                _ => Err(ErrorView::SearchFailed("product has no Id field"@)),
            }
        },
        _ => Err(ErrorView::SearchFailed("unexpected response format"@)),
    }
}

/// Reads the product identifier out of a scene look-up reply.
pub fn scene_id_from_response(body: &JsonValue) -> (r: Result<String, CopernicusError>)
    ensures
        match (r, scene_id_spec(*body)) {
            (Ok(id), Ok(v)) => id@ == v,
            (Err(e), Err(v)) => e@ == v,
            _ => false,
        },
{
    let values = match body.get("value") {
        Some(JsonValue::Array(values)) => values,
        _ => return Err(CopernicusError::SearchFailed("unexpected response format".to_owned())),
    };
    if values.len() == 0 {
        return Err(CopernicusError::NoResults);
    }
    match values[0].get("Id") {
        Some(JsonValue::Str(id)) => Ok(id.clone()),
        _ => Err(CopernicusError::SearchFailed("product has no Id field".to_owned())),
    }
}

/// The positions of the online products of a catalogue reply, given each
/// product's `Online` flag in reply order; no results when the reply is
/// empty or no product is online.
pub fn online_results(online: &Vec<bool>) -> (r: Result<Vec<usize>, CopernicusError>)
    ensures
        match r {
            Ok(idx) => idx@.len() > 0 && (forall|k: int| 0 <= k < idx@.len() ==> #[trigger] idx@[k] < online@.len() && online@[idx@[k] as int])
                && (forall|k: int, l: int| 0 <= k < l < idx@.len() ==> idx@[k] < idx@[l])
                && (forall|j: int| 0 <= j < online@.len() && #[trigger] online@[j] ==> idx@.contains(j as usize)),
            Err(e) => e@ == ErrorView::NoResults && forall|j: int| 0 <= j < online@.len() ==> !#[trigger] online@[j],
        },
{
    let mut idx: Vec<usize> = Vec::new();
    let mut i: usize = 0;
    while i < online.len()
        invariant
            i <= online@.len(),
            forall|k: int| 0 <= k < idx@.len() ==> #[trigger] idx@[k] < i && online@[idx@[k] as int],
            forall|k: int, l: int| 0 <= k < l < idx@.len() ==> idx@[k] < idx@[l],
            forall|j: int| 0 <= j < i && #[trigger] online@[j] ==> idx@.contains(j as usize),
        decreases online@.len() - i,
    {
        if online[i] {
            let ghost before = idx@;
            idx.push(i);
            assert forall|j: int| 0 <= j <= i && #[trigger] online@[j] implies idx@.contains(j as usize) by {
                if j < i {
                    let k = choose|k: int| 0 <= k < before.len() && before[k] == j as usize;
                    assert(idx@[k] == j as usize);
                } else {
                    assert(idx@[idx@.len() - 1] == i);
                }
            }
        }
        i += 1;
    }
    if idx.len() == 0 {
        assert forall|j: int| 0 <= j < online@.len() implies !#[trigger] online@[j] by {
            if online@[j] {
                assert(idx@.contains(j as usize));
            }
        }
        return Err(CopernicusError::NoResults);
    }
    Ok(idx)
}

} // verus!
