//! Turning what the user typed into a search query: the filters of the
//! terminal interface, and the geometry and dates of the command line.
//!
//! Numbers with a fractional part are read by the caller (they are floating
//! point); the library receives them as the decimal text of the value read.

use vstd::prelude::*;
use crate::dates::{day_parse, decimal_string, decimal_text, numeral_value, UtcDateTime};
use crate::error::CopernicusError;
use crate::geometry::{BoundingBox, Geometry, GeometryView, Point};
use crate::models::Satellite;
use crate::search::{is_digit, SearchQuery, SearchQueryView};
use crate::session::SearchParams;
use crate::text::{chars_of, push_all};

verus! {

/// A number as the caller read it: its text and whether it is above zero,
/// or not a number.
#[derive(Debug)]
pub enum NumberReading {
    Number { text: String, positive: bool },
    Invalid,
}

impl View for NumberReading {
    type V = Option<(Seq<char>, bool)>;

    open spec fn view(&self) -> Option<(Seq<char>, bool)> {
        match self {
            NumberReading::Number { text, positive } => Some((text@, *positive)),
            NumberReading::Invalid => None,
        }
    }
}

/// A comma-separated list of numbers as the caller read it: the numbers'
/// texts, or the message of the first entry that is not a number.
#[derive(Debug)]
pub enum NumbersReading {
    Numbers(Vec<String>),
    Invalid(String),
}

impl View for NumbersReading {
    type V = Result<Seq<Seq<char>>, Seq<char>>;

    open spec fn view(&self) -> Result<Seq<Seq<char>>, Seq<char>> {
        match self {
            NumbersReading::Numbers(v) => Ok(crate::text::strings_view(v@)),
            NumbersReading::Invalid(m) => Err(m@),
        }
    }
}

/// The digits of an unsigned numeral: `s` without one leading `+`.
pub open spec fn unsigned_digits(s: Seq<char>) -> Seq<char> {
    if s.len() > 0 && s[0] == '+' {
        s.skip(1)
    } else {
        s
    }
}

/// Every character of `d` is an ASCII digit.
pub open spec fn all_digits(d: Seq<char>) -> bool {
    forall|i: int| 0 <= i < d.len() ==> is_digit(#[trigger] d[i])
}

/// The value of `s` as `u32`'s `FromStr` reads it: an optional `+`, then
/// one or more ASCII digits, of value at most `u32::MAX`.
pub open spec fn u32_value(s: Seq<char>) -> Option<nat> {
    let d = unsigned_digits(s);
    if d.len() > 0 && all_digits(d) && numeral_value(d, 0, d.len() as int) <= u32::MAX {
        Some(numeral_value(d, 0, d.len() as int) as nat)
    } else {
        None
    }
}

/// A numeral only grows as digits are added to it.
proof fn lemma_numeral_grows(s: Seq<char>, i: int, j: int)
    requires
        0 <= i <= j <= s.len(),
        forall|k: int| 0 <= k < s.len() ==> is_digit(#[trigger] s[k]),
    ensures
        numeral_value(s, 0, i) <= numeral_value(s, 0, j),
    decreases j - i,
{
    if i < j {
        lemma_numeral_grows(s, i, j - 1);
        assert(is_digit(s[j - 1]));
        assert(numeral_value(s, 0, j - 1) >= 0) by {
            crate::search::lemma_numeral_bound(s, 0, j - 1);
        }
    }
}

/// Reads a `u32` as its `FromStr` does (see `u32_value`).
#[verifier::rlimit(40)]
pub fn parse_u32(s: &str) -> (r: Option<u32>)
    ensures
        match (r, u32_value(s@)) {
            (Some(n), Some(v)) => n == v,
            (None, None) => true,
            _ => false,
        },
{
    let cs = chars_of(s);
    let start: usize = if cs.len() > 0 && cs[0] == '+' {
        1
    } else {
        0
    };
    let ghost d = unsigned_digits(s@);
    assert(d =~= cs@.skip(start as int));
    if start >= cs.len() {
        return None;
    }
    let mut k: usize = start;
    while k < cs.len()
        invariant
            start <= k <= cs.len(),
            cs@ == s@,
            d == cs@.skip(start as int),
            d == unsigned_digits(s@),
            d.len() > 0,
            forall|i: int| 0 <= i < k - start ==> is_digit(#[trigger] d[i]),
        decreases cs.len() - k,
    {
        if !('0' <= cs[k] && cs[k] <= '9') {
            proof {
                let j = k - start;
                assert(d.len() == cs@.len() - start);
                assert(d[j] == cs@[k as int]);
                assert(!is_digit(d[j]));
                assert(!all_digits(d));
            }
            return None;
        }
        k += 1;
    }
    let mut v: u64 = 0;
    let mut i: usize = start;
    while i < cs.len()
        invariant
            start <= i <= cs.len(),
            cs@ == s@,
            d == cs@.skip(start as int),
            d == unsigned_digits(s@),
            d.len() > 0,
            all_digits(d),
            v == numeral_value(d, 0, i - start),
            v <= u32::MAX,
        decreases cs.len() - i,
    {
        assert(d[i - start] == cs@[i as int]);
        assert(is_digit(d[i - start]));
        let digit = (cs[i] as u32 - '0' as u32) as u64;
        assert(numeral_value(d, 0, i + 1 - start) == numeral_value(d, 0, i - start) * 10 + digit);
        let next = v * 10 + digit;
        if next > 0xffff_ffff {
            proof {
                lemma_numeral_grows(d, i + 1 - start, d.len() as int);
            }
            return None;
        }
        v = next;
        i += 1;
    }
    Some(v as u32)
}

/// A geometry from the given numbers: a point of `[lat, lon]`, a box of
/// `[top lat, left lon, bottom lat, right lon]`.
pub open spec fn point_view(v: Seq<Seq<char>>) -> GeometryView {
    GeometryView::Point { lat: v[0], lon: v[1] }
}

/// The box of `[top lat, left lon, bottom lat, right lon]`.
pub open spec fn bbox_view(v: Seq<Seq<char>>) -> GeometryView {
    GeometryView::BoundingBox { upper_left: (v[0], v[1]), lower_right: (v[2], v[3]) }
}

/// The form asks for a GeoJSON file: a path is given and neither a point
/// nor a box.
pub open spec fn wants_geojson(p: SearchParams) -> bool {
    p.point@.len() == 0 && p.bbox@.len() == 0 && p.geojson@.len() > 0
}

/// The cloud cover is read: it is given and the mission is not Sentinel-1
/// (whose catalogue rejects it).
pub open spec fn cloud_checked(p: SearchParams) -> bool {
    p.cloud_cover@.len() > 0 && p.satellite != Satellite::Sentinel1
}

/// The first problem of a filled-in form, in the order the filters are
/// read: dates, cloud cover, geometry (point, else box, else GeoJSON), and
/// the number of results.
pub open spec fn form_problem(
    p: SearchParams,
    cloud: Option<(Seq<char>, bool)>,
    point: Result<Seq<Seq<char>>, Seq<char>>,
    bbox: Result<Seq<Seq<char>>, Seq<char>>,
    geojson: Option<Result<Geometry, Seq<char>>>,
) -> Option<Seq<char>> {
    let dated = p.start_date@.len() > 0 && p.end_date@.len() > 0;
    if dated && day_parse(p.start_date@) is Err {
        Some("Invalid start date: "@ + day_parse(p.start_date@)->Err_0)
    } else if dated && day_parse(p.end_date@) is Err {
        Some("Invalid end date: "@ + day_parse(p.end_date@)->Err_0)
    } else if cloud_checked(p) && cloud is None {
        Some("Invalid cloud cover: "@ + p.cloud_cover@)
    } else if p.point@.len() > 0 && point is Err {
        Some("Invalid point: "@ + p.point@)
    } else if p.point@.len() > 0 && point->Ok_0.len() != 2 {
        Some("Point must be lat,lon"@)
    } else if p.point@.len() == 0 && p.bbox@.len() > 0 && bbox is Err {
        Some("Invalid bbox: "@ + p.bbox@)
    } else if p.point@.len() == 0 && p.bbox@.len() > 0 && bbox->Ok_0.len() != 4 {
        Some("BBox must be tlat,llon,blat,rlon"@)
    } else if wants_geojson(p) && geojson matches Some(Err(_)) {
        Some("Invalid GeoJSON: "@ + geojson->Some_0->Err_0)
    } else if p.max_results@.len() > 0 && u32_value(p.max_results@) is None {
        Some("Invalid max results: "@ + p.max_results@)
    } else {
        None
    }
}

/// The query of a form with no problem: the mission; the product type,
/// dates, tile and cloud cover (above zero) that are given; the point, box
/// or GeoJSON geometry; and the number of results (10 when not given).
pub open spec fn form_query_fits(
    q: SearchQueryView,
    p: SearchParams,
    cloud: Option<(Seq<char>, bool)>,
    point: Result<Seq<Seq<char>>, Seq<char>>,
    bbox: Result<Seq<Seq<char>>, Seq<char>>,
    geojson: Option<Result<Geometry, Seq<char>>>,
) -> bool {
    &&& q.satellite == p.satellite
    &&& q.product == if p.product@.len() > 0 {
        Some(p.product@)
    } else {
        None
    }
    &&& match q.date_range {
        Some((s, e)) => {
            &&& p.start_date@.len() > 0 && p.end_date@.len() > 0
            &&& day_parse(p.start_date@) == Ok::<int, Seq<char>>(s.secs_spec()) && s.nanos_spec() == 0
            &&& day_parse(p.end_date@) == Ok::<int, Seq<char>>(e.secs_spec()) && e.nanos_spec() == 0
        },
        None => !(p.start_date@.len() > 0 && p.end_date@.len() > 0),
    }
    &&& q.tile == if p.tile@.len() > 0 {
        Some(p.tile@)
    } else {
        None
    }
    &&& q.max_cloud_cover == if cloud_checked(p) && cloud matches Some((_, true)) {
        Some(cloud->Some_0.0)
    } else {
        None
    }
    &&& if p.point@.len() > 0 {
        q.geometry matches Some(g) && g@ == point_view(point->Ok_0)
    } else if p.bbox@.len() > 0 {
        q.geometry matches Some(g) && g@ == bbox_view(bbox->Ok_0)
    } else if wants_geojson(p) {
        geojson matches Some(Ok(g)) && q.geometry == Some(g)
    } else {
        q.geometry is None
    }
    &&& q.max_results == if p.max_results@.len() > 0 {
        u32_value(p.max_results@)->Some_0
    } else {
        10
    }
}

/// The GeoJSON outcome as plain values.
pub open spec fn geojson_view(g: Option<Result<Geometry, String>>) -> Option<Result<Geometry, Seq<char>>> {
    match g {
        Some(Ok(x)) => Some(Ok(x)),
        Some(Err(m)) => Some(Err(m@)),
        None => None,
    }
}

/// Whether the form asks for a GeoJSON file, which the caller then reads
/// and hands to `form_query`.
pub fn form_wants_geojson(p: &SearchParams) -> (r: bool)
    ensures
        r == wants_geojson(*p),
{
    p.point.as_str().is_empty() && p.bbox.as_str().is_empty() && !p.geojson.as_str().is_empty()
}

/// `a` followed by `b`.
fn joined(a: &str, b: &str) -> (r: String)
    ensures
        r@ == a@ + b@,
{
    let mut r = a.to_owned();
    push_all(&mut r, b);
    r
}

/// The search query of the interface's filters (already trimmed), with the
/// numbers the caller read from the cloud cover, point and box fields and,
/// where the form asks for one, the GeoJSON file's geometry (or the message
/// saying why it could not be read); or the message of the form's first
/// problem.
pub fn form_query(
    p: &SearchParams,
    cloud: &NumberReading,
    point: &NumbersReading,
    bbox: &NumbersReading,
    geojson: Option<Result<Geometry, String>>,
) -> (r: Result<SearchQuery, String>)
    requires
        wants_geojson(*p) ==> geojson is Some,
    ensures
        match form_problem(*p, cloud@, point@, bbox@, geojson_view(geojson)) {
            Some(m) => r matches Err(e) && e@ == m,
            None => r matches Ok(q) && form_query_fits(
                q@,
                *p,
                cloud@,
                point@,
                bbox@,
                geojson_view(geojson),
            ),
        },
{
    let mut query = SearchQuery::new(p.satellite);
    if !p.product.as_str().is_empty() {
        query = query.product(p.product.as_str());
    }
    if !p.start_date.as_str().is_empty() && !p.end_date.as_str().is_empty() {
        let start = match UtcDateTime::parse_day(p.start_date.as_str()) {
            Ok(t) => t,
            Err(e) => return Err(joined("Invalid start date: ", e.as_str())),
        };
        let end = match UtcDateTime::parse_day(p.end_date.as_str()) {
            Ok(t) => t,
            Err(e) => return Err(joined("Invalid end date: ", e.as_str())),
        };
        query = query.dates(start, end);
    }
    if !p.tile.as_str().is_empty() {
        query = query.tile(p.tile.as_str());
    }
    if !p.cloud_cover.as_str().is_empty() && p.satellite != Satellite::Sentinel1 {
        match cloud {
            NumberReading::Number { text, positive } => {
                if *positive {
                    query = query.max_cloud_cover(text.as_str());
                }
            },
            NumberReading::Invalid => {
                return Err(joined("Invalid cloud cover: ", p.cloud_cover.as_str()));
            },
        }
    }
    if !p.point.as_str().is_empty() {
        match point {
            NumbersReading::Numbers(v) => {
                if v.len() != 2 {
                    return Err("Point must be lat,lon".to_owned());
                }
                let g = Geometry::Point(Point::new(v[0].clone(), v[1].clone()));
                query = query.geometry(g);
            },
            NumbersReading::Invalid(_) => {
                return Err(joined("Invalid point: ", p.point.as_str()));
            },
        }
    } else if !p.bbox.as_str().is_empty() {
        match bbox {
            NumbersReading::Numbers(v) => {
                if v.len() != 4 {
                    return Err("BBox must be tlat,llon,blat,rlon".to_owned());
                }
                let g = Geometry::BoundingBox(
                    BoundingBox::new((v[0].clone(), v[1].clone()), (v[2].clone(), v[3].clone())),
                );
                query = query.geometry(g);
            },
            NumbersReading::Invalid(_) => {
                return Err(joined("Invalid bbox: ", p.bbox.as_str()));
            },
        }
    } else if !p.geojson.as_str().is_empty() {
        match geojson {
            Some(Ok(g)) => {
                query = query.geometry(g);
            },
            Some(Err(e)) => {
                return Err(joined("Invalid GeoJSON: ", e.as_str()));
            },
            None => {
                proof {
                    assert(false);
                }
            },
        }
    }
    let max: u32 = if p.max_results.as_str().is_empty() {
        10
    } else {
        match parse_u32(p.max_results.as_str()) {
            Some(n) => n,
            None => {
                return Err(joined("Invalid max results: ", p.max_results.as_str()));
            },
        }
    };
    query = query.max_results(max);
    Ok(query)
}

/// The message for a command-line date that is not `YYYY-MM-DD`.
pub open spec fn bad_date_message(s: Seq<char>, e: Seq<char>) -> Seq<char> {
    "invalid date '"@ + s + "' (expected YYYY-MM-DD): "@ + e
}

/// Midnight UTC of a command-line `YYYY-MM-DD` date, or the
/// invalid-argument error saying why it is not one.
pub fn parse_date(s: &str) -> (r: Result<UtcDateTime, CopernicusError>)
    ensures
        match (r, day_parse(s@)) {
            (Ok(t), Ok(secs)) => t.secs_spec() == secs && t.nanos_spec() == 0,
            (Err(CopernicusError::InvalidArgument(m)), Err(e)) => m@ == bad_date_message(s@, e),
            _ => false,
        },
{
    match UtcDateTime::parse_day(s) {
        Ok(t) => Ok(t),
        Err(e) => {
            let mut m = "invalid date '".to_owned();
            push_all(&mut m, s);
            push_all(&mut m, "' (expected YYYY-MM-DD): ");
            push_all(&mut m, e.as_str());
            Err(CopernicusError::InvalidArgument(m))
        },
    }
}

/// What the command line's `--point` or `--bbox` option gives: the
/// geometry, or the message of the invalid-argument error. `flag` is the
/// option's name, `shape` how its values are written, `count` how many it
/// takes.
pub open spec fn option_geometry(
    flag: Seq<char>,
    shape: Seq<char>,
    count: nat,
    text: Seq<char>,
    numbers: Result<Seq<Seq<char>>, Seq<char>>,
) -> Result<Seq<Seq<char>>, Seq<char>> {
    match numbers {
        Err(e) => Err("invalid --"@ + flag + " '"@ + text + "' (expected "@ + shape + "): "@ + e),
        Ok(v) => if v.len() != count {
            Err("--"@ + flag + " requires exactly "@ + decimal_text(count) + " values ("@ + shape
                + "), got "@ + decimal_text(v.len()))
        } else {
            Ok(v)
        },
    }
}

/// The numbers of an option, or the message about them.
fn option_numbers(
    flag: &str,
    shape: &str,
    count: usize,
    text: &str,
    numbers: &NumbersReading,
) -> (r: Result<Vec<String>, String>)
    requires
        count < 10,
    ensures
        match (r, option_geometry(flag@, shape@, count as nat, text@, numbers@)) {
            (Ok(v), Ok(w)) => crate::text::strings_view(v@) == w,
            (Err(m), Err(w)) => m@ == w,
            _ => false,
        },
{
    match numbers {
        NumbersReading::Invalid(e) => {
            let mut m = "invalid --".to_owned();
            push_all(&mut m, flag);
            push_all(&mut m, " '");
            push_all(&mut m, text);
            push_all(&mut m, "' (expected ");
            push_all(&mut m, shape);
            push_all(&mut m, "): ");
            push_all(&mut m, e.as_str());
            Err(m)
        },
        NumbersReading::Numbers(v) => {
            if v.len() != count {
                let mut m = "--".to_owned();
                push_all(&mut m, flag);
                push_all(&mut m, " requires exactly ");
                push_all(&mut m, decimal_string(count as u64).as_str());
                push_all(&mut m, " values (");
                push_all(&mut m, shape);
                push_all(&mut m, "), got ");
                push_all(&mut m, decimal_string(v.len() as u64).as_str());
                Err(m)
            } else {
                let mut w: Vec<String> = Vec::new();
                let mut i: usize = 0;
                while i < v.len()
                    invariant
                        i <= v@.len(),
                        crate::text::strings_view(w@) == crate::text::strings_view(v@).take(i as int),
                    decreases v@.len() - i,
                {
                    let ghost w0 = crate::text::strings_view(w@);
                    w.push(v[i].clone());
                    assert(crate::text::strings_view(w@) =~= w0.push(v@[i as int]@));
                    assert(crate::text::strings_view(v@).take(i + 1) =~= crate::text::strings_view(
                        v@,
                    ).take(i as int).push(v@[i as int]@));
                    i += 1;
                }
                assert(crate::text::strings_view(v@).take(v@.len() as int) =~= crate::text::strings_view(v@));
                Ok(w)
            }
        },
    }
}

/// The geometry of the command line's `--point lat,lon` or (when no point
/// is given) `--bbox tlat,llon,blat,rlon`, from the numbers the caller read
/// from them; `None` without either.
pub fn options_geometry(
    point: Option<&str>,
    point_numbers: &NumbersReading,
    bbox: Option<&str>,
    bbox_numbers: &NumbersReading,
) -> (r: Result<Option<Geometry>, CopernicusError>)
    ensures
        match point {
            Some(p) => match option_geometry("point"@, "lat,lon"@, 2, p@, point_numbers@) {
                Ok(v) => r matches Ok(Some(g)) && g@ == point_view(v),
                Err(m) => r matches Err(CopernicusError::InvalidArgument(e)) && e@ == m,
            },
            None => match bbox {
                Some(b) => match option_geometry("bbox"@, "tlat,llon,blat,rlon"@, 4, b@, bbox_numbers@) {
                    Ok(v) => r matches Ok(Some(g)) && g@ == bbox_view(v),
                    Err(m) => r matches Err(CopernicusError::InvalidArgument(e)) && e@ == m,
                },
                None => r matches Ok(None),
            },
        },
{
    if let Some(p) = point {
        return match option_numbers("point", "lat,lon", 2, p, point_numbers) {
            Ok(v) => Ok(Some(Geometry::Point(Point::new(v[0].clone(), v[1].clone())))),
            Err(m) => Err(CopernicusError::InvalidArgument(m)),
        };
    }
    if let Some(b) = bbox {
        return match option_numbers("bbox", "tlat,llon,blat,rlon", 4, b, bbox_numbers) {
            Ok(v) => Ok(
                Some(
                    Geometry::BoundingBox(
                        BoundingBox::new((v[0].clone(), v[1].clone()), (v[2].clone(), v[3].clone())),
                    ),
                ),
            ),
            Err(m) => Err(CopernicusError::InvalidArgument(m)),
        };
    }
    Ok(None)
}

/// Thirty days in seconds: how far before the end a default start lies.
pub const DEFAULT_WINDOW_SECS: i64 = 2592000;

/// The end of the acquisition window as seconds and nanoseconds: the
/// given date's midnight, or `now`; or the message of the bad date.
pub open spec fn window_end(end: Option<Seq<char>>, now: UtcDateTime) -> Result<(int, int), Seq<char>> {
    match end {
        Some(e) => match day_parse(e) {
            Ok(secs) => Ok((secs, 0)),
            Err(m) => Err(bad_date_message(e, m)),
        },
        None => Ok((now.secs_spec(), now.nanos_spec())),
    }
}

/// Where no start is given, the default start (thirty days before the
/// end) is an instant chrono represents; chrono's subtraction panics
/// otherwise.
pub open spec fn default_start_fits(
    start: Option<Seq<char>>,
    end: Option<Seq<char>>,
    now: UtcDateTime,
) -> bool {
    start is None ==> match window_end(end, now) {
        Ok((secs, nanos)) => i64::MIN <= secs - DEFAULT_WINDOW_SECS && crate::dates::instant_text(
            secs - DEFAULT_WINDOW_SECS,
            nanos,
        ) is Some,
        Err(_) => true,
    }
}

/// The acquisition window of the command line: the end date (midnight) or
/// `now`; the start date (midnight) or thirty days before the end, at the
/// same time of day; the error of the first bad date, the end read first.
pub open spec fn window_outcome(
    r: Result<(UtcDateTime, UtcDateTime), CopernicusError>,
    start: Option<Seq<char>>,
    end: Option<Seq<char>>,
    now: UtcDateTime,
) -> bool {
    match window_end(end, now) {
        Err(m) => r matches Err(CopernicusError::InvalidArgument(x)) && x@ == m,
        Ok((es, en)) => match start {
            Some(st) => match day_parse(st) {
                Err(m) => r matches Err(CopernicusError::InvalidArgument(x)) && x@ == bad_date_message(st, m),
                Ok(ss) => r matches Ok((a, b)) && a.secs_spec() == ss && a.nanos_spec() == 0
                    && b.secs_spec() == es && b.nanos_spec() == en,
            },
            None => r matches Ok((a, b)) && a.secs_spec() == es - DEFAULT_WINDOW_SECS && a.nanos_spec()
                == en && b.secs_spec() == es && b.nanos_spec() == en,
        },
    }
}

/// The plain value of an optional string.
pub open spec fn opt_text(s: Option<&str>) -> Option<Seq<char>> {
    match s {
        Some(x) => Some(x@),
        None => None,
    }
}

/// The acquisition window of the command line (see `window_outcome`).
pub fn date_range(start: Option<&str>, end: Option<&str>, now: UtcDateTime) -> (r: Result<
    (UtcDateTime, UtcDateTime),
    CopernicusError,
>)
    requires
        default_start_fits(opt_text(start), opt_text(end), now),
    ensures
        window_outcome(r, opt_text(start), opt_text(end), now),
{
    let end_t = match end {
        Some(e) => parse_date(e)?,
        None => now,
    };
    let start_t = match start {
        Some(st) => parse_date(st)?,
        None => {
            let secs = end_t.timestamp();
            let nanos = end_t.timestamp_subsec_nanos();
            match UtcDateTime::from_timestamp(secs - DEFAULT_WINDOW_SECS, nanos) {
                Some(t) => t,
                None => {
                    proof {
                        assert(false);
                    }
                    end_t
                },
            }
        },
    };
    Ok((start_t, end_t))
}

/// The acquisition window (see `window_outcome`), or `None` where no start
/// is given and thirty days before the end is outside chrono's range.
pub fn date_range_checked(start: Option<&str>, end: Option<&str>, now: UtcDateTime) -> (r: Option<
    Result<(UtcDateTime, UtcDateTime), CopernicusError>,
>)
    ensures
        r is None <==> !default_start_fits(opt_text(start), opt_text(end), now),
        r matches Some(x) ==> window_outcome(x, opt_text(start), opt_text(end), now),
{
    let fits = match start {
        Some(_) => true,
        None => {
            let end_t = match end {
                Some(e) => match parse_date(e) {
                    Ok(t) => Some(t),
                    Err(_) => None,
                },
                None => Some(now),
            };
            match end_t {
                Some(t) => {
                    let secs = t.timestamp();
                    secs >= i64::MIN + DEFAULT_WINDOW_SECS && UtcDateTime::from_timestamp(
                        secs - DEFAULT_WINDOW_SECS,
                        t.timestamp_subsec_nanos(),
                    ).is_some()
                },
                None => true,
            }
        },
    };
    if fits {
        Some(date_range(start, end, now))
    } else {
        None
    }
}

} // verus!
