use copernicus_explorer::dates::UtcDateTime;
use copernicus_explorer::error::CopernicusError;
use copernicus_explorer::form::{
    date_range, date_range_checked, form_query, form_wants_geojson, options_geometry, parse_date,
    parse_u32, NumberReading,
    NumbersReading,
};
use copernicus_explorer::geometry::{Geometry, Point};
use copernicus_explorer::models::Satellite;
use copernicus_explorer::session::SearchParams;

fn params() -> SearchParams {
    SearchParams {
        satellite: Satellite::Sentinel2,
        product: "L2A".to_string(),
        start_date: "2024-01-01".to_string(),
        end_date: "2024-01-08".to_string(),
        tile: String::new(),
        cloud_cover: "15".to_string(),
        point: String::new(),
        bbox: String::new(),
        geojson: String::new(),
        max_results: "10".to_string(),
    }
}

fn cloud(x: f64) -> NumberReading {
    NumberReading::Number { text: format!("{x:.2}"), positive: x > 0.0 }
}

fn numbers(xs: &[f64]) -> NumbersReading {
    NumbersReading::Numbers(xs.iter().map(|x| x.to_string()).collect())
}

fn none() -> NumbersReading {
    NumbersReading::Numbers(vec![])
}

fn err(r: Result<copernicus_explorer::search::SearchQuery, String>) -> String {
    match r {
        Err(m) => m,
        Ok(_) => panic!("expected an error"),
    }
}

#[test]
fn form_builds_the_filter() {
    let mut p = params();
    p.point = "43.6,1.44".to_string();
    let q = form_query(&p, &cloud(15.0), &numbers(&[43.6, 1.44]), &none(), None).unwrap();
    let f = q.build_filter().unwrap();
    assert!(f.starts_with("Collection/Name eq 'SENTINEL-2' and contains(Name,'L2A')"));
    assert!(f.contains("ContentDate/Start gt 2024-01-01T00:00:00.000Z and ContentDate/Start lt 2024-01-08T00:00:00.000Z"));
    assert!(f.contains("Value lt 15.00"));
    assert!(f.ends_with("POINT(1.44 43.6)')"));
    let ps = q.search_params().unwrap();
    assert_eq!(ps[2], ("$top".to_string(), "10".to_string()));
}

#[test]
fn form_skips_cloud_for_sentinel1_and_zero() {
    let mut p = params();
    p.satellite = Satellite::Sentinel1;
    p.product = String::new();
    let q = form_query(&p, &NumberReading::Invalid, &none(), &none(), None).unwrap();
    assert!(!q.build_filter().unwrap().contains("cloudCover"));
    let q = form_query(&params(), &cloud(0.0), &none(), &none(), None).unwrap();
    assert!(!q.build_filter().unwrap().contains("cloudCover"));
}

#[test]
fn form_problems_in_order() {
    let mut p = params();
    p.start_date = "2024-13-01".to_string();
    assert!(err(form_query(&p, &cloud(1.0), &none(), &none(), None)).starts_with("Invalid start date: "));
    let mut p = params();
    p.end_date = "soon".to_string();
    assert!(err(form_query(&p, &cloud(1.0), &none(), &none(), None)).starts_with("Invalid end date: "));
    let mut p = params();
    p.cloud_cover = "lots".to_string();
    assert_eq!(err(form_query(&p, &NumberReading::Invalid, &none(), &none(), None)), "Invalid cloud cover: lots");
    let mut p = params();
    p.point = "1,2,3".to_string();
    assert_eq!(err(form_query(&p, &cloud(1.0), &numbers(&[1.0, 2.0, 3.0]), &none(), None)), "Point must be lat,lon");
    p.point = "x".to_string();
    assert_eq!(
        err(form_query(&p, &cloud(1.0), &NumbersReading::Invalid("bad".into()), &none(), None)),
        "Invalid point: x"
    );
    let mut p = params();
    p.bbox = "1,2".to_string();
    assert_eq!(
        err(form_query(&p, &cloud(1.0), &none(), &numbers(&[1.0, 2.0]), None)),
        "BBox must be tlat,llon,blat,rlon"
    );
    let mut p = params();
    p.geojson = "missing.geojson".to_string();
    assert!(form_wants_geojson(&p));
    assert_eq!(
        err(form_query(&p, &cloud(1.0), &none(), &none(), Some(Err("no file".into())))),
        "Invalid GeoJSON: no file"
    );
    let mut p = params();
    p.max_results = "-3".to_string();
    assert_eq!(err(form_query(&p, &cloud(1.0), &none(), &none(), None)), "Invalid max results: -3");
}

#[test]
fn form_uses_geojson_geometry() {
    let mut p = params();
    p.geojson = "area.geojson".to_string();
    let g = Geometry::Point(Point::new("1".to_string(), "2".to_string()));
    let q = form_query(&p, &cloud(1.0), &none(), &none(), Some(Ok(g))).unwrap();
    assert!(q.build_filter().unwrap().ends_with("POINT(2 1)')"));
    p.point = "3,4".to_string();
    assert!(!form_wants_geojson(&p));
}

#[test]
fn form_max_results_default() {
    let mut p = params();
    p.max_results = String::new();
    let q = form_query(&p, &cloud(1.0), &none(), &none(), None).unwrap();
    assert_eq!(q.search_params().unwrap()[2].1, "10");
    p.max_results = "+25".to_string();
    let q = form_query(&p, &cloud(1.0), &none(), &none(), None).unwrap();
    assert_eq!(q.search_params().unwrap()[2].1, "25");
}

#[test]
fn parse_u32_matches_std() {
    let samples = [
        "", "+", "-", "0", "+0", "-0", "007", "42", " 42", "42 ", "4_2", "4294967295", "4294967296",
        "+4294967295", "99999999999999999999", "1a", "٣", "++1", "+-1", "10",
    ];
    for s in samples {
        assert_eq!(parse_u32(s), s.parse::<u32>().ok(), "input {s:?}");
    }
}

#[test]
fn command_line_geometry() {
    match options_geometry(Some("43.6,1.44"), &numbers(&[43.6, 1.44]), None, &none()).unwrap() {
        Some(g) => assert_eq!(g.to_wkt(), "POINT(1.44 43.6)"),
        None => panic!("expected a point"),
    }
    match options_geometry(Some("1,2,3"), &numbers(&[1.0, 2.0, 3.0]), None, &none()) {
        Err(CopernicusError::InvalidArgument(m)) => {
            assert_eq!(m, "--point requires exactly 2 values (lat,lon), got 3")
        }
        other => panic!("unexpected {other:?}"),
    }
    match options_geometry(None, &none(), Some("a,b"), &NumbersReading::Invalid("invalid float literal".into())) {
        Err(CopernicusError::InvalidArgument(m)) => assert_eq!(
            m,
            "invalid --bbox 'a,b' (expected tlat,llon,blat,rlon): invalid float literal"
        ),
        other => panic!("unexpected {other:?}"),
    }
    assert!(options_geometry(None, &none(), None, &none()).unwrap().is_none());
}

#[test]
fn command_line_dates() {
    let t = parse_date("2024-03-01").unwrap();
    assert_eq!(t.timestamp(), 1_709_251_200);
    assert_eq!(t.timestamp_subsec_nanos(), 0);
    match parse_date("2024-02-30") {
        Err(CopernicusError::InvalidArgument(m)) => {
            assert!(m.starts_with("invalid date '2024-02-30' (expected YYYY-MM-DD): "))
        }
        other => panic!("unexpected {other:?}"),
    }
}

#[test]
fn window_defaults_to_thirty_days() {
    let now = UtcDateTime::from_timestamp(1_709_251_200 + 3_600, 5).unwrap();
    let (s, e) = date_range(None, None, now).unwrap();
    assert_eq!(e.timestamp(), now.timestamp());
    assert_eq!(s.timestamp(), now.timestamp() - 2_592_000);
    assert_eq!(s.timestamp_subsec_nanos(), 5);
    let (s, e) = date_range(None, Some("2024-03-01"), now).unwrap();
    assert_eq!(e.timestamp(), 1_709_251_200);
    assert_eq!(s.timestamp(), 1_709_251_200 - 2_592_000);
    let (s, _) = date_range(Some("2024-02-01"), None, now).unwrap();
    assert_eq!(s.timestamp(), 1_706_745_600);
    match date_range(Some("bad"), Some("worse"), now) {
        Err(CopernicusError::InvalidArgument(m)) => assert!(m.starts_with("invalid date 'worse'")),
        other => panic!("unexpected {other:?}"),
    }
    assert!(date_range_checked(None, None, now).is_some());
    let earliest = UtcDateTime::from_timestamp(chrono::DateTime::<chrono::Utc>::MIN_UTC.timestamp(), 0).unwrap();
    assert!(date_range_checked(None, None, earliest).is_none());
}
