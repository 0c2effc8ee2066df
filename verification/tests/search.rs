use copernicus_explorer::dates::UtcDateTime;
use copernicus_explorer::error::CopernicusError;
use copernicus_explorer::json::{JsonMember, JsonValue};
use copernicus_explorer::models::Satellite;
use copernicus_explorer::search::{
    extract_sensing_date, online_results, scene_id_from_response, scene_search_filter,
    SearchQuery,
};

/// Cloud cover as the query holds it: two decimals.
fn cloud(x: f64) -> String {
    format!("{x:.2}")
}

#[test]
fn extract_date_from_s2_name() {
    let name = "S2B_MSIL2A_20200804T183919_N0500_R070_T11UPT_20230321T050221";
    assert_eq!(extract_sensing_date(name), Some("20200804".to_string()));
}

#[test]
fn extract_date_from_s1_name() {
    let name = "S1A_IW_GRDH_1SDV_20141031T161924_20141031T161949_003076_003856_634E";
    assert_eq!(extract_sensing_date(name), Some("20141031".to_string()));
}

#[test]
fn extract_date_absent() {
    assert_eq!(extract_sensing_date("no_date_here"), None);
    assert_eq!(extract_sensing_date(""), None);
}

#[test]
fn build_filter_basic() {
    let query = SearchQuery::new(Satellite::Sentinel2);
    let filter = query.build_filter().unwrap();
    assert_eq!(filter, "Collection/Name eq 'SENTINEL-2'");
}

#[test]
fn build_filter_with_product() {
    let query = SearchQuery::new(Satellite::Sentinel2).product("L2A");
    let filter = query.build_filter().unwrap();
    assert!(filter.contains("contains(Name,'L2A')"));
}

#[test]
fn build_filter_cloud_on_sentinel1_fails() {
    let query = SearchQuery::new(Satellite::Sentinel1).max_cloud_cover(&cloud(20.0));
    assert!(query.build_filter().is_err());
}

#[test]
fn build_filter_tile_on_sentinel1_fails() {
    let query = SearchQuery::new(Satellite::Sentinel1).tile("T31TFJ");
    assert!(query.build_filter().is_err());
}

#[test]
fn build_filter_valid_product_s2() {
    let query = SearchQuery::new(Satellite::Sentinel2).product("L2A");
    assert!(query.build_filter().is_ok());
}

#[test]
fn build_filter_invalid_product_s2() {
    let query = SearchQuery::new(Satellite::Sentinel2).product("GRD");
    let err = query.build_filter().unwrap_err();
    let msg = err.message();
    assert!(msg.contains("unknown product type"));
    assert!(msg.contains("L1C, L2A"));
}

#[test]
fn build_filter_valid_product_s3() {
    let query = SearchQuery::new(Satellite::Sentinel3).product("SL_2_LST");
    assert!(query.build_filter().is_ok());
}

#[test]
fn build_filter_invalid_product_s3() {
    let query = SearchQuery::new(Satellite::Sentinel3).product("L2A");
    assert!(query.build_filter().is_err());
}

#[test]
fn build_filter_valid_product_s1() {
    for p in &["GRD", "SLC", "OCN", "RAW"] {
        let query = SearchQuery::new(Satellite::Sentinel1).product(p);
        assert!(query.build_filter().is_ok(), "expected {p} to be valid for S1");
    }
}

#[test]
fn is_valid_product_case_insensitive() {
    assert!(Satellite::Sentinel2.is_valid_product("l2a"));
    assert!(Satellite::Sentinel2.is_valid_product("L2A"));
    assert!(Satellite::Sentinel1.is_valid_product("grd"));
}

#[test]
fn is_valid_product_by_containment() {
    assert!(Satellite::Sentinel2.is_valid_product("MSIL2A"));
    assert!(!Satellite::Sentinel2.is_valid_product("GRD"));
    assert!(!Satellite::Sentinel3.is_valid_product("L2A"));
}

#[test]
fn build_filter_tile_strips_t_prefix() {
    let query = SearchQuery::new(Satellite::Sentinel2).tile("T31TFJ");
    let filter = query.build_filter().unwrap();
    assert!(filter.contains("Value eq '31TFJ'"), "should strip the T prefix: {filter}");
    assert!(!filter.contains("Value eq 'T31TFJ'"), "should not keep the T prefix");
}

#[test]
fn build_filter_tile_without_t_prefix() {
    let query = SearchQuery::new(Satellite::Sentinel2).tile("31TFJ");
    let filter = query.build_filter().unwrap();
    assert!(filter.contains("Value eq '31TFJ'"));
}

#[test]
fn build_filter_all_clauses_in_order() {
    let start = UtcDateTime::from_timestamp(1_700_000_000, 0).unwrap();
    let end = UtcDateTime::from_timestamp(1_700_086_400, 0).unwrap();
    let query = SearchQuery::new(Satellite::Sentinel2)
        .product("L2A")
        .dates(start, end)
        .tile("T31TFJ")
        .max_cloud_cover(&cloud(30.0));
    let filter = query.build_filter().unwrap();
    assert_eq!(
        filter,
        "Collection/Name eq 'SENTINEL-2' and contains(Name,'L2A') and \
         ContentDate/Start gt 2023-11-14T22:13:20.000Z and ContentDate/Start lt 2023-11-15T22:13:20.000Z and \
         Attributes/OData.CSC.StringAttribute/any(att:att/Name eq 'tileId' and att/OData.CSC.StringAttribute/Value eq '31TFJ') and \
         Attributes/OData.CSC.DoubleAttribute/any(att:att/Name eq 'cloudCover' and att/OData.CSC.DoubleAttribute/Value lt 30.00)"
    );
}

#[test]
fn build_filter_reversed_dates_fail() {
    let start = UtcDateTime::from_timestamp(1_700_086_400, 0).unwrap();
    let end = UtcDateTime::from_timestamp(1_700_000_000, 0).unwrap();
    let err = SearchQuery::new(Satellite::Sentinel2).dates(start, end).build_filter().unwrap_err();
    match err {
        CopernicusError::InvalidArgument(m) => assert_eq!(m, "start date must be before end date"),
        other => panic!("unexpected {other:?}"),
    }
}

#[test]
fn scene_filter_uses_sensing_window() {
    let name = "S2B_MSIL2A_20200804T183919_N0500_R070_T11UPT_20230321T050221.SAFE";
    let filter = scene_search_filter(name).unwrap();
    assert!(filter.ends_with("contains(Name,'S2B_MSIL2A_20200804T183919_N0500_R070_T11UPT_20230321T050221.SAFE')"));
    assert!(filter.contains("2020-08-03T00:00:00.000Z"));
    assert!(filter.contains("2020-08-05T00:00:00.000Z"));
}

#[test]
fn scene_filter_bad_date_is_invalid_argument() {
    let err = scene_search_filter("S2B_MSIL2A_20201399T183919_N0500").unwrap_err();
    assert!(matches!(err, CopernicusError::InvalidArgument(_)));
}

#[test]
fn scene_id_from_reply() {
    let product = JsonValue::Object(vec![JsonMember {
        key: "Id".to_string(),
        value: JsonValue::Str("uuid-1".to_string()),
    }]);
    let body = JsonValue::Object(vec![JsonMember {
        key: "value".to_string(),
        value: JsonValue::Array(vec![product]),
    }]);
    assert_eq!(scene_id_from_response(&body).unwrap(), "uuid-1");
    let empty = JsonValue::Object(vec![JsonMember {
        key: "value".to_string(),
        value: JsonValue::Array(vec![]),
    }]);
    assert!(matches!(scene_id_from_response(&empty), Err(CopernicusError::NoResults)));
    assert!(matches!(
        scene_id_from_response(&JsonValue::Null),
        Err(CopernicusError::SearchFailed(_))
    ));
}

#[test]
fn online_results_keep_online_ones() {
    assert!(matches!(online_results(&vec![false, false]), Err(CopernicusError::NoResults)));
    assert_eq!(online_results(&vec![true, false, true]).unwrap(), vec![0, 2]);
}

#[test]
fn is_valid_product_ascii_laws() {
    for sat in [
        Satellite::Sentinel1,
        Satellite::Sentinel2,
        Satellite::Sentinel3,
        Satellite::Sentinel5P,
        Satellite::Sentinel6,
    ] {
        assert!(sat.is_valid_product(""));
        for k in sat.known_products() {
            assert!(sat.is_valid_product(k));
            assert!(sat.is_valid_product(&k.to_lowercase()));
            assert_eq!(k.to_uppercase(), *k);
        }
    }
    assert!(Satellite::Sentinel2.is_valid_product("msil2a"));
}
