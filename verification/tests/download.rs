use copernicus_explorer::download::{
    bearer_header, extract_filename, output_filename, product_url,
};

#[test]
fn parse_content_disposition() {
    let header = "attachment; filename=\"S2B_MSIL2A_20200804.zip\"";
    assert_eq!(
        extract_filename(header),
        Some("S2B_MSIL2A_20200804.zip".to_string())
    );
}

#[test]
fn parse_content_disposition_no_quotes() {
    let header = "attachment; filename=scene.zip";
    assert_eq!(extract_filename(header), Some("scene.zip".to_string()));
}

#[test]
fn parse_content_disposition_missing() {
    assert_eq!(extract_filename("inline"), None);
}

#[test]
fn filename_taken_from_later_part() {
    assert_eq!(
        extract_filename("attachment;  filename=\"a.zip\"; size=3"),
        Some("a.zip".to_string())
    );
}

#[test]
fn output_filename_falls_back_to_display_name() {
    assert_eq!(output_filename(None, "scene-x"), "scene-x.zip");
    assert_eq!(output_filename(Some("inline"), "scene-y"), "scene-y.zip");
    assert_eq!(
        output_filename(Some("attachment; filename=\"z.zip\""), "scene-z"),
        "z.zip"
    );
}

#[test]
fn product_url_and_bearer() {
    let url = product_url("abc-123");
    assert!(url.contains("abc-123"));
    assert!(url.ends_with("/$value"));
    assert_eq!(bearer_header("TOKEN"), "Bearer TOKEN");
}
