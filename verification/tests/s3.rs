use copernicus_explorer::error::CopernicusError;
use copernicus_explorer::s3::{
    resolve_start, resolve_step, CredentialSource, ResolveAction,
    parse_ini_sections, parse_output_destination, parse_output_target, OutputDestination,
    S3Config, S3Destination,
};

fn no_credentials(_bucket: String) -> Result<S3Config, CopernicusError> {
    Err(CopernicusError::S3Error("no credentials".to_string()))
}

fn lookup_forbidden(bucket: String) -> Result<S3Config, CopernicusError> {
    panic!("credentials looked up for {bucket:?}")
}

fn sample_config() -> S3Config {
    S3Config {
        access_key_id: "AK".to_string(),
        secret_access_key: "SK".to_string(),
        region: "eu-west-1".to_string(),
        endpoint: "https://s3.example.com".to_string(),
    }
}

#[test]
fn parse_ini_selects_matching_section() {
    let content = "[bucket-a]\n\
         type = s3\n\
         access_key_id = AK_A\n\
         secret_access_key = SK_A\n\
         region = eu-west-1\n\
         endpoint = https://s3.a.example.com\n\
         \n\
         [bucket-b]\n\
         type = s3\n\
         access_key_id = AK_B\n\
         secret_access_key = SK_B\n\
         region = us-east-1\n\
         endpoint = https://s3.b.example.com\n";
    let cfg = S3Config::from_ini_content(content, "bucket-b", "rclone.conf")
        .unwrap()
        .expect("section bucket-b should be found");
    assert_eq!(cfg.access_key_id, "AK_B");
    assert_eq!(cfg.secret_access_key, "SK_B");
    assert_eq!(cfg.region, "us-east-1");
    assert_eq!(cfg.endpoint, "https://s3.b.example.com");
}

#[test]
fn parse_ini_returns_none_when_no_section_matches() {
    let content = "[my-remote]\n\
         type = s3\n\
         access_key_id = AKID\n\
         secret_access_key = SKEY\n\
         region = eu-west-1\n\
         endpoint = https://s3.example.com\n";
    let result = S3Config::from_ini_content(content, "unknown-bucket", "rclone.conf").unwrap();
    assert!(result.is_none());
}

#[test]
fn parse_ini_missing_key_is_an_error() {
    let content = "[b]\naccess_key_id = A\nsecret_access_key = S\nregion = r\n";
    match S3Config::from_ini_content(content, "b", "conf.ini") {
        Err(CopernicusError::S3Error(m)) => assert_eq!(m, "missing 'endpoint' in [b] of conf.ini"),
        other => panic!("unexpected {other:?}"),
    }
}

#[test]
fn parse_ini_sections_and_get() {
    let sections = parse_ini_sections("; comment\n[a]\nk = v\n# other\n[b]\nx=1\n");
    assert_eq!(sections.len(), 2);
    assert_eq!(sections[0].name, "a");
    assert_eq!(sections[0].get("k"), Some("v"));
    assert_eq!(sections[0].get("x"), None);
    assert_eq!(sections[1].name, "b");
    assert_eq!(sections[1].get("x"), Some("1"));
}

#[test]
fn parse_s3_uri_with_prefix() {
    let (bucket, prefix) = parse_output_target("s3://my-bucket/some/prefix/").unwrap().unwrap();
    assert_eq!(bucket, "my-bucket");
    assert_eq!(prefix, "some/prefix/");
}

#[test]
fn parse_s3_uri_no_prefix() {
    let (bucket, prefix) = parse_output_target("s3://my-bucket").unwrap().unwrap();
    assert_eq!(bucket, "my-bucket");
    assert_eq!(prefix, "");
}

#[test]
fn local_destination() {
    let dest = parse_output_destination("/tmp/data", no_credentials).unwrap();
    assert!(matches!(dest, OutputDestination::Local(p) if p == "/tmp/data"));
}

#[test]
fn malformed_s3_uri_rejected() {
    let err = parse_output_destination("s3:://bucket/prefix", no_credentials).unwrap_err();
    assert!(err.message().contains("malformed S3 URI"));
}

#[test]
fn s3_uri_without_bucket_rejected() {
    let err = parse_output_destination("s3:///prefix", no_credentials).unwrap_err();
    assert!(err.message().contains("must include a bucket name"));
}

#[test]
fn rejected_or_local_outputs_look_up_no_credentials() {
    let local = parse_output_destination("/tmp/data", lookup_forbidden).unwrap();
    assert!(matches!(local, OutputDestination::Local(p) if p == "/tmp/data"));
    let err = parse_output_destination("s3:://bucket/prefix", lookup_forbidden).unwrap_err();
    assert!(err.message().contains("malformed S3 URI"));
    let err = parse_output_destination("s3://", lookup_forbidden).unwrap_err();
    assert!(err.message().contains("must include a bucket name"));
    let err = parse_output_destination("s3:///p", lookup_forbidden).unwrap_err();
    assert!(err.message().contains("must include a bucket name"));
}

#[test]
fn s3_destination_gets_resolved_credentials() {
    let dest = parse_output_destination("s3://bkt/pre/", |b: String| {
        assert_eq!(b, "bkt");
        Ok(sample_config())
    })
    .unwrap();
    match dest {
        OutputDestination::S3(d) => {
            assert_eq!(d.bucket, "bkt");
            assert_eq!(d.prefix, "pre/");
            assert_eq!(d.config.region, "eu-west-1");
        }
        other => panic!("unexpected {other:?}"),
    }
    let err = parse_output_destination("s3://bkt", no_credentials).unwrap_err();
    assert_eq!(err.message(), "S3 error: no credentials");
}

#[test]
fn object_keys_and_uris() {
    let d = S3Destination { bucket: "b".to_string(), prefix: "a/b//".to_string(), config: sample_config() };
    assert_eq!(d.object_key("f.zip"), "a/b/f.zip");
    assert_eq!(d.object_uri("a/b/f.zip"), "s3://b/a/b/f.zip");
    let e = S3Destination { bucket: "b".to_string(), prefix: String::new(), config: sample_config() };
    assert_eq!(e.object_key("f.zip"), "f.zip");
}

#[test]
fn env_values_need_all_four() {
    let c = S3Config::from_env_values(
        Some("AK".to_string()),
        Some("SK".to_string()),
        Some("https://e".to_string()),
        Some("r".to_string()),
    )
    .unwrap();
    assert_eq!(c.endpoint, "https://e");
    assert_eq!(c.region, "r");
    assert!(S3Config::from_env_values(Some("AK".to_string()), None, None, None).is_none());
}

#[test]
fn credential_sources_in_order() {
    use_resolve_chain();
}

fn use_resolve_chain() {
    let mut at = resolve_start();
    assert_eq!(at, CredentialSource::ExplicitFile);
    let mut seen = vec![at];
    loop {
        match resolve_step(at, Ok(None)) {
            ResolveAction::Read(next) => {
                at = next;
                seen.push(at);
            }
            ResolveAction::Done(result) => {
                match result {
                    Err(CopernicusError::S3Error(m)) => assert!(m.starts_with("no S3 credentials found")),
                    other => panic!("unexpected {other:?}"),
                }
                break;
            }
        }
    }
    assert_eq!(
        seen,
        vec![
            CredentialSource::ExplicitFile,
            CredentialSource::DefaultFile,
            CredentialSource::S3Env,
            CredentialSource::AwsEnv
        ]
    );
    match resolve_step(CredentialSource::DefaultFile, Ok(Some(sample_config()))) {
        ResolveAction::Done(Ok(c)) => assert_eq!(c.access_key_id, "AK"),
        other => panic!("unexpected {other:?}"),
    }
    match resolve_step(CredentialSource::ExplicitFile, Err(CopernicusError::S3Error("bad file".into()))) {
        ResolveAction::Done(Err(CopernicusError::S3Error(m))) => assert_eq!(m, "bad file"),
        other => panic!("unexpected {other:?}"),
    }
}
