use app_config::errors::ProviderError;
use app_config::providers::aws::AWS;
use app_config::providers::mock::Mock;
use app_config::providers::param_store::ParamStore;
use app_config::providers::{FetchRequest, FetchResponse, Provider};

fn gen_mock_struct() -> Mock {
    Mock::new("Am I a mock")
}

#[test]
fn mock_test_poll() {
    let mock = gen_mock_struct();

    let res = mock.poll().unwrap().unwrap();
    assert_eq!(res, String::from("Am I a mock"));

    let res = mock.query().unwrap();
    assert_eq!(res, String::from("Am I a mock"));
}

fn gen_aws_struct() -> AWS {
    AWS::new("myApp", "dev", "myConf", "42", &None).unwrap()
}

#[test]
fn aws_test_create_db() {
    // A provider without a state file opens a fresh in-memory store seeded
    // with the empty sentinel.
    let aws = gen_aws_struct();
    assert_eq!(aws.query().unwrap(), "".to_string());
}

#[test]
fn test_pull_latest_version() {
    // The cached version of a fresh store is zero; the fetch request carries
    // it as the version token.
    let aws = gen_aws_struct();
    match aws.fetch_request() {
        FetchRequest::AppConfig { application, environment, configuration, client_id, client_configuration_version } => {
            assert_eq!(application, "myApp");
            assert_eq!(environment, "dev");
            assert_eq!(configuration, "myConf");
            assert_eq!(client_id, "42");
            assert_eq!(client_configuration_version, "0");
        },
        other => panic!("wrong request: {:?}", other),
    }
}

#[test]
fn test_update_cache() {
    let mut aws = gen_aws_struct();

    // A response with a new version updates the cache...
    let res = aws
        .poll_with(FetchResponse::Versioned {
            version: Some("12".to_string()),
            content: Some(b"something".to_vec()),
        })
        .unwrap();
    assert_eq!(res, Some("something".to_string()));

    // ...so the cached version and data now read back as written.
    match aws.fetch_request() {
        FetchRequest::AppConfig { client_configuration_version, .. } => {
            assert_eq!(client_configuration_version, "12");
        },
        other => panic!("wrong request: {:?}", other),
    }
    assert_eq!(aws.query().unwrap(), "something".to_string());
}

#[test]
fn aws_poll_no_change() {
    let mut aws = gen_aws_struct();
    // The fresh cache holds version 0; a response with the same version is
    // the no-op case and does not rewrite the cache.
    let res = aws
        .poll_with(FetchResponse::Versioned { version: Some("0".to_string()), content: None })
        .unwrap();
    assert_eq!(res, None);
    assert_eq!(aws.query().unwrap(), "".to_string());
}

#[test]
fn aws_poll_detects_change_once() {
    let mut aws = gen_aws_struct();
    let resp = FetchResponse::Versioned {
        version: Some("7".to_string()),
        content: Some(b"payload".to_vec()),
    };
    let first = aws.poll_with(resp).unwrap();
    assert_eq!(first, Some("payload".to_string()));

    // The same remote state again: no change, and the hooks' payload equals
    // what a query returns — byte for byte.
    let resp_again = FetchResponse::Versioned {
        version: Some("7".to_string()),
        content: Some(b"payload".to_vec()),
    };
    let second = aws.poll_with(resp_again).unwrap();
    assert_eq!(second, None);
    assert_eq!(aws.query().unwrap(), "payload".to_string());
}

#[test]
fn aws_poll_unavailable() {
    let mut aws = gen_aws_struct();
    let e = aws.poll_with(FetchResponse::Failed).unwrap_err();
    assert!(matches!(e, ProviderError::Unavailable));
    // A missing version token is unusable data as well.
    let e = aws
        .poll_with(FetchResponse::Versioned { version: None, content: Some(b"x".to_vec()) })
        .unwrap_err();
    assert!(matches!(e, ProviderError::Unavailable));
    // So is a version token that is not a decimal number.
    let e = aws
        .poll_with(FetchResponse::Versioned {
            version: Some("seven".to_string()),
            content: Some(b"x".to_vec()),
        })
        .unwrap_err();
    assert!(matches!(e, ProviderError::Unavailable));
    // The cache is never corrupted by any of that.
    assert_eq!(aws.query().unwrap(), "".to_string());
}

#[test]
fn provider_store_init_failure_is_fatal() {
    // A state file in a directory that cannot exist: the store cannot be
    // opened, and the provider cannot be built.
    let path = Some("/nonexistent_dir_for_store/state.db".to_string());
    let e = AWS::new("a", "b", "c", "d", &path).unwrap_err();
    assert!(matches!(e, ProviderError::StoreInit));
    let e = ParamStore::new("k", &path).unwrap_err();
    assert!(matches!(e, ProviderError::StoreInit));
}

fn gen_ps_struct() -> ParamStore {
    ParamStore::new("Hello", &None).unwrap()
}

#[test]
fn param_store_test_create_db() {
    let p = gen_ps_struct();
    assert_eq!(p.query().unwrap(), "".to_string());
}

#[test]
fn test_db_updates() {
    let mut p = gen_ps_struct();

    assert_eq!(p.query().unwrap(), "".to_string());

    let res = p.poll_with(FetchResponse::Keyed { value: Some("Yo".to_string()) }).unwrap();
    assert_eq!(res, Some("Yo".to_string()));

    assert_eq!(p.query().unwrap(), "Yo".to_string());
}

#[test]
fn param_store_test_poll() {
    let p = gen_ps_struct();
    let res = p.query().unwrap();
    assert_eq!(res, String::from(""));
}

#[test]
fn param_store_poll_no_change() {
    let mut p = gen_ps_struct();
    let first = p.poll_with(FetchResponse::Keyed { value: Some("World".to_string()) }).unwrap();
    assert_eq!(first, Some("World".to_string()));
    // The same value again is the no-op case.
    let second = p.poll_with(FetchResponse::Keyed { value: Some("World".to_string()) }).unwrap();
    assert_eq!(second, None);
    assert_eq!(p.query().unwrap(), "World".to_string());
}

#[test]
fn param_store_poll_missing_value() {
    let mut p = gen_ps_struct();
    let e = p.poll_with(FetchResponse::Keyed { value: None }).unwrap_err();
    assert!(matches!(e, ProviderError::Unavailable));
}

#[test]
fn provider_dispatch_mock_needs_no_fetch() {
    let mut provider = Provider::Mock(Mock::new("Where am I"));
    assert!(provider.fetch_request().is_none());
    let res = provider.poll_with(None).unwrap();
    assert_eq!(res, Some("Where am I".to_string()));
    assert_eq!(provider.query().unwrap(), "Where am I".to_string());
}

#[test]
fn provider_dispatch_poll_and_query() {
    let mut provider = Provider::ParamStore(gen_ps_struct());
    assert!(provider.fetch_request().is_some());
    let res = provider
        .poll_with(Some(FetchResponse::Keyed { value: Some("World".to_string()) }))
        .unwrap();
    assert_eq!(res, Some("World".to_string()));
    assert_eq!(provider.query().unwrap(), "World".to_string());
}
