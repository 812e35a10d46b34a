use divviup_api::AggregatorRequestStep;
use divviup_api::{
    https, new_aggregator_fetch_error, update_aggregator_fetch_error, AggregatorApiConfig,
    ConfigFetchError, Crypter, Feature, Features, NewAggregator, Protocol, QueryTypeName,
    QueryTypeNameSet, Role, ServiceError, UpdateAggregator, Url, VdafName, VdafNameSet,
};

fn config(dap_url: &str, role: Role) -> AggregatorApiConfig {
    AggregatorApiConfig {
        dap_url: Url::parse(dap_url).unwrap(),
        role,
        vdafs: VdafNameSet::from_iter([VdafName::Prio3Count, VdafName::Prio3Sum]),
        query_types: QueryTypeNameSet::from_iter([QueryTypeName::TimeInterval]),
        protocol: Protocol { name: "DAP-09".into() },
        features: Features::from_iter([Feature::TokenHash]),
    }
}

fn request() -> NewAggregator {
    NewAggregator {
        name: Some("aggregator".into()),
        api_url: Some("https://api.example.com/".into()),
        bearer_token: Some("bearer-token".into()),
        is_first_party: None,
    }
}

#[test]
fn https_urls_only() {
    assert!(https("https://example.com").is_ok());
    assert_eq!(https("http://example.com"), Err("https-url"));
    assert_eq!(https("not a url"), Err("https-url"));
}

#[test]
fn new_aggregator_rules() {
    assert!(request().validate().is_ok());
    let errors = NewAggregator { name: None, api_url: Some("http://x".into()), ..request() }
        .validate()
        .unwrap_err();
    assert_eq!(errors.codes_for("name"), vec!["required"]);
    assert_eq!(errors.codes_for("api_url"), vec!["https-url"]);
    let long_url = format!("https://example.com/{}", "a".repeat(2048));
    let errors = NewAggregator {
        name: Some(String::new()),
        api_url: Some(long_url),
        bearer_token: Some("t".repeat(4097)),
        ..request()
    }
    .validate()
    .unwrap_err();
    assert_eq!(errors.codes_for("name"), vec!["length"]);
    assert_eq!(errors.codes_for("api_url"), vec!["length"]);
    assert_eq!(errors.codes_for("bearer_token"), vec!["length"]);
    assert!(NewAggregator { name: Some("n".repeat(255)), ..request() }.validate().is_ok());
    assert!(NewAggregator { name: Some("n".repeat(256)), ..request() }.validate().is_err());
}

#[test]
fn built_aggregators_keep_their_token_sealed() {
    let crypter = Crypter::from_key([3; 16]);
    let aggregator = request()
        .build(None, config("https://dap.example.com/", Role::Leader), &crypter)
        .unwrap();
    assert_eq!(aggregator.name, "aggregator");
    assert_eq!(aggregator.api_url.as_str(), "https://api.example.com/");
    assert_eq!(aggregator.dap_url.as_str(), "https://dap.example.com/");
    assert_eq!(aggregator.role, Role::Leader);
    assert!(aggregator.is_first_party);
    assert!(aggregator.features.token_hash_enabled());
    assert_ne!(aggregator.encrypted_bearer_token, b"bearer-token".to_vec());
    assert_eq!(aggregator.bearer_token(&crypter).unwrap(), "bearer-token");
    assert!(matches!(
        aggregator.bearer_token(&Crypter::from_key([4; 16])),
        Err(ServiceError::Encryption(_))
    ));
    assert!(!aggregator.is_tombstoned());
    assert!(aggregator.tombstone().is_tombstoned());
}

#[test]
fn account_aggregators_are_never_first_party() {
    let crypter = Crypter::from_key([3; 16]);
    let owned = request()
        .build(Some(7), config("https://dap.example.com/", Role::Helper), &crypter)
        .unwrap();
    assert_eq!(owned.account_id, Some(7));
    assert!(!owned.is_first_party);
    let shared = NewAggregator { is_first_party: Some(false), ..request() }
        .build(None, config("https://dap.example.com/", Role::Helper), &crypter)
        .unwrap();
    assert!(!shared.is_first_party);
}

#[test]
fn invalid_requests_build_nothing() {
    let crypter = Crypter::from_key([3; 16]);
    match (NewAggregator { name: None, ..request() })
        .build(None, config("https://dap.example.com/", Role::Helper), &crypter)
    {
        Err(ServiceError::Validation(e)) => assert_eq!(e.codes_for("name"), vec!["required"]),
        other => panic!("unexpected {other:?}"),
    }
}

#[test]
fn config_fetch_failures_become_rules() {
    let e = new_aggregator_fetch_error(ConfigFetchError::HttpStatus(Some(401))).unwrap();
    assert_eq!(e.codes_for("bearer_token"), vec!["token-not-recognized"]);
    let e = new_aggregator_fetch_error(ConfigFetchError::HttpStatus(Some(403))).unwrap();
    assert_eq!(e.codes_for("bearer_token"), vec!["token-not-recognized"]);
    let e = new_aggregator_fetch_error(ConfigFetchError::HttpStatus(Some(404))).unwrap();
    assert_eq!(e.codes_for("api_url"), vec!["http-error"]);
    let e = new_aggregator_fetch_error(ConfigFetchError::Http).unwrap();
    assert_eq!(e.codes_for("api_url"), vec!["http-error"]);
    assert!(new_aggregator_fetch_error(ConfigFetchError::HttpStatus(Some(500))).is_err());
    assert!(new_aggregator_fetch_error(ConfigFetchError::Other("boom".into())).is_err());
    assert!(update_aggregator_fetch_error(ConfigFetchError::HttpStatus(Some(401))).is_ok());
    assert!(update_aggregator_fetch_error(ConfigFetchError::HttpStatus(Some(404))).is_err());
    assert!(update_aggregator_fetch_error(ConfigFetchError::Http).is_err());
}

#[test]
fn updating_an_aggregator() {
    let crypter = Crypter::from_key([5; 16]);
    let aggregator = request()
        .build(None, config("https://dap.example.com/", Role::Either), &crypter)
        .unwrap();
    let updated_at = aggregator.updated_at;
    let unchanged = UpdateAggregator { name: None, bearer_token: None }
        .build(aggregator, None, &crypter)
        .unwrap();
    assert_eq!(unchanged.updated_at, updated_at);
    let renamed = UpdateAggregator { name: Some("renamed".into()), bearer_token: None }
        .build(unchanged, None, &crypter)
        .unwrap();
    assert_eq!(renamed.name, "renamed");
    let mut new_config = config("https://ignored.example.com/", Role::Either);
    new_config.vdafs = VdafNameSet::from_iter([VdafName::Prio3SumVec]);
    let retokened = UpdateAggregator { name: None, bearer_token: Some("new-token".into()) }
        .build(renamed, Some(new_config), &crypter)
        .unwrap();
    assert_eq!(retokened.bearer_token(&crypter).unwrap(), "new-token");
    assert_eq!(retokened.vdafs, VdafNameSet::from_iter([VdafName::Prio3SumVec]));
    assert_eq!(retokened.dap_url.as_str(), "https://dap.example.com/");
    match (UpdateAggregator { name: Some(String::new()), bearer_token: None })
        .build(retokened, None, &crypter)
    {
        Err(ServiceError::Validation(e)) => assert_eq!(e.codes_for("name"), vec!["length"]),
        other => panic!("unexpected {other:?}"),
    }
}

#[test]
fn stored_tokens_must_be_text() {
    let crypter = Crypter::from_key([3; 16]);
    let mut aggregator = request()
        .build(None, config("https://dap.example.com/", Role::Leader), &crypter)
        .unwrap();
    aggregator.encrypted_bearer_token =
        crypter.encrypt(aggregator.api_url.as_str().as_bytes(), &[0xff, 0xfe]).unwrap();
    assert!(matches!(aggregator.bearer_token(&crypter), Err(ServiceError::Utf8)));
}

#[test]
fn new_aggregator_steps_check_the_url_before_fetching() {
    match (NewAggregator { name: None, ..request() }).begin(true) {
        AggregatorRequestStep::Refuse(e) => assert_eq!(e.codes_for("name"), vec!["required"]),
        other => panic!("unexpected {other:?}"),
    }
    match request().begin(true) {
        AggregatorRequestStep::CheckUrl(u) => assert_eq!(u.as_str(), "https://api.example.com/"),
        other => panic!("unexpected {other:?}"),
    }
    match request().begin(false) {
        AggregatorRequestStep::FetchConfig { api_url, bearer_token } => {
            assert_eq!(api_url.as_str(), "https://api.example.com/");
            assert_eq!(bearer_token, "bearer-token");
        }
        other => panic!("unexpected {other:?}"),
    }
    let url = Url::parse("https://127.0.0.1/").unwrap();
    let refused = divviup_api::validate_aggregator_url(&url).map(|_| ());
    match request().url_checked(refused) {
        AggregatorRequestStep::Refuse(e) => {
            assert_eq!(e.codes_for("api_url"), vec!["private-address"])
        }
        other => panic!("unexpected {other:?}"),
    }
    assert!(matches!(request().url_checked(Ok(())), AggregatorRequestStep::FetchConfig { .. }));
}

#[test]
fn new_aggregator_finish_maps_fetch_failures() {
    let crypter = Crypter::from_key([3; 16]);
    match request().finish(None, Err(ConfigFetchError::HttpStatus(Some(403))), &crypter) {
        Err(ServiceError::Validation(e)) => {
            assert_eq!(e.codes_for("bearer_token"), vec!["token-not-recognized"])
        }
        other => panic!("unexpected {other:?}"),
    }
    match request().finish(None, Err(ConfigFetchError::HttpStatus(Some(500))), &crypter) {
        Err(ServiceError::AggregatorApi(ConfigFetchError::HttpStatus(Some(500)))) => {}
        other => panic!("unexpected {other:?}"),
    }
    let built = request()
        .finish(Some(1), Ok(config("https://dap.example.com/", Role::Leader)), &crypter)
        .unwrap();
    assert_eq!(built.bearer_token(&crypter).unwrap(), "bearer-token");
    assert!(!built.is_first_party);
}

#[test]
fn update_aggregator_steps() {
    let crypter = Crypter::from_key([3; 16]);
    let aggregator = request()
        .build(None, config("https://dap.example.com/", Role::Either), &crypter)
        .unwrap();
    let empty_name = UpdateAggregator { name: Some(String::new()), bearer_token: Some("t".into()) };
    assert!(matches!(empty_name.begin(&aggregator), AggregatorRequestStep::Refuse(_)));
    let rename = UpdateAggregator { name: Some("renamed".into()), bearer_token: None };
    assert!(matches!(rename.begin(&aggregator), AggregatorRequestStep::Apply));
    let retoken = UpdateAggregator { name: None, bearer_token: Some("new".into()) };
    match retoken.begin(&aggregator) {
        AggregatorRequestStep::FetchConfig { api_url, bearer_token } => {
            assert_eq!(api_url.as_str(), aggregator.api_url.as_str());
            assert_eq!(bearer_token, "new");
        }
        other => panic!("unexpected {other:?}"),
    }
    match retoken.finish(aggregator, Some(Err(ConfigFetchError::HttpStatus(Some(401)))), &crypter)
    {
        Err(ServiceError::Validation(e)) => {
            assert_eq!(e.codes_for("bearer_token"), vec!["token-not-recognized"])
        }
        other => panic!("unexpected {other:?}"),
    }
    let aggregator = request()
        .build(None, config("https://dap.example.com/", Role::Either), &crypter)
        .unwrap();
    let renamed = rename.finish(aggregator, None, &crypter).unwrap();
    assert_eq!(renamed.name, "renamed");
}

#[test]
fn tokens_sealed_with_a_past_key_still_open() {
    let old = Crypter::from_key([3; 16]);
    let aggregator = request()
        .build(None, config("https://dap.example.com/", Role::Leader), &old)
        .unwrap();
    let rotated = Crypter::new([9; 16], vec![[5; 16], [3; 16]]);
    assert_eq!(aggregator.bearer_token(&rotated).unwrap(), "bearer-token");
}

#[test]
fn missing_url_or_token_is_refused_before_any_request() {
    match (NewAggregator { api_url: None, bearer_token: None, ..request() }).begin(true) {
        AggregatorRequestStep::Refuse(e) => {
            assert_eq!(e.codes_for("api_url"), vec!["required"]);
            assert_eq!(e.codes_for("bearer_token"), vec!["required"]);
        }
        other => panic!("unexpected {other:?}"),
    }
    let crypter = Crypter::from_key([3; 16]);
    match (NewAggregator { bearer_token: None, ..request() })
        .build(None, config("https://dap.example.com/", Role::Leader), &crypter)
    {
        Err(ServiceError::Validation(e)) => {
            assert_eq!(e.codes_for("bearer_token"), vec!["required"])
        }
        other => panic!("unexpected {other:?}"),
    }
}
