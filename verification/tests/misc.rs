use divviup_api::api_types::{AuthenticationToken, AuthenticationTokenHash, TaskIds};
use divviup_api::client::{QueryType as LegacyQueryType, Role as DapRole, TaskMetrics};
use divviup_api::{
    extract_host, fresh_token_at, Account, Codec, CollectorCredential, CreateMembership, Email,
    JobStatus, Json, Membership, NewAccount, NewCollectorCredential, NewHpkeConfig, PagerStep,
    QueryTypeId, QueryTypeIdSet, Role, TaskIdPager, Token, TokenWithExpiry, UpdateAccount,
    UpdateCollectorCredential, UpdateHpkeConfig, Url, UrlHost, VdafId, VdafIdSet, VdafName, VdafNameSet, QueryTypeName, QueryTypeNameSet,
};

#[test]
fn account_names_have_three_to_a_hundred_characters() {
    assert!(Account::build("abc".into()).is_ok());
    let errors = Account::build("ab".into()).unwrap_err();
    assert_eq!(errors.codes_for("name"), vec!["length"]);
    assert!(Account::build("a".repeat(101)).is_err());
    let errors = NewAccount { name: None }.build().unwrap_err();
    assert_eq!(errors.codes_for("name"), vec!["required"]);
    let account = Account::build("account".into()).unwrap();
    assert!(!account.admin);
    assert_eq!(account.intends_to_use_shared_aggregators, None);
}

#[test]
fn updating_accounts() {
    let account = Account::build("account".into()).unwrap();
    let updated_at = account.updated_at;
    let same = UpdateAccount { name: None, intends_to_use_shared_aggregators: None }
        .build(account)
        .unwrap();
    assert_eq!(same.updated_at, updated_at);
    let changed = UpdateAccount {
        name: Some("renamed".into()),
        intends_to_use_shared_aggregators: Some(true),
    }
    .build(same)
    .unwrap();
    assert_eq!(changed.name, "renamed");
    assert_eq!(changed.intends_to_use_shared_aggregators, Some(true));
    assert!(UpdateAccount { name: Some("x".into()), intends_to_use_shared_aggregators: None }
        .build(changed)
        .is_err());
}

#[test]
fn memberships_need_an_email_address() {
    let m = Membership::build("user@example.com".into(), 3).unwrap();
    assert_eq!(m.account_id, 3);
    assert_eq!(m.user_email, "user@example.com");
    let errors = Membership::build("not an address".into(), 3).unwrap_err();
    assert_eq!(errors.codes_for("user_email"), vec!["email"]);
    let errors = CreateMembership { user_email: None }.build(3).unwrap_err();
    assert_eq!(errors.codes_for("user_email"), vec!["required"]);
}

#[test]
fn uploaded_credentials_are_base64() {
    let upload = NewCollectorCredential { contents: Some("AQID".into()), name: Some("c".into()) };
    assert_eq!(upload.contents_bytes().unwrap(), vec![1, 2, 3]);
    let credential = upload.build(9, true).unwrap();
    assert_eq!(credential.contents(), &vec![1, 2, 3]);
    assert_eq!(credential.account_id, 9);
    assert!(!credential.is_tombstoned());
    let renamed = UpdateCollectorCredential { name: None }.build(credential);
    assert_eq!(renamed.name, None);
    assert!(renamed.tombstone().is_tombstoned());
    let errors = NewCollectorCredential { contents: Some("***".into()), name: None }
        .build(9, true)
        .unwrap_err();
    assert_eq!(errors.codes_for("contents"), vec!["base64"]);
    let errors = NewCollectorCredential { contents: None, name: None }.build(9, true).unwrap_err();
    assert_eq!(errors.codes_for("contents"), vec!["base64"]);
    let errors = NewCollectorCredential { contents: Some("AQID".into()), name: None }
        .build(9, false)
        .unwrap_err();
    assert_eq!(errors.codes_for("contents"), vec!["collector_credential"]);
}

#[test]
fn uploaded_hpke_configs_are_base64() {
    let config = NewHpkeConfig { contents: Some("AQID".into()), name: None }.build(2, true).unwrap();
    assert_eq!(config.contents(), &vec![1, 2, 3]);
    let named = UpdateHpkeConfig { name: Some("n".into()) }.build(config);
    assert_eq!(named.name.as_deref(), Some("n"));
    assert!(named.tombstone().is_tombstoned());
    let errors = NewHpkeConfig { contents: Some("AQID".into()), name: None }
        .build(2, false)
        .unwrap_err();
    assert_eq!(errors.codes_for("contents"), vec!["hpke_config"]);
}

#[test]
fn identity_tokens_expire() {
    let token = Token {
        access_token: "access".into(),
        expires_in: 60,
        scope: "s".into(),
        token_type: "Bearer".into(),
    };
    let issued = TokenWithExpiry::issued_at(token, 1_000);
    assert_eq!(issued.expires_at, 1_000 + 60_000_000_000);
    assert!(issued.is_fresh_at(1_000));
    assert!(!issued.is_fresh_at(60_000_001_000));
    assert_eq!(issued.token(), "access");
    let cached = Some(issued);
    assert_eq!(fresh_token_at(&cached, 5), Some("access"));
    assert_eq!(fresh_token_at(&cached, 60_000_001_000), None);
    assert_eq!(fresh_token_at(&None, 5), None);
    let fresh = TokenWithExpiry::from(Token {
        access_token: "a".into(),
        expires_in: 3600,
        scope: String::new(),
        token_type: String::new(),
    });
    assert!(fresh.is_fresh());
    let _ = Email { to: "a".into(), subject: "b".into(), text_body: "c".into(), html_body: "d".into() };
}

#[test]
fn hosts_of_urls() {
    assert_eq!(extract_host("https://Example.COM/path"), "example.com");
    assert_eq!(extract_host("http://example.com:8080/"), "example.com:8080");
    assert_eq!(extract_host("https://example.com:443/"), "example.com");
    assert_eq!(extract_host("not a url"), "");
    let url = Url::parse("https://[::1]:8443/x").unwrap();
    assert_eq!(url.host_str.as_deref(), Some("[::1]"));
    assert!(matches!(url.host, Some(UrlHost::Ipv6([0, 0, 0, 0, 0, 0, 0, 1]))));
    assert_eq!(url.port, Some(8443));
    assert_eq!(url.scheme, "https");
    assert!(url.same_as(&url.duplicate()));
}

#[test]
fn legacy_query_types() {
    assert_eq!(
        LegacyQueryType::from_max_batch_size(Some(5)),
        LegacyQueryType::FixedSize { max_batch_size: 5 }
    );
    assert_eq!(LegacyQueryType::from_max_batch_size(None), LegacyQueryType::TimeInterval);
    assert_eq!(LegacyQueryType::FixedSize { max_batch_size: 5 }.max_batch_size(), Some(5));
    assert_eq!(LegacyQueryType::from_stored_max_batch_size(Some(7)).stored_max_batch_size(), Some(7));
    assert!(DapRole::Leader.is_leader());
    assert!(!DapRole::Helper.is_leader());
    let metrics = TaskMetrics { reports: 1, report_aggregations: 2 };
    assert_eq!(metrics, TaskMetrics { reports: 1, report_aggregations: 2 });
}

#[test]
fn api_tokens_and_hashes() {
    assert!(matches!(
        AuthenticationToken::new("t".into()),
        AuthenticationToken::Bearer { ref token } if token == "t"
    ));
    assert_eq!(AuthenticationToken::new("t".into()).token(), "t");
    let hash = AuthenticationTokenHash::new("h".into());
    assert_eq!(hash.as_ref(), "h");
    assert_eq!(hash.hash(), "h");
    let page = TaskIds { task_ids: vec!["a".into()], pagination_token: Some("p".into()) };
    let copy = page.duplicate();
    assert_eq!(copy.task_ids, vec!["a".to_string()]);
    assert_eq!(copy.pagination_token.as_deref(), Some("p"));
}

#[test]
fn stored_values_unwrap() {
    assert_eq!(Json(5).into_inner(), 5);
    assert_eq!(Codec("x").into_inner(), "x");
    assert_eq!(Codec::from(7u8).into_inner(), 7u8);
    assert_eq!(Json::from("y").into_inner(), "y");
    let wrapped: Codec<u32> = 9u32.into();
    assert_eq!(wrapped, Codec(9));
    assert_eq!(JobStatus::Failed.number(), 2);
    assert_eq!(JobStatus::from_number(1), Some(JobStatus::Success));
    assert_eq!(JobStatus::from_number(3), None);
}

#[test]
fn identifiers_read_from_numbers() {
    assert_eq!(VdafId::from_wire(1).map(VdafId::code), Some(1));
    assert!(VdafId::from_wire(-1).is_none());
    assert!(VdafId::from_wire(1 << 32).is_none());
    assert_eq!(QueryTypeId::from_wire(2).map(QueryTypeId::code), Some(2));
    assert!(QueryTypeId::from_wire(256).is_none());
    assert_eq!(VdafIdSet::default().len(), 3);
    assert!(VdafIdSet::default().contains(&VdafId::Prio3Histogram));
    assert_eq!(QueryTypeIdSet::default().len(), 2);
    assert!(QueryTypeIdSet::default().contains(&QueryTypeId::FixedSize));
}

#[test]
fn roles_parse_without_case() {
    assert_eq!(Role::from_str("Leader").unwrap(), Role::Leader);
    assert_eq!(Role::from_str("HELPER").unwrap(), Role::Helper);
    assert_eq!(Role::Either.as_ref(), "either");
    assert!(Role::from_str("collector").is_err());
}

#[test]
fn task_ids_are_paged() {
    let mut pager = TaskIdPager::new();
    assert!(matches!(pager.step(), PagerStep::Fetch(None)));
    pager.receive(TaskIds { task_ids: vec!["a".into(), "b".into()], pagination_token: Some("next".into()) });
    assert!(matches!(pager.step(), PagerStep::Next(ref id) if id == "a"));
    assert!(matches!(pager.step(), PagerStep::Next(ref id) if id == "b"));
    assert!(matches!(pager.step(), PagerStep::Fetch(Some(ref t)) if t == "next"));
    pager.receive(TaskIds { task_ids: vec!["c".into()], pagination_token: None });
    assert!(matches!(pager.step(), PagerStep::Next(ref id) if id == "c"));
    assert!(matches!(pager.step(), PagerStep::Done));
    assert!(matches!(pager.step(), PagerStep::Done));
}

#[test]
fn credential_fields() {
    let c = CollectorCredential {
        id: 1,
        account_id: 2,
        contents: vec![],
        created_at: 0,
        deleted_at: Some(1),
        updated_at: 0,
        name: None,
        token_hash: None,
    };
    assert!(c.is_tombstoned());
}

#[test]
fn name_sets_list_in_order() {
    let vdafs = VdafNameSet::from_iter([
        VdafName::Other("b".into()),
        VdafName::Prio3Sum,
        VdafName::Other("ab".into()),
        VdafName::Other("a".into()),
        VdafName::Prio3Count,
    ]);
    assert_eq!(vdafs.to_vec(), vec![
        VdafName::Prio3Count,
        VdafName::Prio3Sum,
        VdafName::Other("a".into()),
        VdafName::Other("ab".into()),
        VdafName::Other("b".into()),
    ]);
    let query_types = QueryTypeNameSet::from_iter([
        QueryTypeName::Other("z".into()),
        QueryTypeName::FixedSize,
        QueryTypeName::TimeInterval,
    ]);
    assert_eq!(query_types.to_vec(), vec![
        QueryTypeName::TimeInterval,
        QueryTypeName::FixedSize,
        QueryTypeName::Other("z".into()),
    ]);
}
