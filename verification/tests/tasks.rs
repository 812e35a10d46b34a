use divviup_api::api_types::{
    AuthenticationToken, AuthenticationTokenHash, QueryType, TaskAggregationJobMetrics,
    TaskUploadMetrics,
};
use divviup_api::client::Role as DapRole;
use divviup_api::{
    aggregator_lookup_id, assert_same, in_the_future, visible_aggregator, Account, Aggregator,
    AggregatorApiConfig, AggregatorVdaf, CollectorCredential, Crypter, Feature, Features,
    NewAggregator, NewTask, Protocol, ProvisionableTask, QueryTypeName, QueryTypeNameSet, Role,
    ServiceError, Sum, Task, TaskCreate, TaskProvisioningError, TaskResponse, UpdateTask, Url,
    Vdaf, VdafName, VdafNameSet,
};

fn aggregator(api: &str, role: Role, first_party: bool, protocol: &str) -> Aggregator {
    let config = AggregatorApiConfig {
        dap_url: Url::parse(&format!("{api}dap/")).unwrap(),
        role,
        vdafs: VdafNameSet::from_iter([VdafName::Prio3Count, VdafName::Prio3Sum]),
        query_types: QueryTypeNameSet::from_iter([
            QueryTypeName::TimeInterval,
            QueryTypeName::FixedSize,
        ]),
        protocol: Protocol { name: protocol.into() },
        features: Features::from_iter([Feature::TokenHash]),
    };
    NewAggregator {
        name: Some("aggregator".into()),
        api_url: Some(api.into()),
        bearer_token: Some("token".into()),
        is_first_party: Some(first_party),
    }
    .build(None, config, &Crypter::from_key([1; 16]))
    .unwrap()
}

fn account() -> Account {
    Account::build("account".into()).unwrap()
}

fn credential() -> CollectorCredential {
    CollectorCredential {
        id: 99,
        account_id: 1,
        contents: vec![1, 2, 3],
        created_at: 0,
        deleted_at: None,
        updated_at: 0,
        name: None,
        token_hash: Some("hash".into()),
    }
}

fn request() -> NewTask {
    NewTask {
        name: Some("task".into()),
        leader_aggregator_id: Some("leader".into()),
        helper_aggregator_id: Some("helper".into()),
        vdaf: Some(Vdaf::Sum(Sum { bits: Some(8) })),
        min_batch_size: Some(100),
        max_batch_size: None,
        expiration: Some(2_000_000_000_000_000_000),
        time_precision_seconds: Some(3600),
        hpke_config_id: Some("config".into()),
    }
}

fn validate(request: NewTask, leader: Option<Aggregator>, helper: Option<Aggregator>) -> Result<ProvisionableTask, divviup_api::ValidationErrors> {
    request.validate_at(
        account(),
        1_000_000_000_000_000_000,
        [0; 16],
        Some(credential()),
        leader,
        helper,
    )
}

fn leader() -> Aggregator {
    aggregator("https://leader.example.com/", Role::Leader, true, "DAP-09")
}

fn helper() -> Aggregator {
    aggregator("https://helper.example.com/", Role::Helper, false, "DAP-09")
}

#[test]
fn valid_requests_become_provisionable_tasks() {
    let task = validate(request(), Some(leader()), Some(helper())).unwrap();
    assert_eq!(task.name, "task");
    assert!(matches!(task.aggregator_vdaf, AggregatorVdaf::Prio3Sum { bits: 8 }));
    assert_eq!(task.min_batch_size, 100);
    assert_eq!(task.protocol.name, "DAP-09");
    // sixteen zero bytes, URL-safe base64 without padding
    assert_eq!(task.vdaf_verify_key, "AAAAAAAAAAAAAAAAAAAAAA");
    assert_eq!(task.id.len(), 43);
    assert_eq!(task.query_type(), QueryType::TimeInterval);
}

#[test]
fn field_rules_of_new_tasks() {
    let errors = validate(
        NewTask {
            name: Some(String::new()),
            min_batch_size: Some(99),
            max_batch_size: Some(50),
            expiration: Some(5),
            time_precision_seconds: Some(59),
            vdaf: None,
            ..request()
        },
        Some(leader()),
        Some(helper()),
    )
    .unwrap_err();
    assert_eq!(errors.codes_for("name"), vec!["length"]);
    assert_eq!(errors.codes_for("min_batch_size"), vec!["range", "min_greater_than_max"]);
    assert_eq!(errors.codes_for("max_batch_size"), vec!["min_greater_than_max"]);
    assert_eq!(errors.codes_for("expiration"), vec!["past"]);
    assert_eq!(errors.codes_for("time_precision_seconds"), vec!["range"]);
    assert_eq!(errors.codes_for("vdaf"), vec!["required"]);
}

#[test]
fn aggregator_rules_of_new_tasks() {
    let errors = validate(request(), None, Some(helper())).unwrap_err();
    assert_eq!(errors.codes_for("leader_aggregator_id"), vec!["required"]);
    let errors = validate(
        request(),
        Some(aggregator("https://a.example.com/", Role::Helper, false, "DAP-09")),
        Some(aggregator("https://b.example.com/", Role::Leader, false, "DAP-09")),
    )
    .unwrap_err();
    assert_eq!(errors.codes_for("leader_aggregator_id"), vec!["no-first-party", "role"]);
    assert_eq!(errors.codes_for("helper_aggregator_id"), vec!["no-first-party", "role"]);
    let errors = validate(
        request(),
        Some(leader()),
        Some(aggregator("https://h.example.com/", Role::Helper, false, "DAP-07")),
    )
    .unwrap_err();
    assert_eq!(errors.codes_for("leader_aggregator_id"), vec!["protocol"]);
    assert_eq!(errors.codes_for("helper_aggregator_id"), vec!["protocol"]);
}

#[test]
fn unsupported_vdafs_are_refused() {
    let errors = validate(
        NewTask { vdaf: Some(Vdaf::CountVec(divviup_api::CountVec { length: Some(3), chunk_length: None })), ..request() },
        Some(leader()),
        Some(helper()),
    );
    assert!(errors.is_ok());
    let mut picky = helper();
    picky.vdafs = VdafNameSet::from_iter([VdafName::Prio3Count]);
    let errors = validate(request(), Some(leader()), Some(picky)).unwrap_err();
    assert_eq!(errors.errors.len(), 1);
    assert_eq!(errors.errors[0].path, vec!["vdaf", "type"]);
    assert_eq!(errors.errors[0].code, "not-supported");
    let mut interval_only = helper();
    interval_only.query_types = QueryTypeNameSet::from_iter([QueryTypeName::TimeInterval]);
    let errors = validate(
        NewTask { max_batch_size: Some(200), ..request() },
        Some(leader()),
        Some(interval_only),
    )
    .unwrap_err();
    assert_eq!(errors.codes_for("max_batch_size"), vec!["not-supported"]);
}

#[test]
fn unready_histograms_are_answered_when_aggregators_fail() {
    let histogram = Vdaf::Histogram(divviup_api::Histogram::Opaque(divviup_api::BucketLength {
        length: 5,
        chunk_length: None,
        dp_strategy: divviup_api::DpStrategy::default(),
    }));
    let errors = validate(NewTask { vdaf: Some(histogram), ..request() }, Some(leader()), None)
        .unwrap_err();
    assert_eq!(errors.codes_for("helper_aggregator_id"), vec!["required"]);
}

#[test]
fn times_in_the_past_are_refused() {
    assert_eq!(in_the_future(10, 5), Ok(()));
    assert_eq!(in_the_future(5, 5), Ok(()));
    assert_eq!(in_the_future(4, 5), Err("past"));
}

#[test]
fn aggregators_of_other_accounts_are_not_visible() {
    let mut owned = leader();
    owned.account_id = Some(5);
    assert!(visible_aggregator(Some(owned), 6).is_none());
    let mut owned = leader();
    owned.account_id = Some(5);
    assert!(visible_aggregator(Some(owned), 5).is_some());
    assert!(visible_aggregator(Some(leader()), 6).is_some());
    assert_eq!(
        aggregator_lookup_id(&Some("67e55044-10b1-426f-9247-bb680e5fe0c8".into())),
        Some(0x67e55044_10b1_426f_9247_bb680e5fe0c8)
    );
    assert_eq!(aggregator_lookup_id(&Some("not a uuid".into())), None);
    assert_eq!(aggregator_lookup_id(&None), None);
}

fn provisionable() -> ProvisionableTask {
    let mut task = validate(
        NewTask { max_batch_size: Some(500), expiration: Some(2_000_000_000_123_456_789), ..request() },
        Some(leader()),
        Some(helper()),
    )
    .unwrap();
    task.collector_credential = credential();
    task
}

#[test]
fn task_creation_requests() {
    let task = provisionable();
    let to_leader = TaskCreate::build(&task.leader_aggregator, &task);
    assert_eq!(to_leader.role, DapRole::Leader);
    assert!(to_leader.role.is_leader());
    assert_eq!(to_leader.peer_aggregator_endpoint.as_str(), "https://helper.example.com/dap/");
    assert_eq!(to_leader.task_expiration, Some(2_000_000_000));
    assert_eq!(to_leader.max_batch_query_count, 1);
    assert_eq!(
        to_leader.query_type,
        QueryType::FixedSize { max_batch_size: 500, batch_time_window_size: None }
    );
    assert!(matches!(
        to_leader.collector_auth_token_hash,
        Some(AuthenticationTokenHash::Bearer { ref hash }) if hash == "hash"
    ));
    let to_helper = TaskCreate::build(&task.helper_aggregator, &task);
    assert_eq!(to_helper.role, DapRole::Helper);
    assert_eq!(to_helper.peer_aggregator_endpoint.as_str(), "https://leader.example.com/dap/");
    assert!(to_helper.collector_auth_token_hash.is_none());
    assert!(to_helper.aggregator_auth_token.is_none());
}

fn response_for(task: &ProvisionableTask) -> TaskResponse {
    TaskResponse {
        task_id: task.id.clone(),
        peer_aggregator_endpoint: Url::parse("https://peer.example.com/").unwrap(),
        query_type: task.query_type(),
        vdaf: AggregatorVdaf::Prio3Sum { bits: 8 },
        role: DapRole::Helper,
        vdaf_verify_key: task.vdaf_verify_key.clone(),
        max_batch_query_count: 1,
        task_expiration: Some(2_000_000_000),
        report_expiry_age: None,
        min_batch_size: task.min_batch_size,
        time_precision: task.time_precision_seconds,
        tolerable_clock_skew: 60,
        collector_hpke_config: vec![],
        aggregator_auth_token: Some(AuthenticationToken::new("helper-token".into())),
        collector_auth_token: None,
        aggregator_hpke_configs: vec![],
    }
}

fn discrepancy(r: Result<(), ServiceError>) -> &'static str {
    match r {
        Err(ServiceError::TaskProvisioning(TaskProvisioningError::Discrepancy(p))) => p,
        other => panic!("unexpected {other:?}"),
    }
}

#[test]
fn aggregator_answers_are_checked() {
    let mut task = provisionable();
    let response = response_for(&task);
    assert!(task.check_response(&response).is_ok());
    let wrong = TaskResponse { min_batch_size: 1, ..response_for(&task) };
    assert_eq!(discrepancy(task.check_response(&wrong)), "min_batch_size");
    let wrong = TaskResponse { vdaf: AggregatorVdaf::Prio3Count, ..response_for(&task) };
    assert_eq!(discrepancy(task.check_response(&wrong)), "vdaf");
    let wrong = TaskResponse { task_expiration: Some(2_000_000_001), ..response_for(&task) };
    assert_eq!(discrepancy(task.check_response(&wrong)), "task_expiration");
    let wrong = TaskResponse { task_id: "other".into(), ..response_for(&task) };
    assert_eq!(discrepancy(task.check_response(&wrong)), "task_id");
    let wrong = TaskResponse { task_expiration: Some(i64::MAX as u64), ..response_for(&task) };
    assert!(matches!(task.check_response(&wrong), Err(ServiceError::TimeRange)));
    task.record_helper_response(response);
    assert_eq!(task.aggregator_auth_token.as_deref(), Some("helper-token"));
    let to_leader = TaskCreate::build(&task.leader_aggregator, &task);
    assert!(matches!(
        to_leader.aggregator_auth_token,
        Some(AuthenticationToken::Bearer { ref token }) if token == "helper-token"
    ));
}

#[test]
fn provisioning_asks_the_helper_then_the_leader() {
    let mut task = provisionable();
    let wrong = TaskResponse { min_batch_size: 1, ..response_for(&task) };
    assert_eq!(discrepancy(task.helper_answered(wrong)), "min_batch_size");
    assert_eq!(task.aggregator_auth_token, None);
    let helper_response = response_for(&task);
    task.helper_answered(helper_response).unwrap();
    assert_eq!(task.aggregator_auth_token.as_deref(), Some("helper-token"));
    let leader_response = TaskResponse { aggregator_auth_token: None, ..response_for(&task) };
    let stored = task.leader_answered(leader_response).unwrap();
    assert_eq!(stored.report_counter_expired, 0);
    assert_eq!(stored.aggregation_job_counter_helper_report_too_early, 0);
    assert_eq!(stored.report_count, 0);
}

#[test]
fn provisioned_tasks_are_stored() {
    let task = provisionable();
    let leader_id = task.leader_aggregator.id;
    let stored = task.into_task().unwrap();
    assert_eq!(stored.min_batch_size, 100);
    assert_eq!(stored.max_batch_size, Some(500));
    assert_eq!(stored.time_precision_seconds, 3600);
    assert_eq!(stored.leader_aggregator_id, leader_id);
    assert_eq!(stored.report_counter_success, 0);
    let mut huge = provisionable();
    huge.time_precision_seconds = u64::MAX;
    assert!(matches!(huge.into_task(), Err(ServiceError::NumericConversion)));
}

fn stored_task() -> Task {
    provisionable().into_task().unwrap()
}

#[test]
fn upload_metrics_saturate() {
    let metrics = TaskUploadMetrics { report_success: 12, task_expired: u64::MAX, ..TaskUploadMetrics::default() };
    let task = stored_task().update_task_upload_metrics(metrics);
    assert_eq!(task.report_counter_success, 12);
    assert_eq!(task.report_counter_task_expired, i64::MAX);
    assert!(metrics != task);
    let fits = TaskUploadMetrics { report_success: 12, interval_collected: 3, ..TaskUploadMetrics::default() };
    let task = task.update_task_upload_metrics(fits);
    assert!(fits == task);
}

#[test]
fn aggregation_job_metrics_saturate() {
    let metrics = TaskAggregationJobMetrics { success: 7, helper_report_too_early: u64::MAX, ..TaskAggregationJobMetrics::default() };
    let task = stored_task().update_task_aggregation_job_metrics(metrics);
    assert_eq!(task.aggregation_job_counter_success, 7);
    assert_eq!(task.aggregation_job_counter_helper_report_too_early, i64::MAX);
    assert!(metrics != task);
    let fits = TaskAggregationJobMetrics { success: 7, ..TaskAggregationJobMetrics::default() };
    let task = task.update_task_aggregation_job_metrics(fits);
    assert!(fits == task);
}

#[test]
fn updating_tasks() {
    let task = stored_task();
    let updated_at = task.updated_at;
    let same = UpdateTask { name: None, expiration: None }.update(task, None).unwrap();
    assert_eq!(same.updated_at, updated_at);
    let renamed =
        UpdateTask { name: Some("renamed".into()), expiration: None }.update(same, None).unwrap();
    assert_eq!(renamed.name, "renamed");
    let change = UpdateTask::expiration(Some(3_000_000_000_500_000_000));
    assert_eq!(change.expiration_seconds(), Some(3_000_000_000));
    assert_eq!(change.aggregator_expiration().unwrap(), Some(Some(3_000_000_000)));
    let no_expiry = UpdateTask::expiration(None).update(renamed, Some((None, None))).unwrap();
    assert_eq!(no_expiry.expiration, None);
    let refused = UpdateTask { name: Some(String::new()), expiration: Some(None) };
    assert_eq!(refused.aggregator_expiration().unwrap_err().codes_for("name"), vec![
        "name-too-short"
    ]);
    match refused.update(no_expiry, None) {
        Err(ServiceError::Validation(e)) => assert_eq!(e.codes_for("name"), vec!["name-too-short"]),
        other => panic!("unexpected {other:?}"),
    }
    assert!(UpdateTask::check_expiration_response(Some(5), Some(5)).is_ok());
    assert!(UpdateTask::check_expiration_response(Some(5), None).is_err());
}

#[test]
fn updating_expiration_needs_both_aggregators() {
    assert_eq!(UpdateTask { name: None, expiration: None }.aggregator_expiration().unwrap(), None);
    let at = 3_000_000_000_500_000_000;
    let helper_disagrees = UpdateTask::expiration(Some(at))
        .update(stored_task(), Some((Some(3_000_000_000), Some(4))));
    assert!(matches!(
        helper_disagrees,
        Err(ServiceError::TaskProvisioning(TaskProvisioningError::Discrepancy("expiration")))
    ));
    let leader_disagrees =
        UpdateTask::expiration(Some(at)).update(stored_task(), Some((None, Some(3_000_000_000))));
    assert!(leader_disagrees.is_err());
    let task = stored_task();
    let before = (task.id.clone(), task.min_batch_size, task.report_counter_success);
    let agreed = UpdateTask::expiration(Some(at))
        .update(task, Some((Some(3_000_000_000), Some(3_000_000_000))))
        .unwrap();
    assert_eq!(agreed.expiration, Some(at));
    assert_eq!((agreed.id.clone(), agreed.min_batch_size, agreed.report_counter_success), before);
}

#[test]
fn same_values_pass() {
    assert_eq!(assert_same(1u64, 1u64, "x").is_ok(), true);
    assert!(matches!(assert_same(1u64, 2u64, "x"), Err(TaskProvisioningError::Discrepancy("x"))));
}
