use crate::query_type_name::{query_type_name_parse, query_type_name_text};
use crate::account::Account;
use crate::aggregator::{same_aggregator, Aggregator};
use crate::aggregator_vdaf::AggregatorVdaf;
use crate::api_token::{sha256, spec_sha256};
use crate::api_types::QueryType;
use crate::clock::now_unix_nanos;
use crate::credentials::CollectorCredential;
use crate::encoding::{base64url_encode, spec_base64url_encode};
use crate::protocol::Protocol;
use crate::role::Role;
use crate::validation::{
    add_if, error_if, field_error, nested_error, ValidationErrors,
};
use crate::vdaf::{representation_defined, vdaf_errors, vdaf_name_of, vdaf_representation, Vdaf};
use ::rand::Rng;
use vstd::prelude::*;

verus! {

/// The longest time precision of a task, in seconds: four weeks.
pub const MAX_TIME_PRECISION_SECONDS: u64 = 2592000;

/// The shortest time precision of a task, in seconds.
pub const MIN_TIME_PRECISION_SECONDS: u64 = 60;

/// The smallest minimum batch size of a task.
pub const MIN_MIN_BATCH_SIZE: u64 = 100;

/// A request to create a task. The expiration is in nanoseconds since the
/// Unix epoch.
#[derive(Debug)]
pub struct NewTask {
    pub name: Option<String>,
    pub leader_aggregator_id: Option<String>,
    pub helper_aggregator_id: Option<String>,
    pub vdaf: Option<Vdaf>,
    pub min_batch_size: Option<u64>,
    pub max_batch_size: Option<u64>,
    pub expiration: Option<i128>,
    pub time_precision_seconds: Option<u64>,
    pub hpke_config_id: Option<String>,
}

/// An error list, each error moved under `field`.
pub open spec fn nested_under(field: Seq<char>, errs: Seq<(Seq<Seq<char>>, Seq<char>)>) -> Seq<
    (Seq<Seq<char>>, Seq<char>),
> {
    errs.map_values(|e: (Seq<Seq<char>>, Seq<char>)| nested_error(field, e))
}

/// The rules of the request's own fields, checked at the time `now`: a
/// name of at least one character, both aggregator ids, a valid VDAF, a
/// minimum batch size of at least 100, an expiration not in the past, a
/// time precision from one minute to four weeks, and an HPKE configuration
/// id.
pub open spec fn new_task_field_errors(n: NewTask, now: i128) -> Seq<(Seq<Seq<char>>, Seq<char>)> {
    task_naming_errors(n) + task_parameter_errors(n, now)
}

/// The rules on the name, the aggregator ids and the VDAF of the request.
pub open spec fn task_naming_errors(n: NewTask) -> Seq<(Seq<Seq<char>>, Seq<char>)> {
    (match n.name {
        None => seq![field_error("name"@, "required"@)],
        Some(s) => error_if(s@.len() < 1, "name"@, "length"@),
    }) + error_if(n.leader_aggregator_id is None, "leader_aggregator_id"@, "required"@)
        + error_if(n.helper_aggregator_id is None, "helper_aggregator_id"@, "required"@) + (
    match n.vdaf {
        None => seq![field_error("vdaf"@, "required"@)],
        Some(v) => nested_under("vdaf"@, vdaf_errors(v)),
    })
}

/// The rules on the batch size, expiration, time precision and HPKE
/// configuration id of the request, checked at the time `now`.
pub open spec fn task_parameter_errors(n: NewTask, now: i128) -> Seq<(Seq<Seq<char>>, Seq<char>)> {
    (match n.min_batch_size {
        None => seq![field_error("min_batch_size"@, "required"@)],
        Some(m) => error_if(m < MIN_MIN_BATCH_SIZE, "min_batch_size"@, "range"@),
    }) + (match n.expiration {
        None => seq![],
        Some(t) => error_if(t < now, "expiration"@, "past"@),
    }) + (match n.time_precision_seconds {
        None => seq![field_error("time_precision_seconds"@, "required"@)],
        Some(p) => error_if(
            p < MIN_TIME_PRECISION_SECONDS || p > MAX_TIME_PRECISION_SECONDS,
            "time_precision_seconds"@,
            "range"@,
        ),
    }) + error_if(n.hpke_config_id is None, "hpke_config_id"@, "required"@)
}

/// The rule that the minimum batch size is at most the maximum one.
pub open spec fn min_max_errors(n: NewTask) -> Seq<(Seq<Seq<char>>, Seq<char>)> {
    match (n.min_batch_size, n.max_batch_size) {
        (Some(min), Some(max)) => if min > max {
            seq![
                field_error("min_batch_size"@, "min_greater_than_max"@),
                field_error("max_batch_size"@, "min_greater_than_max"@),
            ]
        } else {
            seq![]
        },
        _ => seq![],
    }
}

/// The rules on the pair of aggregators: both must be found; they must
/// differ; one of them must be first party; they must speak the same
/// protocol; and the leader must be able to lead and the helper to help.
/// Once the protocols differ, the roles are not looked at.
pub open spec fn aggregator_errors(leader: Option<Aggregator>, helper: Option<Aggregator>) -> Seq<
    (Seq<Seq<char>>, Seq<char>),
> {
    error_if(leader is None, "leader_aggregator_id"@, "required"@) + error_if(
        helper is None,
        "helper_aggregator_id"@,
        "required"@,
    ) + match (leader, helper) {
        (Some(l), Some(h)) => pair_error(same_aggregator(l, h), "same"@) + pair_error(
            !l.is_first_party && !h.is_first_party,
            "no-first-party"@,
        ) + if l.protocol.name@ != h.protocol.name@ {
            pair_error(true, "protocol"@)
        } else {
            error_if(l.role == Role::Helper, "leader_aggregator_id"@, "role"@) + error_if(
                h.role == Role::Leader,
                "helper_aggregator_id"@,
                "role"@,
            )
        },
        _ => seq![],
    }
}

/// The same error on both aggregator ids, when `cond` holds.
pub open spec fn pair_error(cond: bool, code: Seq<char>) -> Seq<(Seq<Seq<char>>, Seq<char>)> {
    error_if(cond, "leader_aggregator_id"@, code) + error_if(cond, "helper_aggregator_id"@, code)
}

/// The name of the query type of a task with the given maximum batch size.
pub open spec fn query_type_name_for(max_batch_size: Option<u64>) -> (u8, Seq<char>) {
    match max_batch_size {
        Some(_) => (2u8, Seq::<char>::empty()),
        None => (1u8, Seq::<char>::empty()),
    }
}

/// A task with a maximum batch size needs aggregators that advertise the
/// query type "FixedSize", and one without needs "TimeInterval".
pub proof fn lemma_query_type_names_for_tasks(max_batch_size: Option<u64>)
    ensures
        query_type_name_text(query_type_name_for(max_batch_size)) == (match max_batch_size {
            Some(_) => "FixedSize"@,
            None => "TimeInterval"@,
        }),
        query_type_name_parse(query_type_name_text(query_type_name_for(max_batch_size)))
            == query_type_name_for(max_batch_size),
{
    crate::query_type_name::lemma_query_type_name_texts(
        query_type_name_text(query_type_name_for(max_batch_size)),
    );
}

/// The rule that both aggregators support the task's query type.
pub open spec fn query_type_support_errors(n: NewTask, l: Aggregator, h: Aggregator) -> Seq<
    (Seq<Seq<char>>, Seq<char>),
> {
    let name = query_type_name_for(n.max_batch_size);
    error_if(
        !(l.query_types@.contains(name) && h.query_types@.contains(name)),
        "max_batch_size"@,
        "not-supported"@,
    )
}

/// The rule that both aggregators support the task's VDAF, checked when the
/// VDAF can be described to them.
pub open spec fn vdaf_support_errors(v: Vdaf, l: Aggregator, h: Aggregator) -> Seq<
    (Seq<Seq<char>>, Seq<char>),
> {
    if describable(v) {
        let name = vdaf_name_of(v);
        if !(l.vdafs@.contains(name) && h.vdafs@.contains(name)) {
            seq![nested_error("vdaf"@, field_error("type"@, "not-supported"@))]
        } else {
            seq![]
        }
    } else {
        seq![]
    }
}

/// Whether a VDAF has every parameter that its description needs.
pub open spec fn describable(v: Vdaf) -> bool {
    match v {
        Vdaf::Count => true,
        Vdaf::Histogram(_) => true,
        Vdaf::Sum(s) => s.bits is Some,
        Vdaf::SumVec(sv) => sv.length is Some && sv.bits is Some,
        Vdaf::CountVec(cv) => cv.length is Some,
        Vdaf::Unrecognized => false,
    }
}

/// The rules that a request to create a task breaks before the support of
/// its query type and VDAF is looked at: those of its own fields, of its
/// batch sizes, of its collector credential and of its aggregators.
pub open spec fn new_task_base_errors(
    n: NewTask,
    now: i128,
    credential: Option<CollectorCredential>,
    leader: Option<Aggregator>,
    helper: Option<Aggregator>,
) -> Seq<(Seq<Seq<char>>, Seq<char>)> {
    new_task_field_errors(n, now) + min_max_errors(n) + error_if(
        credential is None,
        "hpke_config_id"@,
        "required"@,
    ) + aggregator_errors(leader, helper)
}

/// Whether the VDAF of a request is ready to be described to the
/// aggregators by the time it would be: once both were found and no other
/// rule is broken at `now`.
pub open spec fn new_task_vdaf_ready_at(
    n: NewTask,
    now: i128,
    credential: Option<CollectorCredential>,
    leader: Option<Aggregator>,
    helper: Option<Aggregator>,
) -> bool {
    (leader is Some && helper is Some && new_task_base_errors(n, now, credential, leader, helper).len()
        == 0) ==> new_task_vdaf_ready(n)
}

/// All the rules that a request to create a task breaks, checked at the
/// time `now`, with the collector credential and the aggregators that its
/// ids found. The support of the query type and of the VDAF is checked only
/// once every earlier rule holds and both aggregators were found.
pub open spec fn new_task_errors(
    n: NewTask,
    now: i128,
    credential: Option<CollectorCredential>,
    leader: Option<Aggregator>,
    helper: Option<Aggregator>,
) -> Seq<(Seq<Seq<char>>, Seq<char>)> {
    let base = new_task_base_errors(n, now, credential, leader, helper);
    match (leader, helper) {
        (Some(l), Some(h)) => if base.len() == 0 {
            base + query_type_support_errors(n, l, h) + match n.vdaf {
                Some(v) => vdaf_support_errors(v, l, h),
                None => seq![],
            }
        } else {
            base
        },
        _ => base,
    }
}

/// A task that passed validation and can be created at both aggregators.
/// Times are nanoseconds since the Unix epoch.
#[derive(Debug)]
pub struct ProvisionableTask {
    pub account: Account,
    pub id: String,
    pub vdaf_verify_key: String,
    pub name: String,
    pub leader_aggregator: Aggregator,
    pub helper_aggregator: Aggregator,
    pub vdaf: Vdaf,
    pub aggregator_vdaf: AggregatorVdaf,
    pub min_batch_size: u64,
    pub max_batch_size: Option<u64>,
    pub batch_time_window_size_seconds: Option<u64>,
    pub expiration: Option<i128>,
    pub time_precision_seconds: u64,
    pub collector_credential: CollectorCredential,
    pub aggregator_auth_token: Option<String>,
    pub protocol: Protocol,
}

/// What validating a request to create a task gives, at the time `now` and
/// with the random verify key `key`: the task, or every rule broken.
pub open spec fn new_task_outcome(
    n: NewTask,
    account: Account,
    now: i128,
    key: Seq<u8>,
    credential: Option<CollectorCredential>,
    leader: Option<Aggregator>,
    helper: Option<Aggregator>,
    r: Result<ProvisionableTask, ValidationErrors>,
) -> bool {
    let errs = new_task_errors(n, now, credential, leader, helper);
    match r {
        Err(e) => errs.len() > 0 && e@ == errs,
        Ok(t) => {
            &&& errs.len() == 0
            &&& t.account == account
            &&& n.name == Some(t.name)
            &&& leader == Some(t.leader_aggregator)
            &&& helper == Some(t.helper_aggregator)
            &&& n.vdaf == Some(t.vdaf)
            &&& vdaf_representation(t.vdaf, Ok(t.aggregator_vdaf))
            &&& n.min_batch_size == Some(t.min_batch_size)
            &&& t.max_batch_size == n.max_batch_size
            &&& t.batch_time_window_size_seconds is None
            &&& t.expiration == n.expiration
            &&& n.time_precision_seconds == Some(t.time_precision_seconds)
            &&& credential == Some(t.collector_credential)
            &&& t.aggregator_auth_token is None
            &&& t.protocol.name@ == t.leader_aggregator.protocol.name@
            &&& t.vdaf_verify_key@ == spec_base64url_encode(key)
            &&& t.id@ == spec_base64url_encode(spec_sha256(key))
        },
    }
}

/// The rule that a time is not in the past at `now`; the code of the failed
/// rule is `past`.
pub fn in_the_future(time: i128, now: i128) -> (r: Result<(), &'static str>)
    ensures
        r is Ok <==> time >= now,
        r matches Err(code) ==> code@ == "past"@,
{
    if time < now {
        Err("past")
    } else {
        Ok(())
    }
}

/// Sixteen random bytes from `rand::thread_rng` (`Rng::fill`). Nothing is
/// claimed of them.
#[verifier::external_body]
fn random_verify_key() -> (r: [u8; 16]) {
    let mut key = [0u8; 16];
    ::rand::thread_rng().fill(&mut key);
    key
}

/// What a request to create a task needs of its VDAF before it is checked:
/// a histogram must have its chunk length set and a consistent privacy
/// strategy, and a complete sum vector a consistent strategy.
pub open spec fn new_task_vdaf_ready(n: NewTask) -> bool {
    match n.vdaf {
        Some(v) => representation_defined(v),
        None => true,
    }
}

impl NewTask {
    /// Records the rules of the request's own fields, checked at `now`.
    fn check_fields(&self, now: i128, errors: &mut ValidationErrors)
        ensures
            final(errors)@ == old(errors)@ + new_task_field_errors(*self, now),
    {
        let ghost start = errors@;
        self.check_naming(errors);
        self.check_parameters(now, errors);
        proof {
            assert(errors@ =~= start + new_task_field_errors(*self, now));
        }
    }

    /// Records the rules on the name, the aggregator ids and the VDAF.
    fn check_naming(&self, errors: &mut ValidationErrors)
        ensures
            final(errors)@ == old(errors)@ + task_naming_errors(*self),
    {
        let ghost start = errors@;
        match &self.name {
            None => errors.add("name", "required"),
            Some(s) => add_if(errors, s.as_str().unicode_len() < 1, "name", "length"),
        }
        add_if(errors, self.leader_aggregator_id.is_none(), "leader_aggregator_id", "required");
        add_if(errors, self.helper_aggregator_id.is_none(), "helper_aggregator_id", "required");
        let ghost before_vdaf = errors@;
        match &self.vdaf {
            None => errors.add("vdaf", "required"),
            Some(v) => match v.validate() {
                Ok(()) => {
                    proof {
                        assert(nested_under("vdaf"@, vdaf_errors(*v)) =~= Seq::<
                            (Seq<Seq<char>>, Seq<char>),
                        >::empty());
                        assert(errors@ =~= before_vdaf + nested_under("vdaf"@, vdaf_errors(*v)));
                    }
                },
                Err(e) => errors.nest("vdaf", e),
            },
        }
        proof {
            assert(errors@ =~= start + task_naming_errors(*self));
        }
    }

    /// Records the rules on the batch size, expiration, time precision and
    /// HPKE configuration id, checked at `now`.
    fn check_parameters(&self, now: i128, errors: &mut ValidationErrors)
        ensures
            final(errors)@ == old(errors)@ + task_parameter_errors(*self, now),
    {
        let ghost start = errors@;
        match self.min_batch_size {
            None => errors.add("min_batch_size", "required"),
            Some(m) => add_if(errors, m < MIN_MIN_BATCH_SIZE, "min_batch_size", "range"),
        }
        match self.expiration {
            None => {},
            Some(t) => add_if(errors, in_the_future(t, now).is_err(), "expiration", "past"),
        }
        match self.time_precision_seconds {
            None => errors.add("time_precision_seconds", "required"),
            Some(p) => add_if(
                errors,
                p < MIN_TIME_PRECISION_SECONDS || p > MAX_TIME_PRECISION_SECONDS,
                "time_precision_seconds",
                "range",
            ),
        }
        add_if(errors, self.hpke_config_id.is_none(), "hpke_config_id", "required");
        proof {
            assert(errors@ =~= start + task_parameter_errors(*self, now));
        }
    }

    /// Records the rule that the minimum batch size is at most the maximum.
    fn validate_min_lte_max(&self, errors: &mut ValidationErrors)
        ensures
            final(errors)@ == old(errors)@ + min_max_errors(*self),
    {
        match (self.min_batch_size, self.max_batch_size) {
            (Some(min), Some(max)) => if min > max {
                errors.add("min_batch_size", "min_greater_than_max");
                errors.add("max_batch_size", "min_greater_than_max");
                proof {
                    assert(errors@ =~= old(errors)@ + min_max_errors(*self));
                }
            } else {
                proof {
                    assert(errors@ =~= old(errors)@ + min_max_errors(*self));
                }
            },
            _ => {
                proof {
                    assert(errors@ =~= old(errors)@ + min_max_errors(*self));
                }
            },
        }
    }

    /// Records the rules on the pair of aggregators, and gives them with
    /// their common protocol when they were found and no rule at all has
    /// failed so far.
    fn validate_aggregators(
        leader: Option<Aggregator>,
        helper: Option<Aggregator>,
        errors: &mut ValidationErrors,
    ) -> (r: Option<(Aggregator, Aggregator, Protocol)>)
        ensures
            final(errors)@ == old(errors)@ + aggregator_errors(leader, helper),
            match r {
                Some((l, h, p)) => leader == Some(l) && helper == Some(h) && final(errors)@.len()
                    == 0 && p.name@ == l.protocol.name@,
                None => leader is None || helper is None || final(errors)@.len() > 0,
            },
    {
        let ghost start = errors@;
        add_if(errors, leader.is_none(), "leader_aggregator_id", "required");
        add_if(errors, helper.is_none(), "helper_aggregator_id", "required");
        let (l, h) = match (leader, helper) {
            (Some(l), Some(h)) => (l, h),
            _ => {
                proof {
                    assert(errors@ =~= start + aggregator_errors(leader, helper));
                }
                return None;
            },
        };
        let same = l.same_as(&h);
        add_if(errors, same, "leader_aggregator_id", "same");
        add_if(errors, same, "helper_aggregator_id", "same");
        let no_first_party = !l.is_first_party && !h.is_first_party;
        add_if(errors, no_first_party, "leader_aggregator_id", "no-first-party");
        add_if(errors, no_first_party, "helper_aggregator_id", "no-first-party");
        if !l.protocol.same_as(&h.protocol) {
            errors.add("leader_aggregator_id", "protocol");
            errors.add("helper_aggregator_id", "protocol");
            proof {
                assert(errors@ =~= start + aggregator_errors(leader, helper));
            }
            return None;
        }
        add_if(errors, l.role == Role::Helper, "leader_aggregator_id", "role");
        add_if(errors, h.role == Role::Leader, "helper_aggregator_id", "role");
        proof {
            assert(errors@ =~= start + aggregator_errors(leader, helper));
        }
        if errors.is_empty() {
            let protocol = l.protocol.duplicate();
            Some((l, h, protocol))
        } else {
            None
        }
    }

    /// Records the rule that both aggregators support the query type.
    fn validate_query_type_is_supported(
        &self,
        leader: &Aggregator,
        helper: &Aggregator,
        errors: &mut ValidationErrors,
    )
        ensures
            final(errors)@ == old(errors)@ + query_type_support_errors(*self, *leader, *helper),
    {
        let name = QueryType::from_max_batch_size(self.max_batch_size).name();
        let supported = leader.query_types.contains(&name) && helper.query_types.contains(&name);
        add_if(errors, !supported, "max_batch_size", "not-supported");
    }

    /// Records the rule that both aggregators support the VDAF, and gives
    /// the VDAF as the aggregators describe it, where it can be described.
    fn validate_vdaf_is_supported(
        vdaf: &Vdaf,
        leader: &Aggregator,
        helper: &Aggregator,
        protocol: &Protocol,
        errors: &mut ValidationErrors,
    ) -> (r: Option<AggregatorVdaf>)
        requires
            representation_defined(*vdaf),
        ensures
            final(errors)@ == old(errors)@ + vdaf_support_errors(*vdaf, *leader, *helper),
            match r {
                Some(av) => describable(*vdaf) && vdaf_representation(*vdaf, Ok(av)),
                None => !describable(*vdaf),
            },
    {
        let name = vdaf.name();
        match vdaf.representation_for_protocol(protocol) {
            Err(e) => {
                errors.nest("vdaf", e);
                proof {
                    assert(errors@ =~= old(errors)@ + vdaf_support_errors(*vdaf, *leader, *helper));
                }
                None
            },
            Ok(av) => {
                if !leader.vdafs.contains(&name) || !helper.vdafs.contains(&name) {
                    let mut inner = ValidationErrors::new();
                    inner.add("type", "not-supported");
                    errors.nest("vdaf", inner);
                    proof {
                        assert(errors@ =~= old(errors)@ + vdaf_support_errors(
                            *vdaf,
                            *leader,
                            *helper,
                        ));
                    }
                } else {
                    proof {
                        assert(errors@ =~= old(errors)@ + vdaf_support_errors(
                            *vdaf,
                            *leader,
                            *helper,
                        ));
                    }
                }
                Some(av)
            },
        }
    }

    /// Checks a request to create a task at the time `now`, with the
    /// collector credential and the aggregators that its ids found, and
    /// builds the task with the verify key `key`: its id is the URL-safe
    /// base64 of the key's SHA-256 digest.
    pub fn validate_at(
        self,
        account: Account,
        now: i128,
        key: [u8; 16],
        credential: Option<CollectorCredential>,
        leader: Option<Aggregator>,
        helper: Option<Aggregator>,
    ) -> (r: Result<ProvisionableTask, ValidationErrors>)
        requires
            new_task_vdaf_ready_at(self, now, credential, leader, helper),
        ensures
            new_task_outcome(self, account, now, key@, credential, leader, helper, r),
    {
        let ghost n = self;
        let mut errors = ValidationErrors::new();
        self.check_fields(now, &mut errors);
        self.validate_min_lte_max(&mut errors);
        add_if(&mut errors, credential.is_none(), "hpke_config_id", "required");
        let aggregators = NewTask::validate_aggregators(leader, helper, &mut errors);
        let ghost base = errors@;
        proof {
            assert(base =~= new_task_base_errors(n, now, credential, leader, helper));
        }
        let (l, h, protocol) = match aggregators {
            None => {
                proof {
                    assert(new_task_errors(n, now, credential, leader, helper) == base);
                }
                return Err(errors);
            },
            Some(found) => found,
        };
        self.validate_query_type_is_supported(&l, &h, &mut errors);
        let aggregator_vdaf = match &self.vdaf {
            Some(v) => NewTask::validate_vdaf_is_supported(v, &l, &h, &protocol, &mut errors),
            None => None,
        };
        proof {
            assert(errors@ =~= new_task_errors(n, now, credential, leader, helper));
        }
        if !errors.is_empty() {
            return Err(errors);
        }
        let av = match aggregator_vdaf {
            Some(av) => av,
            None => {
                proof {
                    lemma_describable_or_invalid(self.vdaf->Some_0);
                    assert(false);
                }
                return Err(errors);
            },
        };
        let vdaf_verify_key = base64url_encode(&key);
        let digest = sha256(&key);
        let id = base64url_encode(digest.as_slice());
        let (name, vdaf, min_batch_size, time_precision_seconds, credential) = match (
            self.name,
            self.vdaf,
            self.min_batch_size,
            self.time_precision_seconds,
            credential,
        ) {
            (Some(name), Some(vdaf), Some(min), Some(precision), Some(c)) => (
                name,
                vdaf,
                min,
                precision,
                c,
            ),
            _ => {
                proof {
                    assert(false);
                }
                return Err(errors);
            },
        };
        Ok(
            ProvisionableTask {
                account,
                id,
                vdaf_verify_key,
                name,
                leader_aggregator: l,
                helper_aggregator: h,
                vdaf,
                aggregator_vdaf: av,
                min_batch_size,
                max_batch_size: self.max_batch_size,
                batch_time_window_size_seconds: None,
                expiration: self.expiration,
                time_precision_seconds,
                collector_credential: credential,
                aggregator_auth_token: None,
                protocol,
            },
        )
    }

    /// Checks a request to create a task now, with the collector credential
    /// and the aggregators that its ids found, and builds the task with a
    /// fresh random verify key.
    pub fn validate(
        self,
        account: Account,
        credential: Option<CollectorCredential>,
        leader: Option<Aggregator>,
        helper: Option<Aggregator>,
    ) -> (r: Result<ProvisionableTask, ValidationErrors>)
        requires
            forall|now: i128| #[trigger]
                new_task_vdaf_ready_at(self, now, credential, leader, helper),
        ensures
            exists|now: i128, key: Seq<u8>|
                key.len() == 16 && new_task_outcome(
                    self,
                    account,
                    now,
                    key,
                    credential,
                    leader,
                    helper,
                    r,
                ),
    {
        let now = now_unix_nanos();
        let key = random_verify_key();
        let ghost n = self;
        proof {
            assert(new_task_vdaf_ready_at(n, now, credential, leader, helper));
        }
        let r = self.validate_at(account, now, key, credential, leader, helper);
        proof {
            assert(key@.len() == 16);
            assert(new_task_outcome(n, account, now, key@, credential, leader, helper, r));
        }
        r
    }
}

/// A task that passes validation has what creating it at both aggregators
/// needs: two different aggregators, one of them first party, that speak
/// the same protocol, a leader that can lead and a helper that can help,
/// both supporting its query type and VDAF; a minimum batch size of at
/// least 100 and no more than the maximum; a time precision from one minute
/// to four weeks; and an expiration no earlier than the time of validation.
pub proof fn lemma_valid_tasks_are_provisionable(
    n: NewTask,
    account: Account,
    now: i128,
    key: Seq<u8>,
    credential: Option<CollectorCredential>,
    leader: Option<Aggregator>,
    helper: Option<Aggregator>,
    r: Result<ProvisionableTask, ValidationErrors>,
)
    requires
        new_task_outcome(n, account, now, key, credential, leader, helper, r),
        r is Ok,
    ensures
        match (r, leader, helper) {
            (Ok(t), Some(l), Some(h)) => {
                &&& !same_aggregator(l, h)
                &&& l.is_first_party || h.is_first_party
                &&& l.protocol.name@ == h.protocol.name@
                &&& l.role != Role::Helper
                &&& h.role != Role::Leader
                &&& l.query_types@.contains(query_type_name_for(t.max_batch_size))
                &&& h.query_types@.contains(query_type_name_for(t.max_batch_size))
                &&& l.vdafs@.contains(vdaf_name_of(t.vdaf))
                &&& h.vdafs@.contains(vdaf_name_of(t.vdaf))
                &&& MIN_MIN_BATCH_SIZE <= t.min_batch_size
                &&& (t.max_batch_size matches Some(max) ==> t.min_batch_size <= max)
                &&& MIN_TIME_PRECISION_SECONDS <= t.time_precision_seconds
                    <= MAX_TIME_PRECISION_SECONDS
                &&& (t.expiration matches Some(e) ==> now <= e)
            },
            _ => false,
        },
{
    let t = r->Ok_0;
    let l = leader->Some_0;
    let h = helper->Some_0;
    let base = new_task_field_errors(n, now) + min_max_errors(n) + error_if(
        credential is None,
        "hpke_config_id"@,
        "required"@,
    ) + aggregator_errors(leader, helper);
    assert(base.len() == 0);
    assert(new_task_field_errors(n, now).len() == 0);
    assert(task_parameter_errors(n, now).len() == 0);
    assert(min_max_errors(n).len() == 0);
    assert(aggregator_errors(leader, helper).len() == 0);
    assert(query_type_support_errors(n, l, h).len() == 0);
    assert(vdaf_support_errors(t.vdaf, l, h).len() == 0);
    assert(describable(t.vdaf));
}

/// A VDAF that cannot be described to an aggregator breaks one of its own
/// rules.
proof fn lemma_describable_or_invalid(v: Vdaf)
    requires
        !describable(v),
    ensures
        vdaf_errors(v).len() > 0,
{
}

/// The aggregator that an account may use: a shared one, or one of its own.
pub open spec fn usable_by(a: Aggregator, account_id: u128) -> bool {
    a.account_id is None || a.account_id == Some(account_id)
}

/// The aggregator found for a task of an account, where the account may use
/// it.
pub fn visible_aggregator(found: Option<Aggregator>, account_id: u128) -> (r: Option<Aggregator>)
    ensures
        r == (match found {
            Some(a) => if usable_by(a, account_id) {
                Some(a)
            } else {
                None
            },
            None => None,
        }),
{
    match found {
        Some(a) => if a.account_id.is_none() || a.account_id == Some(account_id) {
            Some(a)
        } else {
            None
        },
        None => None,
    }
}

/// What `uuid::Uuid::parse_str` reads from a text: a UUID as its big-endian
/// value, or nothing where the text is not one.
pub uninterp spec fn spec_parse_uuid(s: Seq<char>) -> Option<u128>;

/// `uuid::Uuid::parse_str`, read as the UUID's big-endian value
/// (`as_u128`), the error dropped. The outcome is named `spec_parse_uuid`.
#[verifier::external_body]
fn parse_uuid(s: &str) -> (r: Option<u128>)
    ensures
        r == spec_parse_uuid(s@),
{
    match ::uuid::Uuid::parse_str(s) {
        Ok(u) => Some(u.as_u128()),
        Err(_) => None,
    }
}

/// The id to look an aggregator up by: the UUID that the request gives, or
/// nothing where it gives none or not a UUID.
pub fn aggregator_lookup_id(id: &Option<String>) -> (r: Option<u128>)
    ensures
        r == (match id {
            Some(s) => spec_parse_uuid(s@),
            None => None,
        }),
{
    match id {
        Some(s) => parse_uuid(s.as_str()),
        None => None,
    }
}

} // verus!
