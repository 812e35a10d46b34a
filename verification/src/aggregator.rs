use crate::clock::{new_random_id, now_unix_nanos};
use crate::crypter::{decryption, none_opens_before, sealed_with, Crypter, AES_GCM_MAX_INPUT};
use crate::error::ServiceError;
use crate::feature::Features;
use crate::net::{
    is_private_ip, is_private_ipv4, is_private_ipv6, spec_is_private_ip, spec_is_private_ipv4,
    spec_is_private_ipv6, IpAddress,
};
use crate::protocol::Protocol;
use crate::query_type_name::QueryTypeNameSet;
use crate::role::Role;
use crate::strings::{eq_ignore_ascii_case, eq_ignoring_ascii_case, owned, str_eq};
use crate::url::{spec_parse_url, Url, UrlHost, UrlHostView, UrlView};
use crate::validation::{
    add_if, error_if, field_error, finish, validation_result, ValidationErrors,
};
use crate::vdaf_name::VdafNameSet;
use crate::vecs::bytes_eq;
use vstd::prelude::*;
use vstd::utf8::{decode_utf8, encode_utf8, valid_utf8};

verus! {

broadcast use {vstd::utf8::encode_utf8_decode_utf8, vstd::utf8::encode_utf8_valid_utf8};

/// `String::from_utf8`, with the error dropped: as its documentation says,
/// it succeeds exactly on valid UTF-8, and then holds the text those bytes
/// encode.
#[verifier::external_body]
fn string_from_utf8(bytes: Vec<u8>) -> (r: Option<String>)
    ensures
        match r {
            Some(s) => valid_utf8(bytes@) && s@ == decode_utf8(bytes@),
            None => !valid_utf8(bytes@),
        },
{
    String::from_utf8(bytes).ok()
}

/// An aggregator that the service knows: where its DAP and API endpoints
/// are, what it supports, and the bearer token of its API, sealed with the
/// service's crypter. Times are nanoseconds since the Unix epoch.
#[derive(Debug)]
pub struct Aggregator {
    pub id: u128,
    /// The account the aggregator belongs to; none for a shared aggregator.
    pub account_id: Option<u128>,
    pub created_at: i128,
    pub updated_at: i128,
    /// When the aggregator was deleted, if it was.
    pub deleted_at: Option<i128>,
    pub role: Role,
    pub name: String,
    pub dap_url: Url,
    pub api_url: Url,
    pub is_first_party: bool,
    pub query_types: QueryTypeNameSet,
    pub vdafs: VdafNameSet,
    pub protocol: Protocol,
    pub encrypted_bearer_token: Vec<u8>,
    pub features: Features,
}

/// Whether two aggregators are the same in every field, URLs compared by
/// their serialization.
pub open spec fn same_aggregator(a: Aggregator, b: Aggregator) -> bool {
    &&& a.id == b.id
    &&& a.account_id == b.account_id
    &&& a.created_at == b.created_at
    &&& a.updated_at == b.updated_at
    &&& a.deleted_at == b.deleted_at
    &&& a.role == b.role
    &&& a.name@ == b.name@
    &&& a.dap_url.serialization@ == b.dap_url.serialization@
    &&& a.api_url.serialization@ == b.api_url.serialization@
    &&& a.is_first_party == b.is_first_party
    &&& a.query_types@ == b.query_types@
    &&& a.vdafs@ == b.vdafs@
    &&& a.protocol.name@ == b.protocol.name@
    &&& a.encrypted_bearer_token@ == b.encrypted_bearer_token@
    &&& a.features@ == b.features@
}

/// The bytes of a text, as UTF-8.
pub open spec fn text_bytes(s: Seq<char>) -> Seq<u8> {
    encode_utf8(s)
}

impl Aggregator {
    /// Whether the two aggregators are the same in every field.
    pub fn same_as(&self, other: &Aggregator) -> (r: bool)
        ensures
            r == same_aggregator(*self, *other),
    {
        self.id == other.id && self.account_id == other.account_id && self.created_at
            == other.created_at && self.updated_at == other.updated_at && self.deleted_at
            == other.deleted_at && self.role == other.role && str_eq(
            self.name.as_str(),
            other.name.as_str(),
        ) && self.dap_url.same_as(&other.dap_url) && self.api_url.same_as(&other.api_url)
            && self.is_first_party == other.is_first_party && self.query_types
            == other.query_types && self.vdafs == other.vdafs && self.protocol.same_as(
            &other.protocol,
        ) && bytes_eq(
            self.encrypted_bearer_token.as_slice(),
            other.encrypted_bearer_token.as_slice(),
        ) && self.features == other.features
    }

    /// The aggregator, deleted now.
    pub fn tombstone(self) -> (r: Aggregator)
        ensures
            r.deleted_at is Some,
            r.id == self.id,
            r.account_id == self.account_id,
            r.created_at == self.created_at,
            r.role == self.role,
            r.name == self.name,
            r.dap_url == self.dap_url,
            r.api_url == self.api_url,
            r.is_first_party == self.is_first_party,
            r.query_types == self.query_types,
            r.vdafs == self.vdafs,
            r.protocol == self.protocol,
            r.encrypted_bearer_token == self.encrypted_bearer_token,
            r.features == self.features,
    {
        let updated = now_unix_nanos();
        let deleted = now_unix_nanos();
        Aggregator { updated_at: updated, deleted_at: Some(deleted), ..self }
    }

    /// Whether the aggregator was deleted.
    pub fn is_tombstoned(&self) -> (r: bool)
        ensures
            r == self.deleted_at is Some,
    {
        self.deleted_at.is_some()
    }

    /// The bearer token of the aggregator's API, opened with the crypter; the
    /// API URL is the associated data. A token sealed with the crypter's
    /// current key, or with a past key where no key before it opens the
    /// token, opens to the token that was sealed.
    pub fn bearer_token(&self, crypter: &Crypter) -> (r: Result<String, ServiceError>)
        ensures
            match decryption(
                crypter.keys(),
                text_bytes(self.api_url.serialization@),
                self.encrypted_bearer_token@,
            ) {
                None => r matches Err(ServiceError::Encryption(_)),
                Some(p) => if valid_utf8(p) {
                    r matches Ok(s) && s@ == decode_utf8(p)
                } else {
                    r matches Err(ServiceError::Utf8)
                },
            },
            forall|t: Seq<char>|
                text_bytes(t).len() <= AES_GCM_MAX_INPUT && text_bytes(
                    self.api_url.serialization@,
                ).len() <= AES_GCM_MAX_INPUT && #[trigger] sealed_with(
                    crypter.current(),
                    text_bytes(self.api_url.serialization@),
                    text_bytes(t),
                    self.encrypted_bearer_token@,
                ) ==> (r matches Ok(s) && s@ == t),
            forall|j: int, t: Seq<char>|
                0 <= j < crypter.keys().len() && text_bytes(t).len() <= AES_GCM_MAX_INPUT
                    && text_bytes(self.api_url.serialization@).len() <= AES_GCM_MAX_INPUT
                    && #[trigger] sealed_with(
                    crypter.keys()[j],
                    text_bytes(self.api_url.serialization@),
                    text_bytes(t),
                    self.encrypted_bearer_token@,
                ) && none_opens_before(
                    crypter.keys(),
                    j,
                    text_bytes(self.api_url.serialization@),
                    self.encrypted_bearer_token@,
                ) ==> (r matches Ok(s) && s@ == t),
    {
        let aad = self.api_url.as_str().as_bytes();
        match crypter.decrypt(aad, self.encrypted_bearer_token.as_slice()) {
            Err(e) => Err(ServiceError::Encryption(e)),
            Ok(bytes) => {
                match string_from_utf8(bytes) {
                    Some(s) => Ok(s),
                    None => Err(ServiceError::Utf8),
                }
            },
        }
    }
}

/// What an aggregator's API says of it.
#[derive(Debug)]
pub struct AggregatorApiConfig {
    pub dap_url: Url,
    pub role: Role,
    pub vdafs: VdafNameSet,
    pub query_types: QueryTypeNameSet,
    pub protocol: Protocol,
    pub features: Features,
}

/// Whether a text is an absolute URL with the `https` scheme.
pub open spec fn is_https_url(s: Seq<char>) -> bool {
    spec_parse_url(s) matches Some(u) && u.scheme == "https"@
}

/// Checks that a text is an absolute `https` URL; the code of the failed
/// rule is `https-url`.
pub fn https(url: &str) -> (r: Result<(), &'static str>)
    ensures
        r is Ok <==> is_https_url(url@),
        r matches Err(code) ==> code@ == "https-url"@,
{
    match Url::parse(url) {
        Some(u) => if str_eq(u.scheme.as_str(), "https") {
            Ok(())
        } else {
            Err("https-url")
        },
        None => Err("https-url"),
    }
}

/// The rule that an aggregator's API URL breaks before any address is
/// looked up: it has no host, or its host is a non-public address literal
/// or `localhost` in any case.
pub open spec fn url_rejection(u: UrlView) -> Option<Seq<char>> {
    match u.host {
        None => Some("invalid-url"@),
        Some(UrlHostView::Ipv4(o)) => if spec_is_private_ipv4(o) {
            Some("private-address"@)
        } else {
            None
        },
        Some(UrlHostView::Ipv6(s)) => if spec_is_private_ipv6(s) {
            Some("private-address"@)
        } else {
            None
        },
        Some(UrlHostView::Domain(d)) => if eq_ignoring_ascii_case(d, "localhost"@) {
            Some("private-address"@)
        } else {
            None
        },
    }
}

/// What remains to check of an API URL that passed the checks that need no
/// lookup.
#[derive(Debug)]
pub enum HostResolution {
    /// The host is a public address literal; nothing remains.
    Checked,
    /// The host is a domain: each address that it resolves to, at this port,
    /// must be public.
    Lookup { host: String, port: u16 },
}

/// The port of a URL, 443 where it gives none.
pub open spec fn port_or_https_default(u: UrlView) -> u16 {
    match u.port {
        Some(p) => p,
        None => 443,
    }
}

/// Checks an aggregator's API URL against requests to private addresses,
/// as far as this can be done without looking the host up: a URL without a
/// host is refused as `invalid-url`; a non-public address literal or
/// `localhost` as `private-address`, both on the field `api_url`.
pub fn validate_aggregator_url(url: &Url) -> (r: Result<HostResolution, ValidationErrors>)
    ensures
        match r {
            Ok(HostResolution::Checked) => url_rejection(url@) is None && (url@.host matches Some(
                UrlHostView::Ipv4(_),
            ) || url@.host matches Some(UrlHostView::Ipv6(_))),
            Ok(HostResolution::Lookup { host, port }) => url_rejection(url@) is None && url@.host
                == Some(UrlHostView::Domain(host@)) && port == port_or_https_default(url@),
            Err(e) => url_rejection(url@) matches Some(code) && e@ == seq![
                field_error("api_url"@, code),
            ],
        },
{
    let mut errors = ValidationErrors::new();
    match &url.host {
        None => {
            errors.add("api_url", "invalid-url");
            Err(errors)
        },
        Some(UrlHost::Ipv4(o)) => if is_private_ipv4(*o) {
            errors.add("api_url", "private-address");
            Err(errors)
        } else {
            Ok(HostResolution::Checked)
        },
        Some(UrlHost::Ipv6(s)) => if is_private_ipv6(*s) {
            errors.add("api_url", "private-address");
            Err(errors)
        } else {
            Ok(HostResolution::Checked)
        },
        Some(UrlHost::Domain(d)) => if eq_ignore_ascii_case(d.as_str(), "localhost") {
            errors.add("api_url", "private-address");
            Err(errors)
        } else {
            let port = match url.port {
                Some(p) => p,
                None => 443,
            };
            Ok(HostResolution::Lookup { host: owned(d.as_str()), port })
        },
    }
}

/// Whether any of the addresses is not public.
pub open spec fn any_private(addrs: Seq<IpAddress>) -> bool {
    exists|i: int| 0 <= i < addrs.len() && spec_is_private_ip(#[trigger] addrs[i])
}

/// Checks the addresses that an API URL's host resolved to: a failed
/// lookup is refused as `dns-resolution-failed`, a non-public address as
/// `private-address`, both on the field `api_url`.
pub fn check_resolved_addresses(resolved: Option<Vec<IpAddress>>) -> (r: Result<
    (),
    ValidationErrors,
>)
    ensures
        match resolved {
            None => r matches Err(e) && e@ == seq![
                field_error("api_url"@, "dns-resolution-failed"@),
            ],
            Some(addrs) => if any_private(addrs@) {
                r matches Err(e) && e@ == seq![field_error("api_url"@, "private-address"@)]
            } else {
                r is Ok
            },
        },
{
    let mut errors = ValidationErrors::new();
    match &resolved {
        None => {
            errors.add("api_url", "dns-resolution-failed");
            Err(errors)
        },
        Some(addrs) => {
            let mut i: usize = 0;
            while i < addrs.len()
                invariant
                    resolved == Some(*addrs),
                    i <= addrs@.len(),
                    errors@ == Seq::<(Seq<Seq<char>>, Seq<char>)>::empty(),
                    forall|j: int| 0 <= j < i ==> !spec_is_private_ip(#[trigger] addrs@[j]),
                decreases addrs@.len() - i,
            {
                if is_private_ip(addrs[i]) {
                    errors.add("api_url", "private-address");
                    proof {
                        assert(spec_is_private_ip(addrs@[i as int]));
                    }
                    return Err(errors);
                }
                i = i + 1;
            }
            Ok(())
        },
    }
}

/// A failure to fetch an aggregator's configuration from its API.
#[derive(Debug)]
pub enum ConfigFetchError {
    /// The API answered with a status that is not a success, where it gave
    /// one.
    HttpStatus(Option<u16>),
    /// The request failed before a status was received.
    Http,
    /// Any other failure, described.
    Other(String),
}

/// The rule that a failed configuration fetch breaks when an aggregator is
/// added: the token is refused (401, 403) as `token-not-recognized` on
/// `bearer_token`; an unreachable API or a 404 as `http-error` on
/// `api_url`. Any other failure breaks no rule.
pub open spec fn new_aggregator_fetch_rule(e: ConfigFetchError) -> Option<(Seq<char>, Seq<char>)> {
    match e {
        ConfigFetchError::HttpStatus(Some(s)) => if s == 401 || s == 403 {
            Some(("bearer_token"@, "token-not-recognized"@))
        } else if s == 404 {
            Some(("api_url"@, "http-error"@))
        } else {
            None
        },
        ConfigFetchError::Http => Some(("api_url"@, "http-error"@)),
        _ => None,
    }
}

/// The validation errors that a failed configuration fetch stands for when
/// an aggregator is added, or the failure itself where it is no rule
/// broken.
pub fn new_aggregator_fetch_error(e: ConfigFetchError) -> (r: Result<
    ValidationErrors,
    ConfigFetchError,
>)
    ensures
        match new_aggregator_fetch_rule(e) {
            Some((field, code)) => r matches Ok(errs) && errs@ == seq![field_error(field, code)],
            None => r == Err::<ValidationErrors, ConfigFetchError>(e),
        },
{
    let mut errors = ValidationErrors::new();
    match e {
        ConfigFetchError::HttpStatus(Some(s)) => if s == 401 || s == 403 {
            errors.add("bearer_token", "token-not-recognized");
            Ok(errors)
        } else if s == 404 {
            errors.add("api_url", "http-error");
            Ok(errors)
        } else {
            Err(ConfigFetchError::HttpStatus(Some(s)))
        },
        ConfigFetchError::Http => {
            errors.add("api_url", "http-error");
            Ok(errors)
        },
        other => Err(other),
    }
}

/// The validation errors that a failed configuration fetch stands for when
/// an aggregator's token is replaced: only a refused token (401, 403), as
/// `token-not-recognized` on `bearer_token`.
pub fn update_aggregator_fetch_error(e: ConfigFetchError) -> (r: Result<
    ValidationErrors,
    ConfigFetchError,
>)
    ensures
        match e {
            ConfigFetchError::HttpStatus(Some(s)) if s == 401 || s == 403 => r matches Ok(errs)
                && errs@ == seq![field_error("bearer_token"@, "token-not-recognized"@)],
            _ => r == Err::<ValidationErrors, ConfigFetchError>(e),
        },
{
    let mut errors = ValidationErrors::new();
    match e {
        ConfigFetchError::HttpStatus(Some(s)) => if s == 401 || s == 403 {
            errors.add("bearer_token", "token-not-recognized");
            Ok(errors)
        } else {
            Err(ConfigFetchError::HttpStatus(Some(s)))
        },
        other => Err(other),
    }
}

/// A request to add an aggregator.
#[derive(Debug)]
pub struct NewAggregator {
    pub name: Option<String>,
    pub api_url: Option<String>,
    pub bearer_token: Option<String>,
    pub is_first_party: Option<bool>,
}

/// The rules that a request to add an aggregator breaks: a name is
/// required, of 1 to 255 characters; an API URL must be an `https` URL of
/// at most 2048 characters; a bearer token at most 4096 characters.
pub open spec fn new_aggregator_errors(n: NewAggregator) -> Seq<(Seq<Seq<char>>, Seq<char>)> {
    (match n.name {
        None => seq![field_error("name"@, "required"@)],
        Some(s) => error_if(s@.len() < 1 || s@.len() > 255, "name"@, "length"@),
    }) + (match n.api_url {
        None => seq![],
        Some(u) => error_if(!is_https_url(u@), "api_url"@, "https-url"@) + error_if(
            u@.len() > 2048,
            "api_url"@,
            "length"@,
        ),
    }) + (match n.bearer_token {
        None => seq![],
        Some(t) => error_if(t@.len() > 4096, "bearer_token"@, "length"@),
    })
}

/// What comes next for a request to add or change an aggregator.
#[derive(Debug)]
pub enum AggregatorRequestStep {
    /// The request is refused for these broken rules; nothing is fetched.
    Refuse(ValidationErrors),
    /// The API URL is checked against private addresses (with
    /// `validate_aggregator_url`, then the lookup of its host) before
    /// anything is fetched from it.
    CheckUrl(Url),
    /// The aggregator's configuration is fetched from its API with the
    /// bearer token.
    FetchConfig { api_url: Url, bearer_token: String },
    /// Nothing is fetched; the request is applied as it stands.
    Apply,
}

/// The rules that a request to add an aggregator breaks when it is built:
/// its own rules, then an API URL and a bearer token are required.
pub open spec fn new_aggregator_request_errors(n: NewAggregator) -> Seq<
    (Seq<Seq<char>>, Seq<char>),
> {
    new_aggregator_errors(n) + error_if(n.api_url is None, "api_url"@, "required"@) + error_if(
        n.bearer_token is None,
        "bearer_token"@,
        "required"@,
    )
}

/// Whether `step` fetches the configuration from the URL that `api_url`
/// parses to, with the bearer token `token`.
pub open spec fn fetches_from(step: AggregatorRequestStep, api_url: Seq<char>, token: Seq<char>) -> bool {
    step matches AggregatorRequestStep::FetchConfig { api_url: u, bearer_token: t } && spec_parse_url(
        api_url,
    ) == Some(u@) && t@ == token
}

/// What a failed configuration fetch gives when an aggregator is added:
/// the rule it breaks, or the failure itself.
pub open spec fn new_aggregator_fetch_failed(e: ConfigFetchError, r: Result<Aggregator, ServiceError>) -> bool {
    match new_aggregator_fetch_rule(e) {
        Some((field, code)) => r matches Err(ServiceError::Validation(v)) && v@ == seq![
            field_error(field, code),
        ],
        None => r == Err::<Aggregator, ServiceError>(ServiceError::AggregatorApi(e)),
    }
}

/// What adding the aggregator that `n` asks for gives, once its API
/// answered with `config`, with the sealing key `key`: every rule broken, or
/// the aggregator with the request's name and URL, the answer's role, DAP
/// URL, query types, VDAFs, protocol and features, and the bearer token
/// sealed with the API URL as associated data; or the failure to seal an
/// input too long for it.
pub open spec fn new_aggregator_built(
    n: NewAggregator,
    account_id: Option<u128>,
    config: AggregatorApiConfig,
    key: Seq<u8>,
    r: Result<Aggregator, ServiceError>,
) -> bool {
    &&& (new_aggregator_request_errors(n).len() > 0 ==> (r matches Err(ServiceError::Validation(e))
        && e@ == new_aggregator_request_errors(n)))
    &&& (new_aggregator_request_errors(n).len() == 0 ==> match r {
        Ok(a) => {
            &&& spec_parse_url(n.api_url.unwrap()@) == Some(a.api_url@)
            &&& a.name@ == n.name.unwrap()@
            &&& a.account_id == account_id
            &&& a.is_first_party == (account_id is None && match n.is_first_party {
                Some(b) => b,
                None => true,
            })
            &&& a.role == config.role
            &&& a.dap_url@ == config.dap_url@
            &&& a.query_types@ == config.query_types@
            &&& a.vdafs@ == config.vdafs@
            &&& a.protocol.name@ == config.protocol.name@
            &&& a.features@ == config.features@
            &&& a.deleted_at is None
            &&& text_bytes(n.bearer_token.unwrap()@).len() <= AES_GCM_MAX_INPUT
            &&& text_bytes(a.api_url.serialization@).len() <= AES_GCM_MAX_INPUT
            &&& sealed_with(
                key,
                text_bytes(a.api_url.serialization@),
                text_bytes(n.bearer_token.unwrap()@),
                a.encrypted_bearer_token@,
            )
        },
        Err(ServiceError::Encryption(_)) => spec_parse_url(n.api_url.unwrap()@) matches Some(
            u,
        ) && (text_bytes(n.bearer_token.unwrap()@).len() > AES_GCM_MAX_INPUT
            || text_bytes(u.serialization).len() > AES_GCM_MAX_INPUT),
        _ => false,
    })
}

impl NewAggregator {
    /// Checks the rules of the request.
    pub fn validate(&self) -> (r: Result<(), ValidationErrors>)
        ensures
            validation_result(r, new_aggregator_errors(*self)),
    {
        let mut errors = ValidationErrors::new();
        match &self.name {
            None => errors.add("name", "required"),
            Some(s) => {
                let n = s.as_str().unicode_len();
                add_if(&mut errors, n < 1 || n > 255, "name", "length");
            },
        }
        match &self.api_url {
            None => {},
            Some(u) => {
                add_if(&mut errors, https(u.as_str()).is_err(), "api_url", "https-url");
                add_if(&mut errors, u.as_str().unicode_len() > 2048, "api_url", "length");
            },
        }
        match &self.bearer_token {
            None => {},
            Some(t) => {
                add_if(&mut errors, t.as_str().unicode_len() > 4096, "bearer_token", "length");
            },
        }
        proof {
            assert(errors@ =~= new_aggregator_errors(*self));
        }
        finish(errors)
    }

    /// Checks the request as it is built: its own rules, then that an API
    /// URL and a bearer token are given.
    pub fn check(&self) -> (r: Result<(), ValidationErrors>)
        ensures
            validation_result(r, new_aggregator_request_errors(*self)),
    {
        let mut errors = match self.validate() {
            Ok(()) => ValidationErrors::new(),
            Err(e) => e,
        };
        add_if(&mut errors, self.api_url.is_none(), "api_url", "required");
        add_if(&mut errors, self.bearer_token.is_none(), "bearer_token", "required");
        finish(errors)
    }

    /// The first step of adding the aggregator: a request that breaks a
    /// rule is refused; otherwise its API URL is checked against private
    /// addresses first where that check is enabled, and the configuration
    /// is fetched with its bearer token where it is not.
    pub fn begin(&self, ssrf_validation_enabled: bool) -> (r: AggregatorRequestStep)
        ensures
            new_aggregator_request_errors(*self).len() > 0 ==> (r matches AggregatorRequestStep::Refuse(e)
                && e@ == new_aggregator_request_errors(*self)),
            new_aggregator_request_errors(*self).len() == 0 && ssrf_validation_enabled ==> (r matches AggregatorRequestStep::CheckUrl(u)
                && spec_parse_url(self.api_url.unwrap()@) == Some(u@)),
            new_aggregator_request_errors(*self).len() == 0 && !ssrf_validation_enabled ==> fetches_from(
                r,
                self.api_url.unwrap()@,
                self.bearer_token.unwrap()@,
            ),
    {
        match self.check() {
            Err(e) => {
                return AggregatorRequestStep::Refuse(e);
            },
            Ok(()) => {},
        }
        if ssrf_validation_enabled {
            AggregatorRequestStep::CheckUrl(self.parsed_url())
        } else {
            self.fetch_step()
        }
    }

    /// The step after the API URL was checked: a refused URL refuses the
    /// request and nothing is fetched; otherwise the configuration is
    /// fetched with the bearer token.
    pub fn url_checked(&self, checked: Result<(), ValidationErrors>) -> (r: AggregatorRequestStep)
        requires
            new_aggregator_request_errors(*self).len() == 0,
        ensures
            match checked {
                Err(e) => r matches AggregatorRequestStep::Refuse(f) && f@ == e@,
                Ok(()) => fetches_from(r, self.api_url.unwrap()@, self.bearer_token.unwrap()@),
            },
    {
        match checked {
            Err(e) => AggregatorRequestStep::Refuse(e),
            Ok(()) => self.fetch_step(),
        }
    }

    /// The URL of a request that breaks no rule.
    fn parsed_url(&self) -> (r: Url)
        requires
            new_aggregator_request_errors(*self).len() == 0,
        ensures
            spec_parse_url(self.api_url.unwrap()@) == Some(r@),
    {
        let parsed = match &self.api_url {
            Some(u) => Url::parse(u.as_str()),
            None => None,
        };
        match parsed {
            Some(u) => u,
            None => {
                proof {
                    assert(new_aggregator_request_errors(*self).len() > 0);
                }
                Url::parse("https://invalid.example/").unwrap()
            },
        }
    }

    /// The fetch of the configuration for a request that breaks no rule.
    fn fetch_step(&self) -> (r: AggregatorRequestStep)
        requires
            new_aggregator_request_errors(*self).len() == 0,
        ensures
            fetches_from(r, self.api_url.unwrap()@, self.bearer_token.unwrap()@),
    {
        let api_url = self.parsed_url();
        let bearer_token = match &self.bearer_token {
            Some(t) => owned(t.as_str()),
            None => String::new(),
        };
        AggregatorRequestStep::FetchConfig { api_url, bearer_token }
    }

    /// The last step of adding the aggregator, with the outcome of the
    /// configuration fetch: a request that breaks a rule is refused; a
    /// refused token (401, 403) breaks the rule
    /// `token-not-recognized` on `bearer_token`, an unreachable API or a 404
    /// `http-error` on `api_url`, and any other failure is given as it is;
    /// with the configuration, the aggregator is built.
    pub fn finish(
        self,
        account_id: Option<u128>,
        fetched: Result<AggregatorApiConfig, ConfigFetchError>,
        crypter: &Crypter,
    ) -> (r: Result<Aggregator, ServiceError>)
        ensures
            new_aggregator_request_errors(self).len() > 0 ==> (r matches Err(
                ServiceError::Validation(e),
            ) && e@ == new_aggregator_request_errors(self)),
            new_aggregator_request_errors(self).len() == 0 ==> match fetched {
                Err(e) => new_aggregator_fetch_failed(e, r),
                Ok(config) => new_aggregator_built(self, account_id, config, crypter.current(), r),
            },
    {
        match self.check() {
            Err(e) => {
                return Err(ServiceError::Validation(e));
            },
            Ok(()) => {},
        }
        match fetched {
            Err(e) => match new_aggregator_fetch_error(e) {
                Ok(errors) => Err(ServiceError::Validation(errors)),
                Err(other) => Err(ServiceError::AggregatorApi(other)),
            },
            Ok(config) => self.build(account_id, config, crypter),
        }
    }

    /// The aggregator that the request adds, given what its API said of it.
    /// The request is checked again; the bearer token is sealed with the
    /// crypter, with the API URL as associated data. An aggregator added from an account is never first party;
    /// otherwise it is unless the request says it is not.
    pub fn build(self, account_id: Option<u128>, config: AggregatorApiConfig, crypter: &Crypter) -> (r:
        Result<Aggregator, ServiceError>)
        ensures
            new_aggregator_built(self, account_id, config, crypter.current(), r),
    {
        match self.check() {
            Err(e) => {
                return Err(ServiceError::Validation(e));
            },
            Ok(()) => {},
        }
        let api_url = match &self.api_url {
            Some(u) => Url::parse(u.as_str()),
            None => None,
        };
        let api_url = match api_url {
            Some(u) => u,
            None => {
                proof {
                    assert(new_aggregator_request_errors(self).len() > 0);
                }
                return Err(ServiceError::Validation(ValidationErrors::new()));
            },
        };
        let token = match &self.bearer_token {
            Some(t) => owned(t.as_str()),
            None => {
                proof {
                    assert(false);
                }
                return Err(ServiceError::Validation(ValidationErrors::new()));
            },
        };
        let sealed = match crypter.encrypt(api_url.as_str().as_bytes(), token.as_str().as_bytes()) {
            Ok(v) => v,
            Err(e) => {
                return Err(ServiceError::Encryption(e));
            },
        };
        let is_first_party = account_id.is_none() && match self.is_first_party {
            Some(b) => b,
            None => true,
        };
        let id = new_random_id();
        let created = now_unix_nanos();
        let updated = now_unix_nanos();
        let name = match self.name {
            Some(n) => n,
            None => String::new(),
        };
        Ok(
            Aggregator {
                role: config.role,
                name,
                api_url,
                dap_url: config.dap_url,
                encrypted_bearer_token: sealed,
                id,
                account_id,
                created_at: created,
                updated_at: updated,
                deleted_at: None,
                is_first_party,
                query_types: config.query_types,
                vdafs: config.vdafs,
                protocol: config.protocol,
                features: config.features,
            },
        )
    }
}

/// A request to change an aggregator: its name, its bearer token, or both.
#[derive(Debug)]
pub struct UpdateAggregator {
    pub name: Option<String>,
    pub bearer_token: Option<String>,
}

/// The rules that a request to change an aggregator breaks: a new name must
/// not be empty.
pub open spec fn update_aggregator_errors(u: UpdateAggregator) -> Seq<
    (Seq<Seq<char>>, Seq<char>),
> {
    match u.name {
        None => seq![],
        Some(s) => error_if(s@.len() < 1, "name"@, "length"@),
    }
}

/// What changing `aggregator` as `u` asks gives, with the API's answer
/// `config` where a new bearer token was given and the sealing key `key`:
/// every rule broken, or the aggregator with the new name, and with a new
/// token the answer's query types and VDAFs and the token sealed with the API
/// URL as associated data, everything else kept; or the failure to seal an
/// input too long for it.
pub open spec fn update_aggregator_built(
    u: UpdateAggregator,
    aggregator: Aggregator,
    config: Option<AggregatorApiConfig>,
    key: Seq<u8>,
    r: Result<Aggregator, ServiceError>,
) -> bool {
    &&& (update_aggregator_errors(u).len() > 0 ==> (r matches Err(
        ServiceError::Validation(e),
    ) && e@ == update_aggregator_errors(u)))
    &&& (update_aggregator_errors(u).len() == 0 ==> match r {
        Ok(a) => {
            &&& a.name@ == (match u.name {
                Some(n) => n@,
                None => aggregator.name@,
            })
            &&& a.id == aggregator.id
            &&& a.account_id == aggregator.account_id
            &&& a.created_at == aggregator.created_at
            &&& a.deleted_at == aggregator.deleted_at
            &&& a.role == aggregator.role
            &&& a.dap_url@ == aggregator.dap_url@
            &&& a.api_url@ == aggregator.api_url@
            &&& a.is_first_party == aggregator.is_first_party
            &&& a.protocol.name@ == aggregator.protocol.name@
            &&& a.features@ == aggregator.features@
            &&& (u.name is None && u.bearer_token is None) ==> a.updated_at
                == aggregator.updated_at
            &&& match (u.bearer_token, config) {
                (Some(t), Some(c)) => {
                    &&& a.query_types@ == c.query_types@
                    &&& a.vdafs@ == c.vdafs@
                    &&& text_bytes(t@).len() <= AES_GCM_MAX_INPUT
                    &&& sealed_with(
                        key,
                        text_bytes(aggregator.api_url.serialization@),
                        text_bytes(t@),
                        a.encrypted_bearer_token@,
                    )
                },
                _ => {
                    &&& a.query_types@ == aggregator.query_types@
                    &&& a.vdafs@ == aggregator.vdafs@
                    &&& a.encrypted_bearer_token@ == aggregator.encrypted_bearer_token@
                },
            }
        },
        Err(ServiceError::Encryption(_)) => u.bearer_token matches Some(t) && (text_bytes(
            t@,
        ).len() > AES_GCM_MAX_INPUT || text_bytes(aggregator.api_url.serialization@).len()
            > AES_GCM_MAX_INPUT),
        _ => false,
    })
}

impl UpdateAggregator {
    /// Checks the rules of the request.
    pub fn validate(&self) -> (r: Result<(), ValidationErrors>)
        ensures
            validation_result(r, update_aggregator_errors(*self)),
    {
        let mut errors = ValidationErrors::new();
        match &self.name {
            None => {},
            Some(s) => add_if(&mut errors, s.as_str().unicode_len() < 1, "name", "length"),
        }
        proof {
            assert(errors@ =~= update_aggregator_errors(*self));
        }
        finish(errors)
    }

    /// The first step of changing `aggregator`: a request that breaks a
    /// rule is refused before anything is fetched; one without a new bearer
    /// token fetches nothing; one with a token fetches the configuration from
    /// the aggregator's API with it.
    pub fn begin(&self, aggregator: &Aggregator) -> (r: AggregatorRequestStep)
        ensures
            update_aggregator_errors(*self).len() > 0 ==> (r matches AggregatorRequestStep::Refuse(
                e,
            ) && e@ == update_aggregator_errors(*self)),
            update_aggregator_errors(*self).len() == 0 ==> match self.bearer_token {
                None => r is Apply,
                Some(t) => r matches AggregatorRequestStep::FetchConfig { api_url, bearer_token }
                    && api_url@ == aggregator.api_url@ && bearer_token@ == t@,
            },
    {
        match self.validate() {
            Err(e) => {
                return AggregatorRequestStep::Refuse(e);
            },
            Ok(()) => {},
        }
        match &self.bearer_token {
            None => AggregatorRequestStep::Apply,
            Some(t) => AggregatorRequestStep::FetchConfig {
                api_url: aggregator.api_url.duplicate(),
                bearer_token: owned(t.as_str()),
            },
        }
    }

    /// The last step of changing `aggregator`, with the outcome of the
    /// configuration fetch where one was made: a request that breaks a rule
    /// is refused; a refused token (401, 403) breaks the rule
    /// `token-not-recognized` on `bearer_token`, and any other failure is
    /// given as it is; otherwise the aggregator is changed.
    pub fn finish(
        self,
        aggregator: Aggregator,
        fetched: Option<Result<AggregatorApiConfig, ConfigFetchError>>,
        crypter: &Crypter,
    ) -> (r: Result<Aggregator, ServiceError>)
        requires
            update_aggregator_errors(self).len() == 0 ==> (self.bearer_token is Some <==> fetched is Some),
        ensures
            update_aggregator_errors(self).len() > 0 ==> (r matches Err(
                ServiceError::Validation(e),
            ) && e@ == update_aggregator_errors(self)),
            update_aggregator_errors(self).len() == 0 ==> match fetched {
                Some(Err(e)) => match e {
                    ConfigFetchError::HttpStatus(Some(s)) if s == 401 || s == 403 => r matches Err(
                        ServiceError::Validation(v),
                    ) && v@ == seq![field_error("bearer_token"@, "token-not-recognized"@)],
                    _ => r == Err::<Aggregator, ServiceError>(ServiceError::AggregatorApi(e)),
                },
                Some(Ok(config)) => update_aggregator_built(
                    self,
                    aggregator,
                    Some(config),
                    crypter.current(),
                    r,
                ),
                None => update_aggregator_built(self, aggregator, None, crypter.current(), r),
            },
    {
        match self.validate() {
            Err(e) => {
                return Err(ServiceError::Validation(e));
            },
            Ok(()) => {},
        }
        match fetched {
            Some(Err(e)) => match update_aggregator_fetch_error(e) {
                Ok(errors) => Err(ServiceError::Validation(errors)),
                Err(other) => Err(ServiceError::AggregatorApi(other)),
            },
            Some(Ok(config)) => self.build(aggregator, Some(config), crypter),
            None => self.build(aggregator, None, crypter),
        }
    }

    /// The aggregator changed as the request asks, given what its API said
    /// when a new bearer token was given. A new token replaces the query
    /// types and VDAFs with the ones the API reports and is sealed with the
    /// crypter; the aggregator is marked updated only when something was set.
    pub fn build(self, aggregator: Aggregator, config: Option<AggregatorApiConfig>, crypter: &Crypter) -> (r:
        Result<Aggregator, ServiceError>)
        requires
            self.bearer_token is Some <==> config is Some,
        ensures
            update_aggregator_built(self, aggregator, config, crypter.current(), r),
    {
        match self.validate() {
            Err(e) => {
                return Err(ServiceError::Validation(e));
            },
            Ok(()) => {},
        }
        let changed = self.name.is_some() || self.bearer_token.is_some();
        let mut aggregator = aggregator;
        match self.name {
            Some(n) => {
                aggregator.name = n;
            },
            None => {},
        }
        match (self.bearer_token, config) {
            (Some(token), Some(c)) => {
                let sealed = match crypter.encrypt(
                    aggregator.api_url.as_str().as_bytes(),
                    token.as_str().as_bytes(),
                ) {
                    Ok(v) => v,
                    Err(e) => {
                        return Err(ServiceError::Encryption(e));
                    },
                };
                aggregator.query_types = c.query_types;
                aggregator.vdafs = c.vdafs;
                aggregator.encrypted_bearer_token = sealed;
            },
            _ => {},
        }
        if changed {
            aggregator.updated_at = now_unix_nanos();
        }
        Ok(aggregator)
    }
}

} // verus!
