//! Verified core of the Divvi Up API server: the entities, value sets,
//! validation rules and protocol decisions of the service, independent of
//! the database, HTTP and runtime plumbing that surrounds them.

pub mod account;
pub mod aggregator;
pub mod aggregator_vdaf;
pub mod api_token;
pub mod api_types;
pub mod auth0;
pub mod client;
mod clock;
pub mod config;
pub mod credentials;
pub mod crypter;
pub mod dp_strategies;
mod encoding;
pub mod error;
pub mod feature;
pub mod host;
pub mod item_set;
pub mod name_order;
pub mod net;
pub mod new_task;
pub mod protocol;
pub mod provision;
pub mod query_type_id;
pub mod query_type_name;
pub mod role;
mod strings;
pub mod task;
pub mod task_pager;
pub mod update_task;
pub mod url;
pub mod validation;
pub mod vdaf;
pub mod vdaf_id;
pub mod vdaf_name;
mod vecs;
pub mod wrappers;

pub use account::{Account, CreateMembership, Membership, NewAccount, UpdateAccount};
pub use aggregator::{
    check_resolved_addresses, https, new_aggregator_fetch_error, update_aggregator_fetch_error,
    validate_aggregator_url, Aggregator, AggregatorApiConfig, ConfigFetchError, HostResolution,
    AggregatorRequestStep, NewAggregator, UpdateAggregator,
};
pub use aggregator_vdaf::{AggregatorVdaf, HistogramType};
pub use api_token::{
    decode_token, encode_token, token_hash_matches, token_lookup, ApiToken, UpdateApiToken,
};
pub use auth0::{fresh_token_at, Email, Token, TokenWithExpiry};
pub use config::{var_optional, ConfigError, FeatureFlags, SessionSecrets, SessionSecretsDecodeError};
pub use credentials::{
    CollectorCredential, HpkeConfig, NewCollectorCredential, NewHpkeConfig,
    UpdateCollectorCredential, UpdateHpkeConfig,
};
pub use crypter::{Crypter, CrypterParseError};
pub use error::ServiceError;
pub use host::extract_host;
pub use feature::{Feature, Features};
pub use item_set::{ItemSet, SetItem};
pub use new_task::{aggregator_lookup_id, in_the_future, visible_aggregator, NewTask, ProvisionableTask};
pub use provision::{TaskCreate, TaskResponse};
pub use protocol::Protocol;
pub use query_type_id::{QueryTypeId, QueryTypeIdSet};
pub use query_type_name::{QueryTypeName, QueryTypeNameSet};
pub use role::{Role, UnrecognizedRole};
pub use validation::{ValidationError, ValidationErrors};
pub use vdaf::{
    BucketLength, CategoricalBuckets, ContinuousBuckets, CountVec, DpBudget, DpStrategy,
    DpStrategyKind, Histogram, Sum, SumVec, Vdaf,
};
pub use task_pager::{PagerStep, TaskIdPager};
pub use task::{assert_same, first_party_aggregator, Task, TaskProvisioningError};
pub use update_task::UpdateTask;
pub use url::{Url, UrlHost, UrlHostView, UrlView};
pub use vdaf_id::{VdafId, VdafIdSet};
pub use vdaf_name::{VdafName, VdafNameSet};
pub use wrappers::{Codec, JobStatus, Json};
