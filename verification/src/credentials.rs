use crate::clock::{new_random_id, now_unix_nanos};
use crate::encoding::{base64_decode, spec_base64_decode};
use crate::validation::{field_error, ValidationErrors};
use vstd::prelude::*;

verus! {

/// The HPKE configuration bytes that an uploaded text stands for: the
/// standard base64 of an encoded configuration; nothing where the text is
/// missing or not base64.
pub open spec fn uploaded_contents(contents: Option<String>) -> Option<Seq<u8>> {
    match contents {
        Some(s) => spec_base64_decode(s@),
        None => None,
    }
}

/// The bytes of uploaded HPKE configuration contents; a missing or
/// malformed text breaks the rule `base64` of the field `contents`.
fn decode_contents(contents: &Option<String>) -> (r: Result<Vec<u8>, ValidationErrors>)
    ensures
        match r {
            Ok(b) => uploaded_contents(*contents) == Some(b@),
            Err(e) => uploaded_contents(*contents) is None && e@ == seq![
                field_error("contents"@, "base64"@),
            ],
        },
{
    let decoded = match contents {
        Some(s) => base64_decode(s.as_str()),
        None => None,
    };
    match decoded {
        Some(b) => Ok(b),
        None => {
            let mut errors = ValidationErrors::new();
            errors.add("contents", "base64");
            Err(errors)
        },
    }
}

/// The HPKE configuration of a collector, by which the results of its tasks
/// are sealed. Times are nanoseconds since the Unix epoch.
#[derive(Debug)]
pub struct CollectorCredential {
    pub id: u128,
    pub account_id: u128,
    /// The encoded HPKE configuration.
    pub contents: Vec<u8>,
    pub created_at: i128,
    pub deleted_at: Option<i128>,
    pub updated_at: i128,
    pub name: Option<String>,
    /// The hash of the collector's token, where one was issued.
    pub token_hash: Option<String>,
}

impl CollectorCredential {
    /// The credential, deleted now.
    pub fn tombstone(self) -> (r: CollectorCredential)
        ensures
            r.deleted_at is Some,
            r.id == self.id,
            r.account_id == self.account_id,
            r.contents == self.contents,
            r.created_at == self.created_at,
            r.name == self.name,
            r.token_hash == self.token_hash,
    {
        let deleted = now_unix_nanos();
        let updated = now_unix_nanos();
        CollectorCredential { deleted_at: Some(deleted), updated_at: updated, ..self }
    }

    /// Whether the credential was deleted.
    pub fn is_tombstoned(&self) -> (r: bool)
        ensures
            r == self.deleted_at is Some,
    {
        self.deleted_at.is_some()
    }

    /// The encoded HPKE configuration.
    pub fn contents(&self) -> (r: &Vec<u8>)
        ensures
            r == self.contents,
    {
        &self.contents
    }
}

/// An uploaded collector credential.
#[derive(Debug)]
pub struct NewCollectorCredential {
    pub contents: Option<String>,
    pub name: Option<String>,
}

impl NewCollectorCredential {
    /// The HPKE configuration bytes of the upload, before they are decoded
    /// as a configuration.
    pub fn contents_bytes(&self) -> (r: Result<Vec<u8>, ValidationErrors>)
        ensures
            match r {
                Ok(b) => uploaded_contents(self.contents) == Some(b@),
                Err(e) => uploaded_contents(self.contents) is None && e@ == seq![
                    field_error("contents"@, "base64"@),
                ],
            },
    {
        decode_contents(&self.contents)
    }

    /// The credential of the account, created now, where the upload holds
    /// base64 and `decodes` tells that the bytes are an HPKE configuration;
    /// bytes that are not one break the rule `collector_credential` of the
    /// field `contents`.
    pub fn build(self, account_id: u128, decodes: bool) -> (r: Result<
        CollectorCredential,
        ValidationErrors,
    >)
        ensures
            match r {
                Ok(c) => uploaded_contents(self.contents) == Some(c.contents@) && decodes
                    && c.account_id == account_id && c.name == self.name && c.deleted_at is None
                    && c.token_hash is None,
                Err(e) => match uploaded_contents(self.contents) {
                    None => e@ == seq![field_error("contents"@, "base64"@)],
                    Some(_) => !decodes && e@ == seq![
                        field_error("contents"@, "collector_credential"@),
                    ],
                },
            },
    {
        let bytes = match decode_contents(&self.contents) {
            Ok(b) => b,
            Err(e) => {
                return Err(e);
            },
        };
        if !decodes {
            let mut errors = ValidationErrors::new();
            errors.add("contents", "collector_credential");
            return Err(errors);
        }
        let now = now_unix_nanos();
        Ok(
            CollectorCredential {
                id: new_random_id(),
                account_id,
                contents: bytes,
                created_at: now,
                updated_at: now,
                deleted_at: None,
                name: self.name,
                token_hash: None,
            },
        )
    }
}

/// A change to a collector credential: its name, set as given.
#[derive(Debug)]
pub struct UpdateCollectorCredential {
    pub name: Option<String>,
}

impl UpdateCollectorCredential {
    /// The credential renamed, updated now.
    pub fn build(self, credential: CollectorCredential) -> (r: CollectorCredential)
        ensures
            r.name == self.name,
            r.id == credential.id,
            r.account_id == credential.account_id,
            r.contents == credential.contents,
            r.created_at == credential.created_at,
            r.deleted_at == credential.deleted_at,
            r.token_hash == credential.token_hash,
    {
        let now = now_unix_nanos();
        CollectorCredential { name: self.name, updated_at: now, ..credential }
    }
}

/// An HPKE configuration of an account. Times are nanoseconds since the
/// Unix epoch.
#[derive(Debug)]
pub struct HpkeConfig {
    pub id: u128,
    pub account_id: u128,
    /// The encoded HPKE configuration.
    pub contents: Vec<u8>,
    pub created_at: i128,
    pub deleted_at: Option<i128>,
    pub updated_at: i128,
    pub name: Option<String>,
}

impl HpkeConfig {
    /// The configuration, deleted now.
    pub fn tombstone(self) -> (r: HpkeConfig)
        ensures
            r.deleted_at is Some,
            r.id == self.id,
            r.account_id == self.account_id,
            r.contents == self.contents,
            r.created_at == self.created_at,
            r.name == self.name,
    {
        let deleted = now_unix_nanos();
        let updated = now_unix_nanos();
        HpkeConfig { deleted_at: Some(deleted), updated_at: updated, ..self }
    }

    /// Whether the configuration was deleted.
    pub fn is_tombstoned(&self) -> (r: bool)
        ensures
            r == self.deleted_at is Some,
    {
        self.deleted_at.is_some()
    }

    /// The encoded HPKE configuration.
    pub fn contents(&self) -> (r: &Vec<u8>)
        ensures
            r == self.contents,
    {
        &self.contents
    }
}

/// An uploaded HPKE configuration.
#[derive(Debug)]
pub struct NewHpkeConfig {
    pub contents: Option<String>,
    pub name: Option<String>,
}

impl NewHpkeConfig {
    /// The HPKE configuration bytes of the upload, before they are decoded
    /// as a configuration.
    pub fn contents_bytes(&self) -> (r: Result<Vec<u8>, ValidationErrors>)
        ensures
            match r {
                Ok(b) => uploaded_contents(self.contents) == Some(b@),
                Err(e) => uploaded_contents(self.contents) is None && e@ == seq![
                    field_error("contents"@, "base64"@),
                ],
            },
    {
        decode_contents(&self.contents)
    }

    /// The configuration of the account, created now, where the upload holds
    /// base64 and `decodes` tells that the bytes are an HPKE configuration;
    /// bytes that are not one break the rule `hpke_config` of the field
    /// `contents`.
    pub fn build(self, account_id: u128, decodes: bool) -> (r: Result<HpkeConfig, ValidationErrors>)
        ensures
            match r {
                Ok(c) => uploaded_contents(self.contents) == Some(c.contents@) && decodes
                    && c.account_id == account_id && c.name == self.name && c.deleted_at is None,
                Err(e) => match uploaded_contents(self.contents) {
                    None => e@ == seq![field_error("contents"@, "base64"@)],
                    Some(_) => !decodes && e@ == seq![field_error("contents"@, "hpke_config"@)],
                },
            },
    {
        let bytes = match decode_contents(&self.contents) {
            Ok(b) => b,
            Err(e) => {
                return Err(e);
            },
        };
        if !decodes {
            let mut errors = ValidationErrors::new();
            errors.add("contents", "hpke_config");
            return Err(errors);
        }
        let now = now_unix_nanos();
        Ok(
            HpkeConfig {
                id: new_random_id(),
                account_id,
                contents: bytes,
                created_at: now,
                updated_at: now,
                deleted_at: None,
                name: self.name,
            },
        )
    }
}

/// A change to an HPKE configuration: its name, set as given.
#[derive(Debug)]
pub struct UpdateHpkeConfig {
    pub name: Option<String>,
}

impl UpdateHpkeConfig {
    /// The configuration renamed, updated now.
    pub fn build(self, config: HpkeConfig) -> (r: HpkeConfig)
        ensures
            r.name == self.name,
            r.id == config.id,
            r.account_id == config.account_id,
            r.contents == config.contents,
            r.created_at == config.created_at,
            r.deleted_at == config.deleted_at,
    {
        let now = now_unix_nanos();
        HpkeConfig { name: self.name, updated_at: now, ..config }
    }
}

} // verus!
