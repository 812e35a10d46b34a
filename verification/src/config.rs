use crate::encoding::{base64url_decode, spec_base64url_decode};
use crate::strings::{split_at_commas, split_commas};
use vstd::prelude::*;

verus! {

/// Switches of the service's optional behavior.
#[derive(Debug, Clone, Copy)]
pub struct FeatureFlags {
    /// Whether upload metrics are refreshed from the aggregators.
    pub metrics_refresh_enabled: bool,
}

/// Why a setting could not be read from the environment.
#[derive(Debug)]
pub enum ConfigError {
    /// The variable is not set.
    MissingEnvVar(&'static str),
    /// The variable is set but not to Unicode text.
    NotUnicode(&'static str),
    /// The variable is set but is not a valid value of the named type; the
    /// last part describes why.
    InvalidEnvVarFormat(String, &'static str, String),
}

/// A setting that may be left out: where its variable is not set, the
/// default; otherwise what reading it gave.
pub fn var_optional<T>(read: Result<T, ConfigError>, default: T) -> (r: Result<T, ConfigError>)
    ensures
        match read {
            Err(ConfigError::MissingEnvVar(_)) => r == Ok::<T, ConfigError>(default),
            other => r == other,
        },
{
    match read {
        Err(ConfigError::MissingEnvVar(_)) => Ok(default),
        other => other,
    }
}

/// Why a list of session secrets could not be read.
#[derive(Debug, Clone, Copy, PartialEq, Eq, Structural)]
pub enum SessionSecretsDecodeError {
    /// A secret decoded to fewer than thirty-two bytes.
    TooShort,
    /// A secret was not URL-safe base64 without padding.
    Base64,
    /// No secret was given.
    Missing,
}

/// The secrets that sign sessions: the current one, which signs, and older
/// ones, which are still accepted.
#[derive(Debug)]
pub struct SessionSecrets {
    pub current: Vec<u8>,
    pub older: Vec<Vec<u8>>,
}

/// The shortest session secret, in bytes.
pub const MIN_SESSION_SECRET_LEN: usize = 32;

/// The bytes that each of `pieces` decodes to, or nothing where one of them
/// is not URL-safe base64 without padding.
pub open spec fn decode_all(pieces: Seq<Seq<char>>) -> Option<Seq<Seq<u8>>>
    decreases pieces.len(),
{
    if pieces.len() == 0 {
        Some(seq![])
    } else {
        match (spec_base64url_decode(pieces[0]), decode_all(pieces.drop_first())) {
            (Some(b), Some(rest)) => Some(seq![b] + rest),
            _ => None,
        }
    }
}

/// Whether every secret is at least thirty-two bytes long.
pub open spec fn long_enough(secrets: Seq<Seq<u8>>) -> bool {
    forall|i: int| 0 <= i < secrets.len() ==> #[trigger] secrets[i].len() >= 32
}

/// The secrets as byte strings, the current one first.
pub open spec fn secrets_view(s: SessionSecrets) -> Seq<Seq<u8>> {
    seq![s.current@] + s.older@.map_values(|v: Vec<u8>| v@)
}

impl SessionSecrets {
    /// Only a current secret.
    pub fn from_current(current: Vec<u8>) -> (r: SessionSecrets)
        ensures
            r.current@ == current@,
            r.older@.len() == 0,
    {
        SessionSecrets { current, older: Vec::new() }
    }

    /// Reads comma-separated secrets, each URL-safe base64 without padding of
    /// at least thirty-two bytes; the first is the current one.
    pub fn from_str(s: &str) -> (r: Result<SessionSecrets, SessionSecretsDecodeError>)
        ensures
            match (r, decode_all(split_at_commas(s@))) {
                (Ok(secrets), Some(all)) => all.len() >= 1 && secrets_view(secrets) == all
                    && long_enough(all),
                (Err(SessionSecretsDecodeError::Base64), None) => true,
                (Err(SessionSecretsDecodeError::TooShort), Some(all)) => !long_enough(all),
                (Err(SessionSecretsDecodeError::Missing), Some(all)) => all.len() == 0,
                _ => false,
            },
    {
        let pieces = split_commas(s);
        let ghost texts = pieces@.map_values(|p: String| p@);
        let mut decoded: Vec<Vec<u8>> = Vec::new();
        let mut i: usize = 0;
        proof {
            assert(texts.subrange(0, texts.len() as int) =~= texts);
            assert(decoded@.map_values(|v: Vec<u8>| v@) =~= Seq::<Seq<u8>>::empty());
        }
        while i < pieces.len()
            invariant
                texts == pieces@.map_values(|p: String| p@),
                texts == split_at_commas(s@),
                i <= pieces@.len(),
                decode_all(texts) == match decode_all(
                    texts.subrange(i as int, texts.len() as int),
                ) {
                    Some(rest) => Some(decoded@.map_values(|v: Vec<u8>| v@) + rest),
                    None => None,
                },
            decreases pieces@.len() - i,
        {
            let ghost rest = texts.subrange(i as int, texts.len() as int);
            proof {
                assert(rest[0] == pieces@[i as int]@);
                assert(rest.drop_first() =~= texts.subrange(i + 1, texts.len() as int));
            }
            match base64url_decode(pieces[i].as_str()) {
                Err(_) => {
                    return Err(SessionSecretsDecodeError::Base64);
                },
                Ok(bytes) => {
                    let ghost before = decoded@.map_values(|v: Vec<u8>| v@);
                    decoded.push(bytes);
                    proof {
                        assert(decoded@.map_values(|v: Vec<u8>| v@) =~= before.push(bytes@));
                        match decode_all(texts.subrange(i + 1, texts.len() as int)) {
                            Some(more) => {
                                assert(before + (seq![bytes@] + more) =~= before.push(bytes@)
                                    + more);
                            },
                            None => {},
                        }
                    }
                },
            }
            i = i + 1;
        }
        let ghost all = decoded@.map_values(|v: Vec<u8>| v@);
        proof {
            assert(texts.subrange(pieces@.len() as int, texts.len() as int) =~= Seq::<
                Seq<char>,
            >::empty());
            assert(all + Seq::<Seq<u8>>::empty() =~= all);
            assert(decode_all(split_at_commas(s@)) == Some(all));
        }
        let mut j: usize = 0;
        while j < decoded.len()
            invariant
                all == decoded@.map_values(|v: Vec<u8>| v@),
                decode_all(split_at_commas(s@)) == Some(all),
                j <= decoded@.len(),
                forall|k: int| 0 <= k < j ==> #[trigger] all[k].len() >= 32,
            decreases decoded@.len() - j,
        {
            if decoded[j].len() < MIN_SESSION_SECRET_LEN {
                proof {
                    assert(all[j as int].len() < 32);
                    assert(!long_enough(all));
                }
                return Err(SessionSecretsDecodeError::TooShort);
            }
            j = j + 1;
        }
        if decoded.len() == 0 {
            return Err(SessionSecretsDecodeError::Missing);
        }
        let current = decoded.remove(0);
        let r = SessionSecrets { current, older: decoded };
        proof {
            assert(secrets_view(r) =~= all);
        }
        Ok(r)
    }
}

} // verus!
