use crate::clock::{new_random_id, now_unix_nanos};
use crate::encoding::{base64url_decode, base64url_encode, spec_base64url_decode, spec_base64url_encode};
use ::sha2::Digest;
use ::subtle::ConstantTimeEq;
use vstd::prelude::*;

verus! {

/// The prefix of every API token.
pub const TOKEN_IDENTIFIER: &'static str = "DUAT";

/// The bytes of a SHA-256 digest, as the `sha2` crate computes it.
pub uninterp spec fn spec_sha256(data: Seq<u8>) -> Seq<u8>;

/// `sha2::Sha256::digest`. The digest is named `spec_sha256`; it is always
/// thirty-two bytes long.
#[verifier::external_body]
pub(crate) fn sha256(data: &[u8]) -> (r: Vec<u8>)
    ensures
        r@ == spec_sha256(data@),
        r@.len() == 32,
{
    ::sha2::Sha256::digest(data).to_vec()
}

/// `subtle::ConstantTimeEq::ct_eq` on byte slices, read as a `bool`: as its
/// source shows, true exactly when the slices have the same length and the
/// same bytes.
#[verifier::external_body]
fn ct_eq(a: &[u8], b: &[u8]) -> (r: bool)
    ensures
        r == (a@ == b@),
{
    a.ct_eq(b).into()
}

/// Thirty-two random bytes from `rand::random`. Nothing is claimed of them.
#[verifier::external_body]
fn random_secret() -> (r: [u8; 32]) {
    ::rand::random()
}

/// The sixteen bytes of an identifier, most significant first.
pub open spec fn id_bytes(id: u128) -> Seq<u8> {
    Seq::new(16, |i: int| ((id >> (8 * (15 - i)) as u128) & 0xffu128) as u8)
}

/// The identifier whose bytes, most significant first, are `b`.
pub open spec fn id_of_bytes(b: Seq<u8>) -> u128 {
    (b[0] as u128) << 120u128 | (b[1] as u128) << 112u128 | (b[2] as u128) << 104u128 | (
    b[3] as u128) << 96u128 | (b[4] as u128) << 88u128 | (b[5] as u128) << 80u128 | (
    b[6] as u128) << 72u128 | (b[7] as u128) << 64u128 | (b[8] as u128) << 56u128 | (
    b[9] as u128) << 48u128 | (b[10] as u128) << 40u128 | (b[11] as u128) << 32u128 | (
    b[12] as u128) << 24u128 | (b[13] as u128) << 16u128 | (b[14] as u128) << 8u128 | (
    b[15] as u128)
}

/// Reading back the bytes of an identifier gives the identifier.
pub proof fn lemma_id_bytes_roundtrip(id: u128)
    ensures
        id_of_bytes(id_bytes(id)) == id,
{
    let b = id_bytes(id);
    assert(b[0] == ((id >> 120u128) & 0xffu128) as u8);
    assert(b[1] == ((id >> 112u128) & 0xffu128) as u8);
    assert(b[2] == ((id >> 104u128) & 0xffu128) as u8);
    assert(b[3] == ((id >> 96u128) & 0xffu128) as u8);
    assert(b[4] == ((id >> 88u128) & 0xffu128) as u8);
    assert(b[5] == ((id >> 80u128) & 0xffu128) as u8);
    assert(b[6] == ((id >> 72u128) & 0xffu128) as u8);
    assert(b[7] == ((id >> 64u128) & 0xffu128) as u8);
    assert(b[8] == ((id >> 56u128) & 0xffu128) as u8);
    assert(b[9] == ((id >> 48u128) & 0xffu128) as u8);
    assert(b[10] == ((id >> 40u128) & 0xffu128) as u8);
    assert(b[11] == ((id >> 32u128) & 0xffu128) as u8);
    assert(b[12] == ((id >> 24u128) & 0xffu128) as u8);
    assert(b[13] == ((id >> 16u128) & 0xffu128) as u8);
    assert(b[14] == ((id >> 8u128) & 0xffu128) as u8);
    assert(b[15] == ((id >> 0u128) & 0xffu128) as u8);
    let (b0, b1, b2, b3, b4, b5, b6, b7) = (b[0], b[1], b[2], b[3], b[4], b[5], b[6], b[7]);
    let (b8, b9, b10, b11, b12, b13, b14, b15) = (
        b[8],
        b[9],
        b[10],
        b[11],
        b[12],
        b[13],
        b[14],
        b[15],
    );
    assert((b0 as u128) << 120u128 | (b1 as u128) << 112u128 | (b2 as u128) << 104u128 | (
    b3 as u128) << 96u128 | (b4 as u128) << 88u128 | (b5 as u128) << 80u128 | (b6 as u128)
        << 72u128 | (b7 as u128) << 64u128 | (b8 as u128) << 56u128 | (b9 as u128) << 48u128 | (
    b10 as u128) << 40u128 | (b11 as u128) << 32u128 | (b12 as u128) << 24u128 | (b13 as u128)
        << 16u128 | (b14 as u128) << 8u128 | (b15 as u128) == id) by (bit_vector)
        requires
            b0 == ((id >> 120u128) & 0xffu128) as u8,
            b1 == ((id >> 112u128) & 0xffu128) as u8,
            b2 == ((id >> 104u128) & 0xffu128) as u8,
            b3 == ((id >> 96u128) & 0xffu128) as u8,
            b4 == ((id >> 88u128) & 0xffu128) as u8,
            b5 == ((id >> 80u128) & 0xffu128) as u8,
            b6 == ((id >> 72u128) & 0xffu128) as u8,
            b7 == ((id >> 64u128) & 0xffu128) as u8,
            b8 == ((id >> 56u128) & 0xffu128) as u8,
            b9 == ((id >> 48u128) & 0xffu128) as u8,
            b10 == ((id >> 40u128) & 0xffu128) as u8,
            b11 == ((id >> 32u128) & 0xffu128) as u8,
            b12 == ((id >> 24u128) & 0xffu128) as u8,
            b13 == ((id >> 16u128) & 0xffu128) as u8,
            b14 == ((id >> 8u128) & 0xffu128) as u8,
            b15 == ((id >> 0u128) & 0xffu128) as u8,
    ;
}

/// The text of an API token: the identifier `DUAT`, then the URL-safe,
/// unpadded base64 of the token's id and secret.
pub open spec fn token_text(id: u128, secret: Seq<u8>) -> Seq<char> {
    TOKEN_IDENTIFIER@ + spec_base64url_encode(id_bytes(id) + secret)
}

/// The id and secret that a text of an API token carries, if it is one.
pub open spec fn decoded_token(token: Seq<char>) -> Option<(u128, Seq<u8>)> {
    if token.len() >= 4 && token.take(4) == TOKEN_IDENTIFIER@ {
        match spec_base64url_decode(token.skip(4)) {
            Some(b) => if b.len() == 48 {
                Some((id_of_bytes(b.take(16)), b.skip(16)))
            } else {
                None
            },
            None => None,
        }
    } else {
        None
    }
}

/// An API token's text begins with the four characters `DUAT`, followed by
/// the URL-safe base64 of 16 id bytes and the secret; only a text that
/// begins with `DUAT` is read as a token, and the id is read from the first
/// 16 decoded bytes, the secret from the rest.
pub proof fn lemma_token_format(id: u128, secret: Seq<u8>, text: Seq<char>)
    ensures
        token_text(id, secret).len() >= 4,
        token_text(id, secret).take(4) == "DUAT"@,
        token_text(id, secret).skip(4) == spec_base64url_encode(id_bytes(id) + secret),
        id_bytes(id).len() == 16,
        decoded_token(text) matches Some((i, sec)) ==> {
            &&& text.take(4) == "DUAT"@
            &&& spec_base64url_decode(text.skip(4)) matches Some(b) && b.len() == 48
                && i == id_of_bytes(b.take(16)) && sec == b.skip(16)
        },
{
    reveal_strlit("DUAT");
    assert("DUAT"@.len() == 4);
    let t = token_text(id, secret);
    assert(t.take(4) =~= "DUAT"@);
    assert(t.skip(4) =~= spec_base64url_encode(id_bytes(id) + secret));
}

/// The text of an API token with `id` and `secret`; it decodes back to them.
pub fn encode_token(id: u128, secret: &[u8; 32]) -> (r: String)
    ensures
        r@ == token_text(id, secret@),
        decoded_token(r@) == Some((id, secret@)),
{
    let mut bytes: Vec<u8> = Vec::new();
    let mut i: usize = 0;
    while i < 16
        invariant
            i <= 16,
            bytes@ == id_bytes(id).take(i as int),
        decreases 16 - i,
    {
        let shift: u128 = (8 * (15 - i)) as u128;
        bytes.push(((id >> shift) & 0xff) as u8);
        proof {
            assert(bytes@ =~= id_bytes(id).take(i + 1));
        }
        i = i + 1;
    }
    let mut j: usize = 0;
    while j < 32
        invariant
            j <= 32,
            bytes@ == id_bytes(id) + secret@.take(j as int),
        decreases 32 - j,
    {
        bytes.push(secret[j]);
        proof {
            assert(secret@.take(j + 1) =~= secret@.take(j as int).push(secret@[j as int]));
            assert(bytes@ =~= id_bytes(id) + secret@.take(j + 1));
        }
        j = j + 1;
    }
    proof {
        assert(id_bytes(id).take(16) =~= id_bytes(id));
        assert(secret@.take(32) =~= secret@);
    }
    let encoded = base64url_encode(bytes.as_slice());
    let mut r = String::from_str(TOKEN_IDENTIFIER);
    r.append(encoded.as_str());
    proof {
        reveal_strlit("DUAT");
        assert(r@.take(4) =~= TOKEN_IDENTIFIER@);
        assert(r@.skip(4) =~= encoded@);
        assert(bytes@.take(16) =~= id_bytes(id));
        assert(bytes@.skip(16) =~= secret@);
        lemma_id_bytes_roundtrip(id);
    }
    r
}

/// The id and secret that a text of an API token carries, if it is one.
pub fn decode_token(token: &str) -> (r: Option<(u128, Vec<u8>)>)
    ensures
        match r {
            Some((id, secret)) => decoded_token(token@) == Some((id, secret@)),
            None => decoded_token(token@) is None,
        },
{
    proof {
        reveal_strlit("DUAT");
    }
    let n = token.unicode_len();
    if n < 4 || !crate::strings::str_eq(token.substring_char(0, 4), TOKEN_IDENTIFIER) {
        proof {
            if n >= 4 {
                assert(token@.subrange(0, 4) =~= token@.take(4));
            }
        }
        return None;
    }
    let rest = token.substring_char(4, n);
    proof {
        assert(token@.subrange(0, 4) =~= token@.take(4));
        assert(rest@ =~= token@.skip(4));
    }
    let bytes = match base64url_decode(rest) {
        Ok(b) => b,
        Err(_) => {
            return None;
        },
    };
    if bytes.len() != 48 {
        return None;
    }
    let id: u128 = (bytes[0] as u128) << 120u128 | (bytes[1] as u128) << 112u128 | (
    bytes[2] as u128) << 104u128 | (bytes[3] as u128) << 96u128 | (bytes[4] as u128) << 88u128 | (
    bytes[5] as u128) << 80u128 | (bytes[6] as u128) << 72u128 | (bytes[7] as u128) << 64u128 | (
    bytes[8] as u128) << 56u128 | (bytes[9] as u128) << 48u128 | (bytes[10] as u128) << 40u128 | (
    bytes[11] as u128) << 32u128 | (bytes[12] as u128) << 24u128 | (bytes[13] as u128)
        << 16u128 | (bytes[14] as u128) << 8u128 | (bytes[15] as u128);
    let mut secret: Vec<u8> = Vec::new();
    let mut i: usize = 16;
    while i < 48
        invariant
            16 <= i <= 48,
            bytes@.len() == 48,
            secret@ == bytes@.subrange(16, i as int),
        decreases 48 - i,
    {
        secret.push(bytes[i]);
        proof {
            assert(secret@ =~= bytes@.subrange(16, i + 1));
        }
        i = i + 1;
    }
    proof {
        assert(bytes@.take(16)[0] == bytes@[0]);
        assert(id == id_of_bytes(bytes@.take(16)));
        assert(secret@ =~= bytes@.skip(16));
    }
    Some((id, secret))
}

/// An API token as stored: the hash of its secret, never the secret.
#[derive(Debug)]
pub struct ApiToken {
    pub id: u128,
    pub account_id: u128,
    pub token_hash: Vec<u8>,
    pub created_at: i128,
    pub deleted_at: Option<i128>,
    pub last_used_at: Option<i128>,
    pub updated_at: i128,
    pub name: Option<String>,
    pub token: Option<String>,
}

impl ApiToken {
    /// A new token of the account: the stored record and the token's text,
    /// which is handed out once. The text carries the record's id and a
    /// secret whose hash the record holds.
    pub fn build(account_id: u128) -> (r: (ApiToken, String))
        ensures
            r.0.account_id == account_id,
            r.0.deleted_at is None,
            r.0.last_used_at is None,
            r.0.name is None,
            r.0.token is None,
            r.0.created_at == r.0.updated_at,
            exists|secret: Seq<u8>|
                secret.len() == 32 && #[trigger] decoded_token(r.1@) == Some((r.0.id, secret))
                    && r.0.token_hash@ == spec_sha256(secret),
    {
        let secret = random_secret();
        let id = new_random_id();
        let token_hash = sha256(&secret);
        let now = now_unix_nanos();
        let text = encode_token(id, &secret);
        let token = ApiToken {
            id,
            account_id,
            token_hash,
            created_at: now,
            updated_at: now,
            deleted_at: None,
            token: None,
            last_used_at: None,
            name: None,
        };
        proof {
            assert(decoded_token(text@) == Some((token.id, secret@)));
        }
        (token, text)
    }

    /// The token, marked used now.
    pub fn mark_last_used(self) -> (r: ApiToken)
        ensures
            r.last_used_at is Some,
            r.id == self.id,
            r.account_id == self.account_id,
            r.token_hash@ == self.token_hash@,
            r.created_at == self.created_at,
            r.deleted_at == self.deleted_at,
            r.updated_at == self.updated_at,
            r.name == self.name,
            r.token == self.token,
    {
        let now = now_unix_nanos();
        ApiToken { last_used_at: Some(now), ..self }
    }

    /// The token, deleted now.
    pub fn tombstone(self) -> (r: ApiToken)
        ensures
            r.deleted_at is Some,
            r.id == self.id,
            r.account_id == self.account_id,
            r.token_hash@ == self.token_hash@,
            r.created_at == self.created_at,
            r.last_used_at == self.last_used_at,
            r.name == self.name,
            r.token == self.token,
    {
        let deleted = now_unix_nanos();
        let updated = now_unix_nanos();
        ApiToken { deleted_at: Some(deleted), updated_at: updated, ..self }
    }

    /// Whether the token was deleted.
    pub fn is_tombstoned(&self) -> (r: bool)
        ensures
            r == self.deleted_at is Some,
    {
        self.deleted_at.is_some()
    }
}

/// What to look an API token up by: the id that its text carries and the
/// hash of its secret; `None` where the text is not a token.
pub fn token_lookup(token: &str) -> (r: Option<(u128, Vec<u8>)>)
    ensures
        match r {
            Some((id, hash)) => decoded_token(token@) matches Some((i, secret)) && id == i
                && hash@ == spec_sha256(secret),
            None => decoded_token(token@) is None,
        },
{
    match decode_token(token) {
        Some((id, secret)) => Some((id, sha256(secret.as_slice()))),
        None => None,
    }
}

/// Whether a stored token hash matches a computed one, compared in constant
/// time.
pub fn token_hash_matches(stored: &[u8], computed: &[u8]) -> (r: bool)
    ensures
        r == (stored@ == computed@),
{
    ct_eq(stored, computed)
}

/// A change to an API token: its name, where an empty name clears it.
#[derive(Debug)]
pub struct UpdateApiToken {
    pub name: Option<String>,
}

impl UpdateApiToken {
    /// The token renamed; an empty name removes the name.
    pub fn build(self, model: ApiToken) -> (r: ApiToken)
        ensures
            match self.name {
                Some(n) => if n@.len() == 0 {
                    r.name is None
                } else {
                    r.name == Some(n)
                },
                None => r.name is None,
            },
            r.id == model.id,
            r.account_id == model.account_id,
            r.token_hash@ == model.token_hash@,
            r.created_at == model.created_at,
            r.deleted_at == model.deleted_at,
            r.last_used_at == model.last_used_at,
            r.token == model.token,
    {
        let name = match self.name {
            Some(n) => if n.as_str().unicode_len() == 0 {
                None
            } else {
                Some(n)
            },
            None => None,
        };
        let now = now_unix_nanos();
        ApiToken { name, updated_at: now, ..model }
    }
}

} // verus!
