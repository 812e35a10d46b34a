use crate::encoding::{base64url_decode, spec_base64url_decode};
use crate::strings::{split_at_commas, split_commas};
use ::aes_gcm::aead::{AeadCore, AeadInPlace, KeyInit};
use vstd::prelude::*;

verus! {

/// The length of an AES-128-GCM key, in bytes.
pub const KEY_LEN: usize = 16;

/// The length of an AES-GCM nonce, in bytes.
pub const NONCE_LEN: usize = 12;

/// The largest plaintext, and the largest associated data, in bytes, that
/// AES-GCM seals.
pub const AES_GCM_MAX_INPUT: u64 = 0x10_0000_0000;

/// The external error of an AEAD operation.
#[verifier::external_type_specification]
#[verifier::external_body]
pub struct ExAeadError(::aes_gcm::Error);

/// What AES-128-GCM writes, ciphertext and tag, when it seals `plaintext`
/// with `key`, `nonce` and `associated_data`.
pub uninterp spec fn spec_aes_gcm_seal(
    key: Seq<u8>,
    nonce: Seq<u8>,
    associated_data: Seq<u8>,
    plaintext: Seq<u8>,
) -> Seq<u8>;

/// What AES-128-GCM opens from ciphertext and tag with `key`, `nonce` and
/// `associated_data`: the plaintext, or nothing where the tag does not
/// authenticate them.
pub uninterp spec fn spec_aes_gcm_open(
    key: Seq<u8>,
    nonce: Seq<u8>,
    associated_data: Seq<u8>,
    sealed: Seq<u8>,
) -> Option<Seq<u8>>;

/// Seals with `aes_gcm::Aes128Gcm` (`KeyInit::new`, then
/// `AeadInPlace::encrypt_in_place`). As its source shows, it refuses a
/// plaintext or associated data longer than 2^36 bytes and otherwise writes
/// the ciphertext, as long as the plaintext, followed by a 16-byte tag; the
/// bytes themselves are named `spec_aes_gcm_seal`.
#[verifier::external_body]
fn aes_gcm_seal(key: &[u8; 16], nonce: &[u8], associated_data: &[u8], plaintext: &[u8]) -> (r:
    Result<Vec<u8>, ::aes_gcm::Error>)
    requires
        nonce@.len() == NONCE_LEN,
    ensures
        r is Err <==> (plaintext@.len() > AES_GCM_MAX_INPUT || associated_data@.len()
            > AES_GCM_MAX_INPUT),
        r matches Ok(c) ==> c@ == spec_aes_gcm_seal(key@, nonce@, associated_data@, plaintext@)
            && c@.len() == plaintext@.len() + 16,
{
    let cipher = ::aes_gcm::Aes128Gcm::new(::aes_gcm::Key::<::aes_gcm::Aes128Gcm>::from_slice(key));
    let nonce = ::aes_gcm::aead::generic_array::GenericArray::from_slice(nonce);
    let mut buffer = plaintext.to_vec();
    cipher.encrypt_in_place(nonce, associated_data, &mut buffer)?;
    Ok(buffer)
}

/// Whether `sealed` is what sealing `plaintext` gives, with input lengths
/// that sealing accepts.
pub open spec fn seals_to(
    key: Seq<u8>,
    nonce: Seq<u8>,
    associated_data: Seq<u8>,
    plaintext: Seq<u8>,
    sealed: Seq<u8>,
) -> bool {
    &&& plaintext.len() <= AES_GCM_MAX_INPUT
    &&& associated_data.len() <= AES_GCM_MAX_INPUT
    &&& spec_aes_gcm_seal(key, nonce, associated_data, plaintext) == sealed
}

/// Opens with `aes_gcm::Aes128Gcm` (`KeyInit::new`, then
/// `AeadInPlace::decrypt_in_place`). The outcome is named
/// `spec_aes_gcm_open`; as the source shows (the tag is recomputed over the
/// same ciphertext and the same keystream is applied), what was sealed with
/// the same key, nonce and associated data opens to the plaintext that was
/// sealed.
#[verifier::external_body]
fn aes_gcm_open(key: &[u8; 16], nonce: &[u8], associated_data: &[u8], sealed: &[u8]) -> (r:
    Result<Vec<u8>, ::aes_gcm::Error>)
    requires
        nonce@.len() == NONCE_LEN,
    ensures
        r matches Ok(p) ==> spec_aes_gcm_open(key@, nonce@, associated_data@, sealed@) == Some(
            p@,
        ),
        r is Err ==> spec_aes_gcm_open(key@, nonce@, associated_data@, sealed@) is None,
        r matches Ok(v) || forall|p: Seq<u8>|
            !seals_to(key@, nonce@, associated_data@, p, sealed@),
        r matches Ok(v) ==> forall|p: Seq<u8>|
            seals_to(key@, nonce@, associated_data@, p, sealed@) ==> v@ == p,
{
    let cipher = ::aes_gcm::Aes128Gcm::new(::aes_gcm::Key::<::aes_gcm::Aes128Gcm>::from_slice(key));
    let nonce = ::aes_gcm::aead::generic_array::GenericArray::from_slice(nonce);
    let mut buffer = sealed.to_vec();
    cipher.decrypt_in_place(nonce, associated_data, &mut buffer)?;
    Ok(buffer)
}

/// The error value of the `aead` crate, `aead::Error`, which carries nothing.
#[verifier::external_body]
fn aead_error() -> (r: ::aes_gcm::Error) {
    ::aes_gcm::Error
}

/// A fresh nonce from `AeadCore::generate_nonce` with the operating system's
/// random source (`aead::OsRng`). Its bytes are random; it is always twelve
/// of them.
#[verifier::external_body]
fn random_nonce() -> (r: Vec<u8>)
    ensures
        r@.len() == NONCE_LEN,
{
    ::aes_gcm::Aes128Gcm::generate_nonce(&mut ::aes_gcm::aead::OsRng).to_vec()
}

/// A fresh key from `KeyInit::generate_key` with the operating system's
/// random source (`aead::OsRng`). Its bytes are random.
#[verifier::external_body]
fn random_key() -> (r: [u8; 16]) {
    let key = ::aes_gcm::Aes128Gcm::generate_key(::aes_gcm::aead::OsRng);
    let mut out = [0u8; 16];
    out.copy_from_slice(&key);
    out
}

/// Why a list of keys could not be read.
#[derive(Debug)]
pub enum CrypterParseError {
    /// A key was not URL-safe base64 without padding.
    Base64(::base64::DecodeError),
    /// A key did not decode to sixteen bytes.
    IncorrectLength,
    /// No key was given.
    Missing,
}

/// Encrypts and decrypts secrets at rest with AES-128-GCM: it seals with the
/// current key and opens with the current key or any of the past ones.
#[derive(Debug)]
pub struct Crypter {
    current_key: [u8; 16],
    past_keys: Vec<[u8; 16]>,
}

/// The texts of a list of keys.
pub open spec fn key_views(keys: Seq<[u8; 16]>) -> Seq<Seq<u8>> {
    keys.map_values(|k: [u8; 16]| k@)
}

/// What a list of keys in text reads as.
pub enum KeysParse {
    Keys(Seq<Seq<u8>>),
    BadBase64,
    BadLength,
}

/// The keys that the comma-separated `pieces` encode, or the failure of the
/// first piece that does not encode one.
pub open spec fn parse_keys(pieces: Seq<Seq<char>>) -> KeysParse
    decreases pieces.len(),
{
    if pieces.len() == 0 {
        KeysParse::Keys(seq![])
    } else {
        match spec_base64url_decode(pieces[0]) {
            None => KeysParse::BadBase64,
            Some(b) => if b.len() != KEY_LEN {
                KeysParse::BadLength
            } else {
                match parse_keys(pieces.drop_first()) {
                    KeysParse::Keys(ks) => KeysParse::Keys(seq![b] + ks),
                    other => other,
                }
            },
        }
    }
}

/// `keys` put before what `rest` reads as.
pub open spec fn keys_then(keys: Seq<Seq<u8>>, rest: KeysParse) -> KeysParse {
    match rest {
        KeysParse::Keys(ks) => KeysParse::Keys(keys + ks),
        other => other,
    }
}

/// Whether `sealed` is a nonce followed by what `key` seals `plaintext` to
/// with that nonce and `associated_data`.
pub open spec fn sealed_with(
    key: Seq<u8>,
    associated_data: Seq<u8>,
    plaintext: Seq<u8>,
    sealed: Seq<u8>,
) -> bool {
    &&& sealed.len() >= NONCE_LEN
    &&& sealed.subrange(NONCE_LEN as int, sealed.len() as int) == spec_aes_gcm_seal(
        key,
        sealed.subrange(0, NONCE_LEN as int),
        associated_data,
        plaintext,
    )
}

/// What the first of `keys` that opens `sealed` opens it to.
pub open spec fn first_opening(
    keys: Seq<Seq<u8>>,
    nonce: Seq<u8>,
    associated_data: Seq<u8>,
    sealed: Seq<u8>,
) -> Option<Seq<u8>>
    decreases keys.len(),
{
    if keys.len() == 0 {
        None
    } else {
        match spec_aes_gcm_open(keys[0], nonce, associated_data, sealed) {
            Some(p) => Some(p),
            None => first_opening(keys.drop_first(), nonce, associated_data, sealed),
        }
    }
}

/// Whether none of the first `j` of `keys` opens a nonce followed by a
/// ciphertext.
pub open spec fn none_opens_before(
    keys: Seq<Seq<u8>>,
    j: int,
    associated_data: Seq<u8>,
    nonce_and_ciphertext: Seq<u8>,
) -> bool {
    forall|i: int|
        0 <= i < j ==> #[trigger] spec_aes_gcm_open(
            keys[i],
            nonce_and_ciphertext.subrange(0, NONCE_LEN as int),
            associated_data,
            nonce_and_ciphertext.subrange(NONCE_LEN as int, nonce_and_ciphertext.len() as int),
        ) is None
}

/// Whether decrypting with `keys` gives back what any of them sealed, where
/// no key before it opens the text: `r` is the plaintext that was sealed.
pub open spec fn opens_what_keys_sealed(
    keys: Seq<Seq<u8>>,
    associated_data: Seq<u8>,
    nonce_and_ciphertext: Seq<u8>,
    r: Result<Vec<u8>, ::aes_gcm::Error>,
) -> bool {
    forall|j: int, p: Seq<u8>|
        0 <= j < keys.len() && p.len() <= AES_GCM_MAX_INPUT && associated_data.len()
            <= AES_GCM_MAX_INPUT && #[trigger] sealed_with(
            keys[j],
            associated_data,
            p,
            nonce_and_ciphertext,
        ) && none_opens_before(keys, j, associated_data, nonce_and_ciphertext) ==> (r matches Ok(
            v,
        ) && v@ == p)
}

/// What decryption with `keys` makes of a nonce followed by a ciphertext.
pub open spec fn decryption(
    keys: Seq<Seq<u8>>,
    associated_data: Seq<u8>,
    nonce_and_ciphertext: Seq<u8>,
) -> Option<Seq<u8>> {
    if nonce_and_ciphertext.len() < NONCE_LEN {
        None
    } else {
        first_opening(
            keys,
            nonce_and_ciphertext.subrange(0, NONCE_LEN as int),
            associated_data,
            nonce_and_ciphertext.subrange(NONCE_LEN as int, nonce_and_ciphertext.len() as int),
        )
    }
}

/// The sixteen bytes of a key held in a vector of that length.
fn key_from_vec(v: &Vec<u8>) -> (r: [u8; 16])
    requires
        v@.len() == KEY_LEN,
    ensures
        r@ == v@,
{
    let r = [
        v[0],
        v[1],
        v[2],
        v[3],
        v[4],
        v[5],
        v[6],
        v[7],
        v[8],
        v[9],
        v[10],
        v[11],
        v[12],
        v[13],
        v[14],
        v[15],
    ];
    proof {
        assert(r@ =~= v@);
    }
    r
}

impl Crypter {
    /// All keys, the current one first.
    pub closed spec fn keys(&self) -> Seq<Seq<u8>> {
        seq![self.current_key@] + key_views(self.past_keys@)
    }

    /// The key that seals.
    pub closed spec fn current(&self) -> Seq<u8> {
        self.current_key@
    }

    /// The current key is the first of all keys.
    pub proof fn lemma_current_key_first(&self)
        ensures
            self.keys().len() >= 1,
            self.keys()[0] == self.current(),
    {
    }

    /// The number of past keys, which still open but no longer seal.
    pub fn past_key_count(&self) -> (r: usize)
        ensures
            r == self.keys().len() - 1,
    {
        self.past_keys.len()
    }

    /// A crypter that seals with `current_key` and also opens with
    /// `past_keys`.
    pub fn new(current_key: [u8; 16], past_keys: Vec<[u8; 16]>) -> (r: Crypter)
        ensures
            r.keys() == seq![current_key@] + key_views(past_keys@),
    {
        Crypter { current_key, past_keys }
    }

    /// A crypter with a single key.
    pub fn from_key(key: [u8; 16]) -> (r: Crypter)
        ensures
            r.keys() == seq![key@],
    {
        Crypter { current_key: key, past_keys: Vec::new() }
    }

    /// A new random key.
    pub fn generate_key() -> (r: [u8; 16]) {
        random_key()
    }

    /// Reads comma-separated keys, each URL-safe base64 without padding of
    /// sixteen bytes; the first becomes the current key.
    pub fn from_str(s: &str) -> (r: Result<Crypter, CrypterParseError>)
        ensures
            match (r, parse_keys(split_at_commas(s@))) {
                (Ok(c), KeysParse::Keys(ks)) => ks.len() >= 1 && c.keys() == ks,
                (Err(CrypterParseError::Base64(_)), KeysParse::BadBase64) => true,
                (Err(CrypterParseError::IncorrectLength), KeysParse::BadLength) => true,
                (Err(CrypterParseError::Missing), KeysParse::Keys(ks)) => ks.len() == 0,
                _ => false,
            },
    {
        let pieces = split_commas(s);
        let ghost texts = pieces@.map_values(|p: String| p@);
        let mut keys: Vec<[u8; 16]> = Vec::new();
        let mut i: usize = 0;
        proof {
            assert(texts.subrange(0, texts.len() as int) =~= texts);
            assert(key_views(keys@) =~= Seq::<Seq<u8>>::empty());
        }
        while i < pieces.len()
            invariant
                texts == pieces@.map_values(|p: String| p@),
                texts == split_at_commas(s@),
                i <= pieces@.len(),
                parse_keys(texts) == keys_then(
                    key_views(keys@),
                    parse_keys(texts.subrange(i as int, texts.len() as int)),
                ),
            decreases pieces@.len() - i,
        {
            let ghost rest = texts.subrange(i as int, texts.len() as int);
            proof {
                assert(rest[0] == pieces@[i as int]@);
                assert(rest.drop_first() =~= texts.subrange(i + 1, texts.len() as int));
            }
            match base64url_decode(pieces[i].as_str()) {
                Err(e) => {
                    return Err(CrypterParseError::Base64(e));
                },
                Ok(bytes) => {
                    if bytes.len() != KEY_LEN {
                        return Err(CrypterParseError::IncorrectLength);
                    }
                    let key = key_from_vec(&bytes);
                    let ghost before = key_views(keys@);
                    keys.push(key);
                    proof {
                        assert(key_views(keys@) =~= before.push(bytes@));
                        match parse_keys(texts.subrange(i + 1, texts.len() as int)) {
                            KeysParse::Keys(ks) => {
                                assert(before + (seq![bytes@] + ks) =~= before.push(bytes@) + ks);
                            },
                            _ => {},
                        }
                    }
                },
            }
            i = i + 1;
        }
        proof {
            assert(texts.subrange(pieces@.len() as int, texts.len() as int) =~= Seq::<
                Seq<char>,
            >::empty());
            assert(key_views(keys@) + Seq::<Seq<u8>>::empty() =~= key_views(keys@));
        }
        if keys.len() == 0 {
            return Err(CrypterParseError::Missing);
        }
        let current_key = keys.remove(0);
        let c = Crypter { current_key, past_keys: keys };
        proof {
            assert(c.keys() =~= parse_keys(texts)->Keys_0);
        }
        Ok(c)
    }

    /// Seals `plaintext` and `associated_data` with the current key and a
    /// fresh random nonce, and gives the nonce followed by the ciphertext.
    pub fn encrypt(&self, associated_data: &[u8], plaintext: &[u8]) -> (r: Result<
        Vec<u8>,
        ::aes_gcm::Error,
    >)
        ensures
            r is Err <==> (plaintext@.len() > AES_GCM_MAX_INPUT || associated_data@.len()
                > AES_GCM_MAX_INPUT),
            r matches Ok(v) ==> sealed_with(
                self.current(),
                associated_data@,
                plaintext@,
                v@,
            ),
            r matches Ok(v) ==> v@.len() == NONCE_LEN + plaintext@.len() + 16,
    {
        let nonce = random_nonce();
        match aes_gcm_seal(&self.current_key, nonce.as_slice(), associated_data, plaintext) {
            Err(e) => Err(e),
            Ok(ciphertext) => {
                let mut out = nonce;
                let mut i: usize = 0;
                while i < ciphertext.len()
                    invariant
                        out@ == nonce@ + ciphertext@.take(i as int),
                        i <= ciphertext@.len(),
                    decreases ciphertext@.len() - i,
                {
                    out.push(ciphertext[i]);
                    proof {
                        assert(ciphertext@.take(i + 1) =~= ciphertext@.take(i as int).push(
                            ciphertext@[i as int],
                        ));
                    }
                    i = i + 1;
                }
                proof {
                    assert(ciphertext@.take(ciphertext@.len() as int) =~= ciphertext@);
                    assert(out@.subrange(0, NONCE_LEN as int) =~= nonce@);
                    assert(out@.subrange(NONCE_LEN as int, out@.len() as int) =~= ciphertext@);
                }
                Ok(out)
            },
        }
    }

    /// Opens a nonce followed by a ciphertext with the first key, current or
    /// past, that authenticates it. What the current key sealed opens to the
    /// plaintext that was sealed, and so does what a past key sealed where no
    /// key before it opens the text.
    pub fn decrypt(&self, associated_data: &[u8], nonce_and_ciphertext: &[u8]) -> (r: Result<
        Vec<u8>,
        ::aes_gcm::Error,
    >)
        ensures
            match r {
                Ok(p) => decryption(self.keys(), associated_data@, nonce_and_ciphertext@) == Some(
                    p@,
                ),
                Err(_) => decryption(self.keys(), associated_data@, nonce_and_ciphertext@) is None,
            },
            forall|p: Seq<u8>|
                p.len() <= AES_GCM_MAX_INPUT && associated_data@.len() <= AES_GCM_MAX_INPUT
                    && #[trigger] sealed_with(
                    self.current(),
                    associated_data@,
                    p,
                    nonce_and_ciphertext@,
                ) ==> (r matches Ok(v) && v@ == p),
            opens_what_keys_sealed(self.keys(), associated_data@, nonce_and_ciphertext@, r),
    {
        let n = nonce_and_ciphertext.len();
        if n < NONCE_LEN {
            return Err(aead_error());
        }
        let mut nonce: Vec<u8> = Vec::new();
        let mut sealed: Vec<u8> = Vec::new();
        let mut i: usize = 0;
        while i < n
            invariant
                n == nonce_and_ciphertext@.len(),
                NONCE_LEN <= n,
                i <= n,
                nonce@ == nonce_and_ciphertext@.subrange(0, if i < NONCE_LEN {
                    i as int
                } else {
                    NONCE_LEN as int
                }),
                sealed@ == nonce_and_ciphertext@.subrange(NONCE_LEN as int, if i < NONCE_LEN {
                    NONCE_LEN as int
                } else {
                    i as int
                }),
            decreases n - i,
        {
            if i < NONCE_LEN {
                nonce.push(nonce_and_ciphertext[i]);
            } else {
                sealed.push(nonce_and_ciphertext[i]);
            }
            proof {
                assert(nonce@ =~= nonce_and_ciphertext@.subrange(0, if i + 1 < NONCE_LEN {
                    i + 1
                } else {
                    NONCE_LEN as int
                }));
                assert(sealed@ =~= nonce_and_ciphertext@.subrange(NONCE_LEN as int, if i + 1
                    < NONCE_LEN {
                    NONCE_LEN as int
                } else {
                    i + 1
                }));
            }
            i = i + 1;
        }
        let ghost keys = self.keys();
        proof {
            assert(nonce@ == nonce_and_ciphertext@.subrange(0, NONCE_LEN as int));
            assert(sealed@ == nonce_and_ciphertext@.subrange(NONCE_LEN as int, n as int));
            assert(keys[0] == self.current_key@);
        }
        let first = aes_gcm_open(&self.current_key, nonce.as_slice(), associated_data, sealed.as_slice());
        if let Ok(p) = first {
            proof {
                assert forall|q: Seq<u8>|
                    q.len() <= AES_GCM_MAX_INPUT && associated_data@.len() <= AES_GCM_MAX_INPUT
                        && #[trigger] sealed_with(
                        self.current_key@,
                        associated_data@,
                        q,
                        nonce_and_ciphertext@,
                    ) implies p@ == q by {
                    assert(seals_to(self.current_key@, nonce@, associated_data@, q, sealed@));
                }
                assert forall|j: int, q: Seq<u8>|
                    0 <= j < keys.len() && q.len() <= AES_GCM_MAX_INPUT && associated_data@.len()
                        <= AES_GCM_MAX_INPUT && #[trigger] sealed_with(
                        keys[j],
                        associated_data@,
                        q,
                        nonce_and_ciphertext@,
                    ) && none_opens_before(
                        keys,
                        j,
                        associated_data@,
                        nonce_and_ciphertext@,
                    ) implies p@ == q by {
                    if j == 0 {
                        assert(seals_to(self.current_key@, nonce@, associated_data@, q, sealed@));
                    } else {
                        assert(spec_aes_gcm_open(keys[0], nonce@, associated_data@, sealed@) is None);
                    }
                }
            }
            return Ok(p);
        }
        proof {
            assert(keys.drop_first() =~= key_views(self.past_keys@));
            assert(key_views(self.past_keys@).subrange(0, self.past_keys@.len() as int)
                =~= key_views(self.past_keys@));
            assert forall|q: Seq<u8>|
                !(q.len() <= AES_GCM_MAX_INPUT && associated_data@.len() <= AES_GCM_MAX_INPUT
                    && #[trigger] sealed_with(
                    self.current_key@,
                    associated_data@,
                    q,
                    nonce_and_ciphertext@,
                )) by {
                if q.len() <= AES_GCM_MAX_INPUT && associated_data@.len() <= AES_GCM_MAX_INPUT
                    && sealed_with(self.current_key@, associated_data@, q, nonce_and_ciphertext@) {
                    assert(seals_to(self.current_key@, nonce@, associated_data@, q, sealed@));
                }
            }
        }
        let mut k: usize = 0;
        while k < self.past_keys.len()
            invariant
                keys == self.keys(),
                k <= self.past_keys@.len(),
                first_opening(keys, nonce@, associated_data@, sealed@) == first_opening(
                    key_views(self.past_keys@).subrange(k as int, self.past_keys@.len() as int),
                    nonce@,
                    associated_data@,
                    sealed@,
                ),
                nonce@.len() == NONCE_LEN,
                n == nonce_and_ciphertext@.len(),
                NONCE_LEN <= n,
                nonce@ == nonce_and_ciphertext@.subrange(0, NONCE_LEN as int),
                sealed@ == nonce_and_ciphertext@.subrange(NONCE_LEN as int, n as int),
                forall|q: Seq<u8>|
                    !(q.len() <= AES_GCM_MAX_INPUT && associated_data@.len() <= AES_GCM_MAX_INPUT
                        && #[trigger] sealed_with(
                        self.current_key@,
                        associated_data@,
                        q,
                        nonce_and_ciphertext@,
                    )),
                forall|i: int, q: Seq<u8>|
                    0 <= i <= k ==> !#[trigger] seals_to(keys[i], nonce@, associated_data@, q, sealed@),
                forall|i: int| 0 <= i <= k ==> #[trigger] spec_aes_gcm_open(keys[i], nonce@, associated_data@, sealed@) is None,
            decreases self.past_keys@.len() - k,
        {
            let ghost rest = key_views(self.past_keys@).subrange(
                k as int,
                self.past_keys@.len() as int,
            );
            proof {
                assert(rest[0] == self.past_keys@[k as int]@);
                assert(rest.drop_first() =~= key_views(self.past_keys@).subrange(
                    k + 1,
                    self.past_keys@.len() as int,
                ));
            }
            let attempt = aes_gcm_open(
                &self.past_keys[k],
                nonce.as_slice(),
                associated_data,
                sealed.as_slice(),
            );
            proof {
                assert(keys[k + 1] == self.past_keys@[k as int]@);
            }
            if let Ok(p) = attempt {
                proof {
                    assert forall|j: int, q: Seq<u8>|
                        0 <= j < keys.len() && q.len() <= AES_GCM_MAX_INPUT && associated_data@.len()
                            <= AES_GCM_MAX_INPUT && #[trigger] sealed_with(
                            keys[j],
                            associated_data@,
                            q,
                            nonce_and_ciphertext@,
                        ) && none_opens_before(
                            keys,
                            j,
                            associated_data@,
                            nonce_and_ciphertext@,
                        ) implies p@ == q by {
                        assert(seals_to(keys[j], nonce@, associated_data@, q, sealed@));
                        if j > k + 1 {
                            assert(spec_aes_gcm_open(keys[k + 1], nonce@, associated_data@, sealed@)
                                is None);
                        }
                    }
                }
                return Ok(p);
            }
            k = k + 1;
        }
        proof {
            assert forall|j: int, q: Seq<u8>|
                0 <= j < keys.len() && q.len() <= AES_GCM_MAX_INPUT && associated_data@.len()
                    <= AES_GCM_MAX_INPUT && #[trigger] sealed_with(
                    keys[j],
                    associated_data@,
                    q,
                    nonce_and_ciphertext@,
                ) implies !none_opens_before(keys, j, associated_data@, nonce_and_ciphertext@) by {
                assert(seals_to(keys[j], nonce@, associated_data@, q, sealed@));
            }
        }
        Err(aead_error())
    }
}

} // verus!
