use sha2::Digest;
use divviup_api::{
    decode_token, encode_token, token_hash_matches, token_lookup, ApiToken, ConfigError, Crypter,
    CrypterParseError, SessionSecrets, SessionSecretsDecodeError, UpdateApiToken,
};

const KEY_A: &str = "AAECAwQFBgcICQoLDA0ODw"; // bytes 0..16
const KEY_B: &str = "EBESExQVFhcYGRobHB0eHw"; // bytes 16..32

#[test]
fn crypter_reads_keys_in_order() {
    let crypter = Crypter::from_str(&format!("{KEY_A},{KEY_B}")).unwrap();
    assert_eq!(crypter.past_key_count(), 1);
    let first: [u8; 16] = std::array::from_fn(|i| i as u8);
    let second: [u8; 16] = std::array::from_fn(|i| 16 + i as u8);
    let sealed = crypter.encrypt(b"aad", b"text").unwrap();
    assert_eq!(Crypter::from_key(first).decrypt(b"aad", &sealed).unwrap(), b"text".to_vec());
    let by_second = Crypter::from_key(second).encrypt(b"aad", b"old").unwrap();
    assert_eq!(crypter.decrypt(b"aad", &by_second).unwrap(), b"old".to_vec());
}

#[test]
fn crypter_refuses_bad_keys() {
    assert!(matches!(Crypter::from_str("not base64!"), Err(CrypterParseError::Base64(_))));
    assert!(matches!(Crypter::from_str("AAAA"), Err(CrypterParseError::IncorrectLength)));
    assert!(matches!(Crypter::from_str(""), Err(CrypterParseError::IncorrectLength)));
    assert!(matches!(
        Crypter::from_str(&format!("{KEY_A},AAAA")),
        Err(CrypterParseError::IncorrectLength)
    ));
}

#[test]
fn decrypt_gives_back_what_encrypt_sealed() {
    let crypter = Crypter::from_key([7; 16]);
    let sealed = crypter.encrypt(b"https://example.com/", b"secret token").unwrap();
    assert_eq!(sealed.len(), 12 + 12 + 16);
    assert_eq!(
        crypter.decrypt(b"https://example.com/", &sealed).unwrap(),
        b"secret token".to_vec()
    );
    assert!(crypter.decrypt(b"https://other.example/", &sealed).is_err());
    assert!(crypter.decrypt(b"", &sealed[..5]).is_err());
}

#[test]
fn past_keys_still_open() {
    let old = Crypter::from_key([1; 16]);
    let sealed = old.encrypt(b"aad", b"plaintext").unwrap();
    let rotated = Crypter::new([2; 16], vec![[1; 16]]);
    assert_eq!(rotated.decrypt(b"aad", &sealed).unwrap(), b"plaintext".to_vec());
    let forgotten = Crypter::new([2; 16], vec![]);
    assert!(forgotten.decrypt(b"aad", &sealed).is_err());
}

#[test]
fn generated_keys_encrypt() {
    let crypter = Crypter::from_key(Crypter::generate_key());
    let sealed = crypter.encrypt(b"", b"x").unwrap();
    assert_eq!(crypter.decrypt(b"", &sealed).unwrap(), b"x".to_vec());
}

#[test]
fn api_token_text_round_trips() {
    let secret = [9u8; 32];
    let text = encode_token(0x0123_4567_89ab_cdef_0011_2233_4455_6677, &secret);
    assert!(text.starts_with("DUAT"));
    let (id, decoded) = decode_token(&text).unwrap();
    assert_eq!(id, 0x0123_4567_89ab_cdef_0011_2233_4455_6677);
    assert_eq!(decoded, secret.to_vec());
    assert!(decode_token("XXXX").is_none());
    assert!(decode_token("DUATnot-base64!").is_none());
    assert!(decode_token("DUATAAAA").is_none());
}

#[test]
fn issued_api_tokens_check_against_their_hash() {
    let (record, text) = ApiToken::build(42);
    assert_eq!(record.account_id, 42);
    assert!(!record.is_tombstoned());
    let (id, hash) = token_lookup(&text).unwrap();
    assert_eq!(id, record.id);
    assert!(token_hash_matches(&record.token_hash, &hash));
    let (_, other_text) = ApiToken::build(42);
    let (_, other_hash) = token_lookup(&other_text).unwrap();
    assert!(!token_hash_matches(&record.token_hash, &other_hash));
    let used = record.mark_last_used();
    assert!(used.last_used_at.is_some());
    assert!(used.tombstone().is_tombstoned());
}

#[test]
fn empty_api_token_names_are_cleared() {
    let (record, _) = ApiToken::build(1);
    let named = UpdateApiToken { name: Some("ci".into()) }.build(record);
    assert_eq!(named.name.as_deref(), Some("ci"));
    let cleared = UpdateApiToken { name: Some(String::new()) }.build(named);
    assert_eq!(cleared.name, None);
}

#[test]
fn session_secrets_are_read() {
    let long_a = "A".repeat(43); // 32 bytes
    let long_b = format!("{}A", "B".repeat(42));
    let secrets = SessionSecrets::from_str(&format!("{long_a},{long_b}")).unwrap();
    assert_eq!(secrets.current, vec![0; 32]);
    assert_eq!(secrets.older.len(), 1);
    assert!(matches!(
        SessionSecrets::from_str("AAAA"),
        Err(SessionSecretsDecodeError::TooShort)
    ));
    assert!(matches!(
        SessionSecrets::from_str("not base64!"),
        Err(SessionSecretsDecodeError::Base64)
    ));
    assert!(matches!(
        SessionSecrets::from_str(&format!("{long_a},")),
        Err(SessionSecretsDecodeError::TooShort)
    ));
    assert_eq!(SessionSecrets::from_current(vec![1, 2]).current, vec![1, 2]);
}

#[test]
fn optional_settings_fall_back_to_their_default() {
    assert!(matches!(
        divviup_api::var_optional(Err(ConfigError::MissingEnvVar("X")), 5),
        Ok(5)
    ));
    assert!(matches!(divviup_api::var_optional(Ok(7), 5), Ok(7)));
    assert!(matches!(
        divviup_api::var_optional::<u8>(Err(ConfigError::NotUnicode("X")), 5),
        Err(ConfigError::NotUnicode("X"))
    ));
}

#[test]
fn token_hashes_are_sha256_digests() {
    let secret = [9u8; 32];
    let text = encode_token(5, &secret);
    let (_, hash) = token_lookup(&text).unwrap();
    assert_eq!(hash, sha2::Sha256::digest(secret).to_vec());
}
