use bitmax::auth::{prehash_text, sign, BitMaxClient};
use bitmax::error::ClientError;

#[test]
fn prehash_drops_leading_slash() {
    assert_eq!(prehash_text("/info", 1600000000000), "1600000000000+info");
    assert_eq!(prehash_text("info", -5), "-5+info");
    assert_eq!(prehash_text("", 0), "0+");
}

#[test]
fn sign_matches_hmac_sha256_vector() {
    assert_eq!(sign(b"secret", "/info", 1600000000000), "CRpWUN2FQJiXonE1X7R4hd/YmWyEhc/Vo8sf/OWAOX4=");
}

#[test]
fn sign_is_deterministic_and_input_sensitive() {
    let base = sign(b"secret", "/info", 1600000000000);
    assert_eq!(base, sign(b"secret", "/info", 1600000000000));
    assert_eq!(sign(b"secret", "/info", 1600000000001), "KjXjOkYuMzRKScQyHvSySicBx9kOGzMJsiJjkAyw8kY=");
    assert_eq!(sign(b"secret", "/balance", 1600000000000), "jK60w7RU1SUcIBKT/tKevV3mGbom+yDTZSPS9LFAiq4=");
    assert_eq!(sign(b"other", "/info", 1600000000000), "W3QBar29VnPeDE2qCI+ebnpovudNaYy57uBnT7yN52k=");
    assert_ne!(base, sign(b"secret", "/info", 1600000000001));
}

#[test]
fn with_auth_decodes_private_key() {
    let c = BitMaxClient::with_auth("pub", "c2VjcmV0", Some(3)).unwrap();
    let a = c.auth.unwrap();
    assert_eq!(a.public_key, "pub");
    assert_eq!(a.private_key_bytes, b"secret".to_vec());
    assert_eq!(a.account_group, Some(3));
}

#[test]
fn with_auth_rejects_invalid_base64() {
    assert!(matches!(BitMaxClient::with_auth("pub", "not base64!", None), Err(ClientError::InvalidPrivateKey)));
}

#[test]
fn set_account_group_needs_credentials() {
    let mut c = BitMaxClient::new();
    assert!(matches!(c.set_account_group(5), Err(ClientError::MissingAuth)));
    let mut c = BitMaxClient::with_auth("pub", "c2VjcmV0", None).unwrap();
    assert!(c.set_account_group(5).is_ok());
    assert_eq!(c.auth.unwrap().account_group, Some(5));
}

#[test]
fn attach_auth_headers_appends_three_headers() {
    let c = BitMaxClient::with_auth("pub", "c2VjcmV0", None).unwrap();
    let mut h = vec![("user-agent".to_string(), "bitmax-rs".to_string())];
    c.attach_auth_headers(&mut h, "/info", 1600000000000).unwrap();
    assert_eq!(h.len(), 4);
    assert_eq!(h[1], ("x-auth-key".to_string(), "pub".to_string()));
    assert_eq!(h[2], ("x-auth-timestamp".to_string(), "1600000000000".to_string()));
    assert_eq!(h[3], ("x-auth-signature".to_string(), "CRpWUN2FQJiXonE1X7R4hd/YmWyEhc/Vo8sf/OWAOX4=".to_string()));
    let mut h2: Vec<(String, String)> = vec![];
    assert!(matches!(BitMaxClient::new().attach_auth_headers(&mut h2, "/info", 1), Err(ClientError::MissingAuth)));
    assert!(h2.is_empty());
}
