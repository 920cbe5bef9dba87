use base64::Engine;
use onvif_ptz::wsse::{create_wsse_token, wsse_token_with};
use sha1::{Digest, Sha1};

fn fixed_nonce() -> Vec<u8> {
    vec![0, 1, 2, 3, 4, 5, 6, 7, 8, 9, 10, 11, 12, 13, 14, 15]
}

const CREATED: &str = "2024-05-01T12:00:00.000Z";

#[test]
fn token_deterministic_with_fixed_inputs() {
    let a = wsse_token_with("admin", "secret", &fixed_nonce(), CREATED);
    let b = wsse_token_with("admin", "secret", &fixed_nonce(), CREATED);
    assert_eq!(a, b);
}

#[test]
fn token_digest_matches_sha1_of_nonce_created_password() {
    let nonce = fixed_nonce();
    let token = wsse_token_with("admin", "secret", &nonce, CREATED);

    let digest = Sha1::new()
        .chain_update(nonce.as_slice())
        .chain_update(CREATED.as_bytes())
        .chain_update("secret".as_bytes())
        .finalize();
    let digest_b64 = base64::prelude::BASE64_STANDARD.encode(digest.as_slice());
    let nonce_b64 = base64::prelude::BASE64_STANDARD.encode(nonce.as_slice());

    let want_password = format!(
        "<wsse:Password Type=\"http://docs.oasis-open.org/wss/2004/01/oasis-200401-wss-username-token-profile-1.0#PasswordDigest\">{}</wsse:Password>",
        digest_b64
    );
    assert!(token.contains(&want_password));
    assert!(token.contains(&format!("<wsse:Nonce>{}</wsse:Nonce>", nonce_b64)));
    assert!(token.contains(&format!("<wsu:Created>{}</wsu:Created>", CREATED)));
    assert!(token.contains("<wsse:Username>admin</wsse:Username>"));
}

#[test]
fn token_differs_when_any_input_changes() {
    let base = wsse_token_with("admin", "secret", &fixed_nonce(), CREATED);
    let other_user = wsse_token_with("admin2", "secret", &fixed_nonce(), CREATED);
    let other_password = wsse_token_with("admin", "secret2", &fixed_nonce(), CREATED);
    let mut nonce = fixed_nonce();
    nonce[0] = 255;
    let other_nonce = wsse_token_with("admin", "secret", &nonce, CREATED);
    let other_created = wsse_token_with("admin", "secret", &fixed_nonce(), "2024-05-01T12:00:00.001Z");
    assert_ne!(base, other_user);
    assert_ne!(base, other_password);
    assert_ne!(base, other_nonce);
    assert_ne!(base, other_created);
}

#[test]
fn token_element_order_username_password_nonce_created() {
    let token = wsse_token_with("admin", "secret", &fixed_nonce(), CREATED);
    let username = token.find("<wsse:Username>").unwrap();
    let password = token.find("<wsse:Password ").unwrap();
    let nonce = token.find("<wsse:Nonce>").unwrap();
    let created = token.find("<wsu:Created>").unwrap();
    assert!(username < password);
    assert!(password < nonce);
    assert!(nonce < created);
}

#[test]
fn create_wsse_token_structure() {
    let token = create_wsse_token("admin", "secret");
    assert!(token.contains("<wsse:Security"));
    assert!(token.contains("<wsse:UsernameToken>"));
    assert!(token.contains("<wsse:Username>admin</wsse:Username>"));
    assert!(token.contains("PasswordDigest"));
    assert!(token.contains("</wsse:Security>"));
}

#[test]
fn create_wsse_token_fresh_nonce_each_call() {
    let a = create_wsse_token("admin", "secret");
    let b = create_wsse_token("admin", "secret");
    let nonce_of = |t: &str| {
        let start = t.find("<wsse:Nonce>").unwrap() + "<wsse:Nonce>".len();
        let end = t.find("</wsse:Nonce>").unwrap();
        t[start..end].to_string()
    };
    assert_ne!(nonce_of(&a), nonce_of(&b));
}
