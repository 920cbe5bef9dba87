//! WS-Security UsernameToken header fragments in the PasswordDigest
//! scheme: `digest = SHA1(nonce || created || password)`, with the nonce
//! and the digest base64-encoded, and the element order Username,
//! Password, Nonce, Created preserved.

use sha1::Digest;
use vstd::prelude::*;
use vstd::string::StringExecFns;

verus! {

/// The SHA-1 digest of nonce bytes, then the created timestamp's bytes,
/// then the password's bytes, concatenated raw; a function of those
/// inputs alone.
pub uninterp spec fn wsse_digest_of(nonce: Seq<u8>, created: Seq<char>, password: Seq<char>) -> Seq<
    u8,
>;

/// The standard padded base64 encoding of the bytes; a function of the
/// bytes alone.
pub uninterp spec fn base64_of(bytes: Seq<u8>) -> Seq<char>;

/// Relies on sha1::Sha1 through the Digest trait (new, chain_update,
/// finalize): the 20-byte SHA-1 digest of the three inputs' bytes in
/// order, depending on nothing else.
#[verifier::external_body]
fn sha1_wsse_digest(nonce: &Vec<u8>, created: &str, password: &str) -> (r: Vec<u8>)
    ensures
        r@ == wsse_digest_of(nonce@, created@, password@),
        r@.len() == 20,
{
    let digest = sha1::Sha1::new()
        .chain_update(nonce.as_slice())
        .chain_update(created.as_bytes())
        .chain_update(password.as_bytes())
        .finalize();
    digest.as_slice().to_vec()
}

/// Relies on base64's BASE64_STANDARD engine: the padded standard base64
/// encoding of the bytes, depending on the bytes alone.
#[verifier::external_body]
fn base64_encode(bytes: &Vec<u8>) -> (r: String)
    ensures
        r@ == base64_of(bytes@),
{
    base64::Engine::encode(&base64::prelude::BASE64_STANDARD, bytes.as_slice())
}

/// Relies on rand::random for 16 cryptographically random bytes; nothing
/// is promised of their values.
#[verifier::external_body]
fn random_nonce() -> (r: Vec<u8>)
    ensures
        r@.len() == 16,
{
    rand::random::<[u8; 16]>().to_vec()
}

/// Relies on chrono's Utc::now and its format method for the current UTC
/// instant with millisecond precision and a trailing Z; the value depends
/// on the clock, so nothing is promised of it.
#[verifier::external_body]
fn utc_now_formatted() -> (r: String) {
    chrono::Utc::now().format("%Y-%m-%dT%H:%M:%S%.3fZ").to_string()
}

/// The whole UsernameToken fragment as a function of the four inputs.
pub open spec fn spec_wsse_token(
    username: Seq<char>,
    password: Seq<char>,
    nonce: Seq<u8>,
    created: Seq<char>,
) -> Seq<char> {
    "\n        <wsse:Security\n            xmlns:wsse=\"http://docs.oasis-open.org/wss/2004/01/oasis-200401-wss-wssecurity-secext-1.0.xsd\"\n            xmlns:wsu=\"http://docs.oasis-open.org/wss/2004/01/oasis-200401-wss-wssecurity-utility-1.0.xsd\">\n            <wsse:UsernameToken>\n                <wsse:Username>"@
        + username
        + "</wsse:Username>\n                <wsse:Password Type=\"http://docs.oasis-open.org/wss/2004/01/oasis-200401-wss-username-token-profile-1.0#PasswordDigest\">"@
        + base64_of(wsse_digest_of(nonce, created, password))
        + "</wsse:Password>\n                <wsse:Nonce>"@
        + base64_of(nonce)
        + "</wsse:Nonce>\n                <wsu:Created>"@
        + created
        + "</wsu:Created>\n            </wsse:UsernameToken>\n        </wsse:Security>\n        "@
}

/// Builds the UsernameToken fragment from the given nonce and timestamp,
/// so a caller (and a test) can fix both and obtain the exact output.
pub fn wsse_token_with(username: &str, password: &str, nonce: &Vec<u8>, created: &str) -> (r:
    String)
    ensures
        r@ == spec_wsse_token(username@, password@, nonce@, created@),
{
    let digest = sha1_wsse_digest(nonce, created, password);
    let digest_b64 = base64_encode(&digest);
    let nonce_b64 = base64_encode(nonce);
    let mut r: String =
        "\n        <wsse:Security\n            xmlns:wsse=\"http://docs.oasis-open.org/wss/2004/01/oasis-200401-wss-wssecurity-secext-1.0.xsd\"\n            xmlns:wsu=\"http://docs.oasis-open.org/wss/2004/01/oasis-200401-wss-wssecurity-utility-1.0.xsd\">\n            <wsse:UsernameToken>\n                <wsse:Username>".to_owned();
    r.append(username);
    r.append(
        "</wsse:Username>\n                <wsse:Password Type=\"http://docs.oasis-open.org/wss/2004/01/oasis-200401-wss-username-token-profile-1.0#PasswordDigest\">",
    );
    r.append(digest_b64.as_str());
    r.append("</wsse:Password>\n                <wsse:Nonce>");
    r.append(nonce_b64.as_str());
    r.append("</wsse:Nonce>\n                <wsu:Created>");
    r.append(created);
    r.append("</wsu:Created>\n            </wsse:UsernameToken>\n        </wsse:Security>\n        ");
    r
}

/// Builds a UsernameToken fragment from a fresh 16-byte random nonce and
/// the current UTC time: the result is the exact token for some such
/// nonce and timestamp.
pub fn create_wsse_token(username: &str, password: &str) -> (r: String)
    ensures
        exists|nonce: Seq<u8>, created: Seq<char>|
            nonce.len() == 16 && r@ == spec_wsse_token(username@, password@, nonce, created),
{
    let nonce = random_nonce();
    let created = utc_now_formatted();
    let r = wsse_token_with(username, password, &nonce, created.as_str());
    proof {
        assert(nonce@.len() == 16 && r@ == spec_wsse_token(
            username@,
            password@,
            nonce@,
            created@,
        ));
    }
    r
}

/// A token is never the empty string, whatever the inputs.
pub proof fn lemma_token_nonempty(
    username: Seq<char>,
    password: Seq<char>,
    nonce: Seq<u8>,
    created: Seq<char>,
)
    ensures
        spec_wsse_token(username, password, nonce, created).len() > 0,
{
    reveal_strlit(
        "\n        <wsse:Security\n            xmlns:wsse=\"http://docs.oasis-open.org/wss/2004/01/oasis-200401-wss-wssecurity-secext-1.0.xsd\"\n            xmlns:wsu=\"http://docs.oasis-open.org/wss/2004/01/oasis-200401-wss-wssecurity-utility-1.0.xsd\">\n            <wsse:UsernameToken>\n                <wsse:Username>",
    );
}

/// Law: the digest, and with it the whole token, is deterministic —
/// equal username, password, nonce and timestamp give the equal digest
/// and the equal token. (That different inputs give different digests is
/// delegated to SHA-1 and not stated.)
pub proof fn lemma_token_deterministic(
    username1: Seq<char>,
    password1: Seq<char>,
    nonce1: Seq<u8>,
    created1: Seq<char>,
    username2: Seq<char>,
    password2: Seq<char>,
    nonce2: Seq<u8>,
    created2: Seq<char>,
)
    requires
        username1 == username2,
        password1 == password2,
        nonce1 == nonce2,
        created1 == created2,
    ensures
        wsse_digest_of(nonce1, created1, password1) == wsse_digest_of(
            nonce2,
            created2,
            password2,
        ),
        spec_wsse_token(username1, password1, nonce1, created1) == spec_wsse_token(
            username2,
            password2,
            nonce2,
            created2,
        ),
{
}

} // verus!
