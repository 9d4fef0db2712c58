//! Bearer tokens: ES256-signed JSON Web Tokens bound to one method and one target.

use vstd::prelude::*;

verus! {

/// Who issues the tokens.
pub const ISSUER: &'static str = "cdp";

/// For how many seconds a token is valid from the moment it is issued.
pub const TOKEN_LIFETIME_SECS: u64 = 120;

/// The name of the claim that carries the method and the target.
pub const TARGET_CLAIM: &'static str = "uri";

/// How many bytes the scalar of a P-256 private key has.
pub const SCALAR_LEN: usize = 32;

/// The secret scalar, big endian, that the `elliptic_curve` crate reads from a PEM-encoded SEC1
/// private key on P-256; `None` where it rejects the text.
pub uninterp spec fn sec1_scalar(pem: Seq<char>) -> Option<Seq<u8>>;

/// `elliptic_curve::SecretKey::<p256::NistP256>::from_sec1_pem`, then `to_bytes`: the scalar that
/// [`sec1_scalar`] names for this text, which has 32 bytes, and nothing exactly where it names
/// none. The crate's error says no more than that it failed.
#[verifier::external_body]
fn read_sec1_pem(pem: &str) -> (r: Option<Vec<u8>>)
    ensures
        match r {
            Some(scalar) => sec1_scalar(pem@) == Some(scalar@) && scalar@.len() == SCALAR_LEN,
            None => sec1_scalar(pem@) is None,
        },
{
    let key = elliptic_curve::SecretKey::<p256::NistP256>::from_sec1_pem(pem).ok()?;
    Some(key.to_bytes().to_vec())
}

/// `jwt_simple`'s `create_nonce`, on claims made for the purpose: 24 random bytes in unpadded
/// URL-safe base64, so 32 characters. Nothing more is known of them.
#[verifier::external_body]
fn fresh_nonce() -> (r: String)
    ensures
        r@.len() == 32,
{
    jwt_simple::claims::Claims::create(coarsetime::Duration::from_secs(0)).create_nonce()
}

/// A character of the URL-safe base64 alphabet.
pub open spec fn is_base64url(c: char) -> bool {
    ('A' <= c <= 'Z') || ('a' <= c <= 'z') || ('0' <= c <= '9') || c == '-' || c == '_'
}

/// A part of a token: one character or more, all of the URL-safe base64 alphabet, so unpadded.
pub open spec fn is_segment(part: Seq<char>) -> bool {
    part.len() > 0 && forall|i: int| 0 <= i < part.len() ==> is_base64url(#[trigger] part[i])
}

/// Three parts with a dot between one and the next.
pub open spec fn joined(header: Seq<char>, payload: Seq<char>, signature: Seq<char>) -> Seq<char> {
    header + seq!['.'] + payload + seq!['.'] + signature
}

/// The compact form of a signed token: header, payload and signature, in this order and with a
/// dot between one and the next.
pub open spec fn compact_form(token: Seq<char>) -> bool {
    exists|header: Seq<char>, payload: Seq<char>, signature: Seq<char>|
        is_segment(header) && is_segment(payload) && is_segment(signature) && token
            == #[trigger] joined(header, payload, signature)
}

/// `jwt_simple`: an `ES256KeyPair` from the scalar, with `key_id`; claims valid for
/// `claims.expires_in` seconds from now, with the custom claim `claim` and the issuer, subject
/// and nonce of `claims`; then `sign`. The token depends on the clock and on the random numbers
/// that the signature draws, so of what it holds nothing is stated, only its form: `jwt_simple`
/// joins the header, the claims and the signature, each in unpadded URL-safe base64 and none
/// empty, with a dot between one and the next. An error comes as the text that `jwt_simple`'s
/// error displays.
#[verifier::external_body]
fn es256_token(scalar: &[u8], key_id: &str, claim: &str, claims: &Claims) -> (r: Result<
    String,
    String,
>)
    requires
        scalar@.len() == SCALAR_LEN,
        claims@.expires_in == TOKEN_LIFETIME_SECS,
    ensures
        r matches Ok(token) ==> compact_form(token@),
{
    let pair = jwt_simple::algorithms::ES256KeyPair::from_bytes(scalar).map_err(|e| e.to_string())?;
    let mut custom = serde_json::Map::new();
    custom.insert(claim.to_string(), serde_json::Value::String(claims.signed_uri.clone()));
    let lifetime = coarsetime::Duration::from_secs(claims.expires_in);
    let jwt = jwt_simple::claims::Claims::with_custom_claims(custom, lifetime)
        .with_issuer(&claims.issuer)
        .with_subject(&claims.subject)
        .with_nonce(&claims.nonce);
    let signed = jwt_simple::algorithms::ECDSAP256KeyPairLike::sign(&pair.with_key_id(key_id), jwt);
    signed.map_err(|e| e.to_string())
}

/// Why a private key could not be loaded.
#[derive(Debug, Clone, Copy, PartialEq, Eq, Structural)]
pub enum KeyError {
    /// The text is no PEM-encoded SEC1 private key on P-256.
    Unparsable,
}

/// Why no token was made.
#[derive(Debug)]
pub enum SignError {
    /// The private key could not be loaded.
    KeyLoad,
    /// The key pair could not be derived, or serialising or signing failed; with the cause in
    /// words.
    SigningFailed(String),
}

/// The secret scalar of a P-256 private key.
pub struct SigningKey {
    scalar: Vec<u8>,
}

impl View for SigningKey {
    type V = Seq<u8>;

    closed spec fn view(&self) -> Seq<u8> {
        self.scalar@
    }
}

impl SigningKey {
    #[verifier::type_invariant]
    spec fn well_formed(&self) -> bool {
        self.scalar@.len() == SCALAR_LEN
    }

    /// Loads the key from a PEM-encoded SEC1 private key.
    pub fn load(secret_pem: &str) -> (r: Result<SigningKey, KeyError>)
        ensures
            match sec1_scalar(secret_pem@) {
                Some(scalar) => r matches Ok(key) && key@ == scalar,
                None => r == Err::<SigningKey, KeyError>(KeyError::Unparsable),
            },
    {
        match read_sec1_pem(secret_pem) {
            Some(scalar) => Ok(SigningKey { scalar }),
            None => Err(KeyError::Unparsable),
        }
    }

    /// The scalar, big endian.
    pub fn to_bytes(&self) -> (r: &[u8])
        ensures
            r@ == self@,
            r@.len() == SCALAR_LEN,
    {
        proof {
            use_type_invariant(self);
        }
        self.scalar.as_slice()
    }
}

/// The method and the target that a token is bound to, as the claim states them.
pub open spec fn signed_uri_of(method: Seq<char>, target: Seq<char>) -> Seq<char> {
    method + " "@ + target
}

/// What the [`Claims`] of a token hold.
pub struct ClaimsView {
    pub signed_uri: Seq<char>,
    pub issuer: Seq<char>,
    pub subject: Seq<char>,
    pub expires_in: u64,
    pub nonce: Seq<char>,
}

impl ClaimsView {
    /// The claims of a token for `key_name` that is bound to `method` and `target` and carries
    /// `nonce`.
    pub open spec fn of(
        key_name: Seq<char>,
        method: Seq<char>,
        target: Seq<char>,
        nonce: Seq<char>,
    ) -> ClaimsView {
        ClaimsView {
            signed_uri: signed_uri_of(method, target),
            issuer: ISSUER@,
            subject: key_name,
            expires_in: TOKEN_LIFETIME_SECS,
            nonce,
        }
    }
}

/// The payload of a token.
#[derive(Debug)]
pub struct Claims {
    signed_uri: String,
    issuer: String,
    subject: String,
    expires_in: u64,
    nonce: String,
}

impl View for Claims {
    type V = ClaimsView;

    closed spec fn view(&self) -> ClaimsView {
        ClaimsView {
            signed_uri: self.signed_uri@,
            issuer: self.issuer@,
            subject: self.subject@,
            expires_in: self.expires_in,
            nonce: self.nonce@,
        }
    }
}

impl Claims {
    #[verifier::type_invariant]
    spec fn well_formed(&self) -> bool {
        self.expires_in == TOKEN_LIFETIME_SECS
    }

    /// The claims of a token for `key_name` that is bound to `method` and `target` and carries
    /// `nonce`.
    pub fn with_nonce(key_name: &str, method: &str, target: &str, nonce: String) -> (r: Claims)
        ensures
            r@ == ClaimsView::of(key_name@, method@, target@, nonce@),
    {
        Claims {
            signed_uri: method.to_owned().concat(" ").concat(target),
            issuer: ISSUER.to_owned(),
            subject: key_name.to_owned(),
            expires_in: TOKEN_LIFETIME_SECS,
            nonce,
        }
    }

    /// The claims of a token for `key_name` that is bound to `method` and `target`, with a nonce
    /// drawn for this call.
    pub fn build(key_name: &str, method: &str, target: &str) -> (r: Claims)
        ensures
            r@ == ClaimsView::of(key_name@, method@, target@, r@.nonce),
            r@.expires_in == TOKEN_LIFETIME_SECS,
    {
        Claims::with_nonce(key_name, method, target, fresh_nonce())
    }

    /// The method and the target, separated by a space.
    pub fn signed_uri(&self) -> (r: &str)
        ensures
            r@ == self@.signed_uri,
    {
        self.signed_uri.as_str()
    }

    /// Who issued the token.
    pub fn issuer(&self) -> (r: &str)
        ensures
            r@ == self@.issuer,
    {
        self.issuer.as_str()
    }

    /// The name of the key that signs the token.
    pub fn subject(&self) -> (r: &str)
        ensures
            r@ == self@.subject,
    {
        self.subject.as_str()
    }

    /// For how many seconds the token is valid.
    pub fn expires_in(&self) -> (r: u64)
        ensures
            r == self@.expires_in,
            r == TOKEN_LIFETIME_SECS,
    {
        proof {
            use_type_invariant(self);
        }
        self.expires_in
    }

    /// The value that makes the token single-use.
    pub fn nonce(&self) -> (r: &str)
        ensures
            r@ == self@.nonce,
    {
        self.nonce.as_str()
    }
}

/// What the caller of the signer gets for each outcome of the signing itself.
pub fn token_or_failure(outcome: Result<String, String>) -> (r: Result<
    String,
    SignError,
>)
    ensures
        match outcome {
            Ok(token) => r matches Ok(t) && t@ == token@,
            Err(cause) => r matches Err(SignError::SigningFailed(c)) && c@ == cause@,
        },
{
    match outcome {
        Ok(token) => Ok(token),
        Err(cause) => Err(SignError::SigningFailed(cause)),
    }
}

/// Signs a token for `key_name` that is bound to `method` and `target`. The token comes in
/// compact form; a failure is `SigningFailed`.
pub fn sign_with_key(key: &SigningKey, key_name: &str, method: &str, target: &str) -> (r: Result<
    String,
    SignError,
>)
    ensures
        r matches Ok(token) ==> compact_form(token@),
        r is Err ==> r->Err_0 is SigningFailed,
{
    let claims = Claims::build(key_name, method, target);
    proof {
        use_type_invariant(&claims);
    }
    token_or_failure(es256_token(key.to_bytes(), key_name, TARGET_CLAIM, &claims))
}

/// Loads the key from `secret_pem` and signs a token for `key_name` that is bound to `method`
/// and `target`. The token comes in compact form. A key that cannot be loaded gives `KeyLoad`;
/// with a key that can, a failure is `SigningFailed`.
pub fn sign(key_name: &str, secret_pem: &str, method: &str, target: &str) -> (r: Result<
    String,
    SignError,
>)
    ensures
        r matches Ok(token) ==> compact_form(token@),
        sec1_scalar(secret_pem@) is None <==> r matches Err(SignError::KeyLoad),
        r is Err && sec1_scalar(secret_pem@) is Some ==> r->Err_0 is SigningFailed,
{
    match SigningKey::load(secret_pem) {
        Ok(key) => sign_with_key(&key, key_name, method, target),
        Err(_) => Err(SignError::KeyLoad),
    }
}

} // verus!
