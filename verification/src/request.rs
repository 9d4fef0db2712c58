//! Building requests, and signing them where credentials are attached.

use crate::headers::Headers;
use crate::signer::{sec1_scalar, sign, SignError};
use crate::uri::{text_of, Uri, UriView};
use vstd::prelude::*;
use vstd::slice::slice_to_vec;

verus! {

/// How the client names itself to the server.
pub const USER_AGENT: &'static str = "coinbase-rs/0.3.0";

/// The content type that a signed request declares.
pub const CONTENT_TYPE: &'static str = "text/plain; charset=utf-8";

/// The kind of a failure to build a request.
#[derive(Clone, Copy, Debug, PartialEq, Eq, Structural)]
pub enum ErrorKind {
    /// The URI has no host or no path, so there is nothing to bind a token to.
    MissingAuthority,
    /// The private key could not be loaded.
    KeyLoad,
    /// Signing the token failed.
    SigningFailed,
}

/// Why a request could not be built.
#[derive(Debug)]
pub struct Error {
    pub kind: ErrorKind,
    /// What the signer reported, where signing failed.
    pub cause: Option<String>,
}

impl Error {
    /// The failure to build a request that a failure to sign amounts to.
    pub fn from_sign(error: SignError) -> (r: Error)
        ensures
            match error {
                SignError::KeyLoad => r.kind == ErrorKind::KeyLoad && r.cause is None,
                SignError::SigningFailed(cause) => r.kind == ErrorKind::SigningFailed
                    && text_of(r.cause) == Some(cause@),
            },
    {
        match error {
            SignError::KeyLoad => Error { kind: ErrorKind::KeyLoad, cause: None },
            SignError::SigningFailed(cause) => Error {
                kind: ErrorKind::SigningFailed,
                cause: Some(cause),
            },
        }
    }
}

/// A request method.
#[derive(Clone, Copy, Debug, PartialEq, Eq, Structural)]
pub enum Method {
    Get,
    Post,
    Put,
    Delete,
    Head,
    Options,
    Connect,
    Patch,
    Trace,
}

impl Method {
    /// The name of the method as it stands in a request line.
    pub open spec fn name(self) -> Seq<char> {
        match self {
            Method::Get => "GET"@,
            Method::Post => "POST"@,
            Method::Put => "PUT"@,
            Method::Delete => "DELETE"@,
            Method::Head => "HEAD"@,
            Method::Options => "OPTIONS"@,
            Method::Connect => "CONNECT"@,
            Method::Patch => "PATCH"@,
            Method::Trace => "TRACE"@,
        }
    }

    /// The name of the method as it stands in a request line.
    pub fn as_str(&self) -> (r: &'static str)
        ensures
            r@ == self.name(),
    {
        match self {
            Method::Get => "GET",
            Method::Post => "POST",
            Method::Put => "PUT",
            Method::Delete => "DELETE",
            Method::Head => "HEAD",
            Method::Options => "OPTIONS",
            Method::Connect => "CONNECT",
            Method::Patch => "PATCH",
            Method::Trace => "TRACE",
        }
    }
}

impl Default for Method {
    fn default() -> (r: Method)
        ensures
            r == Method::Get,
    {
        Method::Get
    }
}

/// A protocol version.
#[derive(Clone, Copy, Debug, PartialEq, Eq, Structural)]
pub enum Version {
    Http09,
    Http10,
    Http11,
    Http2,
    Http3,
}

impl Default for Version {
    fn default() -> (r: Version)
        ensures
            r == Version::Http11,
    {
        Version::Http11
    }
}

/// The head of a request.
#[derive(Debug)]
pub struct Parts {
    /// The request's method
    pub method: Method,
    /// The request's URI
    pub uri: Uri,
    /// The request's version
    pub version: Version,
    /// The request's headers
    pub headers: Headers,
}

impl Default for Parts {
    fn default() -> (r: Parts)
        ensures
            r.method == Method::Get,
            r.uri@ == UriView::root(),
            r.version == Version::Http11,
            r.headers@ == Map::<Seq<char>, Seq<char>>::empty(),
    {
        Parts {
            method: Method::Get,
            uri: Uri::root(),
            version: Version::Http11,
            headers: Headers::new(),
        }
    }
}

impl Clone for Parts {
    fn clone(&self) -> (r: Parts)
        ensures
            r.method == self.method,
            r.uri@ == self.uri@,
            r.version == self.version,
            r.headers@ == self.headers@,
    {
        Parts {
            method: self.method,
            uri: self.uri.clone(),
            version: self.version,
            headers: self.headers.clone(),
        }
    }
}

/// What a [`Request`] holds.
pub struct RequestView {
    pub method: Method,
    pub uri: UriView,
    pub version: Version,
    pub headers: Map<Seq<char>, Seq<char>>,
    pub body: Seq<u8>,
}

/// A request that is ready to be sent.
#[derive(Debug)]
pub struct Request {
    method: Method,
    uri: Uri,
    version: Version,
    headers: Headers,
    body: Vec<u8>,
}

impl View for Request {
    type V = RequestView;

    closed spec fn view(&self) -> RequestView {
        RequestView {
            method: self.method,
            uri: self.uri@,
            version: self.version,
            headers: self.headers@,
            body: self.body@,
        }
    }
}

impl Request {
    /// The method.
    pub fn method(&self) -> (r: Method)
        ensures
            r == self@.method,
    {
        self.method
    }

    /// The URI.
    pub fn uri(&self) -> (r: &Uri)
        ensures
            r@ == self@.uri,
    {
        &self.uri
    }

    /// The protocol version.
    pub fn version(&self) -> (r: Version)
        ensures
            r == self@.version,
    {
        self.version
    }

    /// The header fields.
    pub fn headers(&self) -> (r: &Headers)
        ensures
            r@ == self@.headers,
    {
        &self.headers
    }

    /// The body.
    pub fn body(&self) -> (r: &[u8])
        ensures
            r@ == self@.body,
    {
        self.body.as_slice()
    }
}

/// The header fields of a signed request: those set before, and on top of them the three that
/// signing sets.
pub open spec fn signed_headers(headers: Map<Seq<char>, Seq<char>>, token: Seq<char>) -> Map<
    Seq<char>,
    Seq<char>,
> {
    headers.insert("User-Agent"@, USER_AGENT@).insert("Content-Type"@, CONTENT_TYPE@).insert(
        "Authorization"@,
        "Bearer "@ + token,
    )
}

/// Signing sets its three header fields and leaves every other field as it was.
pub proof fn lemma_signing_keeps_other_headers(
    headers: Map<Seq<char>, Seq<char>>,
    token: Seq<char>,
    name: Seq<char>,
)
    requires
        name != "Authorization"@,
        name != "User-Agent"@,
        name != "Content-Type"@,
    ensures
        signed_headers(headers, token).contains_key(name) == headers.contains_key(name),
        headers.contains_key(name) ==> signed_headers(headers, token)[name] == headers[name],
{
}

/// A signed request carries the token as a bearer credential, names the client, and declares
/// its content type, whatever the header fields were before.
pub proof fn lemma_signing_sets_three_headers(headers: Map<Seq<char>, Seq<char>>, token: Seq<char>)
    ensures
        signed_headers(headers, token).contains_key("Authorization"@),
        signed_headers(headers, token)["Authorization"@] == "Bearer "@ + token,
        signed_headers(headers, token).contains_key("User-Agent"@),
        signed_headers(headers, token)["User-Agent"@] == USER_AGENT@,
        signed_headers(headers, token).contains_key("Content-Type"@),
        signed_headers(headers, token)["Content-Type"@] == CONTENT_TYPE@,
{
    reveal_strlit("Authorization");
    reveal_strlit("User-Agent");
    reveal_strlit("Content-Type");
    assert("Authorization"@[0] != "User-Agent"@[0]);
    assert("Authorization"@[0] != "Content-Type"@[0]);
    assert("User-Agent"@[0] != "Content-Type"@[0]);
}

/// What a [`Builder`] holds.
pub struct BuilderView {
    /// The name of the key and the PEM text of the key, where the requests are to be signed.
    pub auth: Option<(Seq<char>, Seq<char>)>,
    pub method: Method,
    pub uri: UriView,
    pub version: Version,
    pub headers: Map<Seq<char>, Seq<char>>,
    pub body: Seq<u8>,
}

impl BuilderView {
    /// A builder as it starts out.
    pub open spec fn start(auth: Option<(Seq<char>, Seq<char>)>) -> BuilderView {
        BuilderView {
            auth,
            method: Method::Get,
            uri: UriView::root(),
            version: Version::Http11,
            headers: Map::empty(),
            body: Seq::empty(),
        }
    }

    /// The request with what the builder holds, but with the header fields `headers`.
    pub open spec fn request(self, headers: Map<Seq<char>, Seq<char>>) -> RequestView {
        RequestView {
            method: self.method,
            uri: self.uri,
            version: self.version,
            headers,
            body: self.body,
        }
    }

    /// The text that a token for this request is bound to: the host and the path with query.
    pub open spec fn target(self) -> Option<Seq<char>> {
        self.uri.target()
    }

    /// Whether building from this builder can end in `outcome`: a request, or the kind of the
    /// failure. Without credentials there is one outcome. With them, the outcome is fixed but
    /// for the token, and but for whether signing with a key that loads succeeds.
    pub open spec fn builds(self, outcome: Result<RequestView, ErrorKind>) -> bool {
        match self.auth {
            None => outcome == Ok::<RequestView, ErrorKind>(self.request(self.headers)),
            Some((key, secret)) => match self.target() {
                None => outcome == Err::<RequestView, ErrorKind>(ErrorKind::MissingAuthority),
                Some(target) => match outcome {
                    Ok(request) => sec1_scalar(secret) is Some && exists|token: Seq<char>|
                        request == self.request(#[trigger] signed_headers(self.headers, token)),
                    Err(kind) => (kind == ErrorKind::KeyLoad <==> sec1_scalar(secret) is None)
                        && (kind == ErrorKind::KeyLoad || kind == ErrorKind::SigningFailed),
                },
            },
        }
    }
}

/// The outcome of building a request, as [`BuilderView::builds`] takes it.
pub open spec fn outcome_of(r: Result<Request, Error>) -> Result<RequestView, ErrorKind> {
    match r {
        Ok(request) => Ok(request@),
        Err(error) => Err(error.kind),
    }
}

/// Collects the parts of a request. Each setter takes the builder and gives back the changed
/// one.
#[derive(Debug)]
pub struct Builder {
    auth: Option<(String, String)>,
    parts: Parts,
    body: Vec<u8>,
}

impl View for Builder {
    type V = BuilderView;

    closed spec fn view(&self) -> BuilderView {
        BuilderView {
            auth: match self.auth {
                Some((key, secret)) => Some((key@, secret@)),
                None => None,
            },
            method: self.parts.method,
            uri: self.parts.uri@,
            version: self.parts.version,
            headers: self.parts.headers@,
            body: self.body@,
        }
    }
}

impl Default for Builder {
    fn default() -> (r: Builder)
        ensures
            r@ == BuilderView::start(None),
    {
        Builder::new()
    }
}

impl Clone for Builder {
    fn clone(&self) -> (r: Builder)
        ensures
            r@ == self@,
    {
        Builder {
            auth: match &self.auth {
                Some((key, secret)) => Some((key.clone(), secret.clone())),
                None => None,
            },
            parts: self.parts.clone(),
            body: slice_to_vec(self.body.as_slice()),
        }
    }
}

impl Builder {
    /// A builder for requests that are not signed: `GET /`, no header fields, an empty body.
    pub fn new() -> (r: Builder)
        ensures
            r@ == BuilderView::start(None),
    {
        Builder {
            auth: None,
            parts: Parts {
                method: Method::Get,
                uri: Uri::root(),
                version: Version::Http11,
                headers: Headers::new(),
            },
            body: Vec::new(),
        }
    }

    /// A builder for requests that are signed with the key `secret`, a PEM-encoded SEC1 private
    /// key named `key`.
    pub fn new_with_auth(key: &str, secret: &str) -> (r: Builder)
        ensures
            r@ == BuilderView::start(Some((key@, secret@))),
    {
        Builder {
            auth: Some((key.to_owned(), secret.to_owned())),
            parts: Parts {
                method: Method::Get,
                uri: Uri::root(),
                version: Version::Http11,
                headers: Headers::new(),
            },
            body: Vec::new(),
        }
    }

    /// Sets the method.
    pub fn method(self, method: Method) -> (r: Builder)
        ensures
            r@ == (BuilderView { method, ..self@ }),
    {
        let mut _self = self;
        _self.parts.method = method;
        _self
    }

    /// Sets the URI.
    pub fn uri(self, uri: Uri) -> (r: Builder)
        ensures
            r@ == (BuilderView { uri: uri@, ..self@ }),
    {
        let mut _self = self;
        _self.parts.uri = uri;
        _self
    }

    /// Sets the protocol version.
    pub fn version(self, version: Version) -> (r: Builder)
        ensures
            r@ == (BuilderView { version, ..self@ }),
    {
        let mut _self = self;
        _self.parts.version = version;
        _self
    }

    /// Sets the header field `key` to `value`, in place of a value that it had.
    pub fn header(self, key: &str, value: &str) -> (r: Builder)
        ensures
            r@ == (BuilderView { headers: self@.headers.insert(key@, value@), ..self@ }),
    {
        let Builder { auth, parts, body } = self;
        let Parts { method, uri, version, headers } = parts;
        Builder {
            auth,
            parts: Parts { method, uri, version, headers: headers.insert(key, value) },
            body,
        }
    }

    /// Sets the body.
    pub fn body(self, body: &[u8]) -> (r: Builder)
        ensures
            r@ == (BuilderView { body: body@, ..self@ }),
    {
        let mut _self = self;
        _self.body = slice_to_vec(body);
        _self
    }

    /// Sets the three header fields of a signed request that carries `token`.
    pub fn with_token(self, token: &str) -> (r: Builder)
        ensures
            r@ == (BuilderView { headers: signed_headers(self@.headers, token@), ..self@ }),
            r@.headers.contains_key("Authorization"@),
            r@.headers.contains_key("User-Agent"@),
            r@.headers.contains_key("Content-Type"@),
    {
        let bearer = "Bearer ".to_owned().concat(token);
        self.header("User-Agent", USER_AGENT).header("Content-Type", CONTENT_TYPE).header(
            "Authorization",
            bearer.as_str(),
        )
    }

    /// The request with what the builder holds, unsigned.
    pub fn finish(self) -> (r: Request)
        ensures
            r@ == self@.request(self@.headers),
    {
        let Builder { auth: _, parts, body } = self;
        let Parts { method, uri, version, headers } = parts;
        Request { method, uri, version, headers, body }
    }

    /// The request for each outcome of signing: with the token, the request that carries it;
    /// with a failure, that failure.
    pub fn signed(self, outcome: Result<String, SignError>) -> (r: Result<Request, Error>)
        ensures
            match outcome {
                Ok(token) => r matches Ok(request) && request@ == self@.request(
                    signed_headers(self@.headers, token@),
                ),
                Err(SignError::KeyLoad) => r matches Err(e) && e.kind == ErrorKind::KeyLoad
                    && e.cause is None,
                Err(SignError::SigningFailed(cause)) => r matches Err(e) && e.kind
                    == ErrorKind::SigningFailed && text_of(e.cause) == Some(cause@),
            },
    {
        match outcome {
            Ok(token) => Ok(self.with_token(token.as_str()).finish()),
            Err(error) => Err(Error::from_sign(error)),
        }
    }

    /// Builds the request. Where credentials are attached, a token is signed for the method and
    /// for the host and path of the URI, and the request carries it in `Authorization`, beside
    /// `User-Agent` and `Content-Type`; the header fields set before stay. Without credentials
    /// the request has the header fields of the builder and no others.
    pub fn build(self) -> (r: Result<Request, Error>)
        ensures
            self@.builds(outcome_of(r)),
            r matches Ok(request) ==> (self@.auth is Some ==> request@.headers.contains_key(
                "Authorization"@,
            ) && request@.headers.contains_key("User-Agent"@) && request@.headers.contains_key(
                "Content-Type"@,
            )),
            r matches Ok(request) ==> (self@.auth is None ==> request@.headers == self@.headers),
            r matches Err(e) ==> (e.kind != ErrorKind::SigningFailed ==> e.cause is None),
    {
        if self.auth.is_none() {
            return Ok(self.finish());
        }
        let target = match self.parts.uri.target() {
            Some(target) => target,
            None => {
                return Err(Error { kind: ErrorKind::MissingAuthority, cause: None });
            },
        };
        let outcome = self.token(target.as_str());
        let ghost token = if outcome is Ok {
            outcome->Ok_0@
        } else {
            Seq::empty()
        };
        let r = self.signed(outcome);
        proof {
            if r is Ok {
                assert(r->Ok_0@ == self@.request(signed_headers(self@.headers, token)));
            }
        }
        r
    }

    /// Signs a token for the builder's method and `target` with the attached credentials.
    fn token(&self, target: &str) -> (r: Result<String, SignError>)
        requires
            self@.auth is Some,
        ensures
            self@.auth matches Some((key, secret)) && (sec1_scalar(secret) is None <==> r matches Err(
                SignError::KeyLoad,
            )),
    {
        match &self.auth {
            Some((key, secret)) => sign(
                key.as_str(),
                secret.as_str(),
                self.parts.method.as_str(),
                target,
            ),
            None => Err(SignError::KeyLoad),
        }
    }
}

} // verus!
