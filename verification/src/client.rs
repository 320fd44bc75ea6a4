//! The client's configuration: base-URL normalization and validation, the
//! HTTP Basic `Authorization` header, and joining request paths onto the
//! base URL.
use vstd::prelude::*;
use vstd::utf8::*;

use crate::base64::{base64, base64_decode, base64_encode, is_base64_char, lemma_base64_charset, lemma_base64_roundtrip};
use crate::encoding::plain_relative_path;
use crate::error::{Error, Result};

verus! {

/// The parts of a parsed URL that the client reads, as plain values.
pub struct ParsedUrl {
    /// The URL's serialization (`Url::as_str`).
    pub serialization: Seq<char>,
    /// Its scheme, lower case (`Url::scheme`).
    pub scheme: Seq<char>,
    /// Whether it cannot be a base (`Url::cannot_be_a_base`).
    pub cannot_be_a_base: bool,
    /// Its path (`Url::path`).
    pub path: Seq<char>,
    /// Whether it has a query (`Url::query` is `Some`).
    pub has_query: bool,
    /// Whether it has a fragment (`Url::fragment` is `Some`).
    pub has_fragment: bool,
}

/// What `url::Url::parse` gives for `input`: the parts of the parsed URL,
/// or the text of the parse error.
pub uninterp spec fn parsed_url(input: Seq<char>) -> core::result::Result<ParsedUrl, Seq<char>>;

/// What `url::Url::join` gives when `path` is joined onto the URL that
/// `url::Url::parse` reads from `base`: the joined URL's serialization, or
/// the text of the parse error. The client keeps its base URL as its
/// serialization, which parses back to the same URL (see `parse_url`), so
/// this is the join onto the client's base URL.
pub uninterp spec fn resolved_url(base: Seq<char>, path: Seq<char>) -> core::result::Result<Seq<char>, Seq<char>>;

/// Whether `scheme` is `http` or `https`.
pub open spec fn is_http_scheme(scheme: Seq<char>) -> bool {
    scheme == "http"@ || scheme == "https"@
}

/// Whether parsing the serialization of the parsed URL `u` gives `u`
/// again.
pub open spec fn parses_back(u: ParsedUrl) -> bool {
    parsed_url(u.serialization) == Ok::<ParsedUrl, Seq<char>>(u)
}

/// Whether `base` parses as an `http(s)` URL that can be a base, whose
/// path ends in `/`, with no query and no fragment.
pub open spec fn is_directory_base(base: Seq<char>) -> bool {
    parsed_url(base) matches Ok(b) && is_http_scheme(b.scheme) && !b.cannot_be_a_base
        && !b.has_query && !b.has_fragment && b.path.len() > 0 && b.path.last() == '/'
}

/// The base's serialization followed by `path`.
pub open spec fn directory_join(base: Seq<char>, path: Seq<char>) -> Seq<char> {
    parsed_url(base)->Ok_0.serialization + path
}

/// The parts of a parsed URL that the client reads.
struct UrlParts {
    serialization: String,
    scheme: String,
    cannot_be_a_base: bool,
    path: String,
    has_query: bool,
    has_fragment: bool,
}

impl View for UrlParts {
    type V = ParsedUrl;

    closed spec fn view(&self) -> ParsedUrl {
        ParsedUrl {
            serialization: self.serialization@,
            scheme: self.scheme@,
            cannot_be_a_base: self.cannot_be_a_base,
            path: self.path@,
            has_query: self.has_query,
            has_fragment: self.has_fragment,
        }
    }
}

/// `url::Url::parse`, read back as plain values (`as_str`, `scheme`,
/// `cannot_be_a_base`, `path`, and whether `query` and `fragment` are
/// present), or the `Display` text of the `url::ParseError`. The result is
/// only tied to the input through the name `parsed_url`: the URL
/// standard's parsing rules are not restated here. One fact of the source
/// is stated: an `http` or `https` URL parses back from its serialization
/// to the same URL (`Url::check_invariants` asserts that re-parsing
/// `as_str()` gives the same serialization and the same component
/// offsets, from which all the parts above are read).
#[verifier::external_body]
fn parse_url(input: &str) -> (res: core::result::Result<UrlParts, String>)
    ensures
        match parsed_url(input@) {
            Ok(v) => res matches Ok(p) && p@ == v,
            Err(e) => res matches Err(m) && m@ == e,
        },
        res matches Ok(p) ==> (is_http_scheme(p@.scheme) ==> parses_back(p@)),
{
    match url::Url::parse(input) {
        Ok(u) => Ok(
            UrlParts {
                serialization: u.as_str().to_owned(),
                scheme: u.scheme().to_owned(),
                cannot_be_a_base: u.cannot_be_a_base(),
                path: u.path().to_owned(),
                has_query: u.query().is_some(),
                has_fragment: u.fragment().is_some(),
            },
        ),
        Err(e) => Err(e.to_string()),
    }
}

/// `url::Url::join` of `path` onto the URL that `url::Url::parse` reads
/// from `base`, read back as the joined URL's serialization or the
/// `Display` text of the `url::ParseError`. The result is tied to its
/// arguments through the name `resolved_url`; the reference-resolution
/// rules of the URL standard are not restated, except for the one case
/// the client relies on: when the base is an `http(s)` URL whose path ends
/// in `/` and that has no query and no fragment, a plain relative path is
/// appended to the base's serialization as it is (the relative-path branch
/// of `Parser::parse_relative` copies the base up to its query, pops the
/// empty last segment, and `Parser::parse_path` copies the path's
/// characters unchanged, none of them being percent-encoded and no segment
/// being a dot segment).
#[verifier::external_body]
fn resolve_url(base: &str, path: &str) -> (res: core::result::Result<String, String>)
    ensures
        match resolved_url(base@, path@) {
            Ok(u) => res matches Ok(r) && r@ == u,
            Err(e) => res matches Err(m) && m@ == e,
        },
        is_directory_base(base@) && plain_relative_path(path@) ==> res is Ok,
        res matches Ok(r) ==> (is_directory_base(base@) && plain_relative_path(path@) ==> r@
            == directory_join(base@, path@)),
{
    let joined = match url::Url::parse(base) {
        Ok(b) => b.join(path),
        Err(e) => Err(e),
    };
    match joined {
        Ok(u) => Ok(u.as_str().to_owned()),
        Err(e) => Err(e.to_string()),
    }
}

/// `s` without its trailing `/` characters.
pub open spec fn trim_trailing_slashes(s: Seq<char>) -> Seq<char>
    decreases s.len(),
{
    if s.len() > 0 && s.last() == '/' {
        trim_trailing_slashes(s.drop_last())
    } else {
        s
    }
}

/// Whether `s` ends with `suffix`.
pub open spec fn ends_with(s: Seq<char>, suffix: Seq<char>) -> bool {
    suffix.len() <= s.len() && s.subrange(s.len() - suffix.len(), s.len() as int) == suffix
}

/// The normalized form of a base URL: trailing slashes removed, then
/// `/api/` appended, or only `/` when it already ends in `/api`.
pub open spec fn api_base(s: Seq<char>) -> Seq<char> {
    let t = trim_trailing_slashes(s);
    if ends_with(t, "/api"@) {
        t + "/"@
    } else {
        t + "/api/"@
    }
}

/// The `Authorization` header value for HTTP Basic auth: `Basic ` and the
/// base64 of the UTF-8 bytes of `user:password`.
pub open spec fn basic_authorization(username: Seq<char>, password: Seq<char>) -> Seq<char> {
    "Basic "@ + base64(encode_utf8(username + ":"@ + password))
}

/// Whether `s` is the serialization of a valid client base URL: it parses
/// back to itself, as an `http(s)` URL that can be a base, whose path ends
/// in `/api/`, with no query and no fragment.
pub open spec fn is_api_base_url(s: Seq<char>) -> bool {
    parsed_url(s) matches Ok(b) && b.serialization == s && is_http_scheme(b.scheme)
        && !b.cannot_be_a_base && ends_with(b.path, "/api/"@) && !b.has_query && !b.has_fragment
}

/// What building a client from these settings gives: the serialization of
/// the normalized base URL and the `Authorization` header value, or the
/// message of the [`Error::InvalidUrl`] it fails with.
pub open spec fn build_outcome(base_url: Seq<char>, username: Seq<char>, password: Seq<char>)
    -> core::result::Result<(Seq<char>, Seq<char>), Seq<char>> {
    match parsed_url(api_base(base_url)) {
        Err(e) => Err(base_url + ": "@ + e),
        Ok(u) => if !is_http_scheme(u.scheme) {
            Err("invalid base URL '"@ + base_url + "': scheme must be http or https"@)
        } else if u.cannot_be_a_base {
            Err("invalid base URL '"@ + base_url + "': cannot be used as a base URL"@)
        } else if u.has_query || u.has_fragment {
            Err("invalid base URL '"@ + base_url + "': must not have a query or fragment"@)
        } else if !ends_with(u.path, "/api/"@) {
            Err("invalid base URL '"@ + base_url + "': path must end in /api/"@)
        } else {
            Ok((u.serialization, basic_authorization(username, password)))
        },
    }
}

/// Whether two build outcomes give the same client, or both fail.
pub open spec fn same_client(
    a: core::result::Result<(Seq<char>, Seq<char>), Seq<char>>,
    b: core::result::Result<(Seq<char>, Seq<char>), Seq<char>>,
) -> bool {
    match (a, b) {
        (Ok(x), Ok(y)) => x == y,
        (Err(_), Err(_)) => true,
        _ => false,
    }
}

/// A normalized base URL always ends in `/api/`.
pub proof fn lemma_api_base_ends_with_api(s: Seq<char>)
    ensures
        ends_with(api_base(s), "/api/"@),
{
    reveal_strlit("/api");
    reveal_strlit("/api/");
    reveal_strlit("/");
    let t = trim_trailing_slashes(s);
    let b = api_base(s);
    if ends_with(t, "/api"@) {
        assert(b.subrange(b.len() - 5, b.len() as int) =~= t.subrange(t.len() - 4, t.len() as int)
            + "/"@);
        assert("/api"@ + "/"@ =~= "/api/"@);
    } else {
        assert(b.subrange(b.len() - 5, b.len() as int) =~= "/api/"@);
    }
}

/// Normalizing a normalized base URL changes nothing.
pub proof fn lemma_api_base_idempotent(s: Seq<char>)
    ensures
        api_base(api_base(s)) == api_base(s),
{
    reveal_strlit("/api");
    reveal_strlit("/api/");
    reveal_strlit("/");
    lemma_api_base_ends_with_api(s);
    let b = api_base(s);
    let d = b.drop_last();
    assert(b.last() == '/') by {
        assert(b.subrange(b.len() - 5, b.len() as int)[4] == b.last());
    }
    assert(d.last() == 'i') by {
        assert(b.subrange(b.len() - 5, b.len() as int)[3] == d.last());
    }
    assert(trim_trailing_slashes(d) == d);
    assert(trim_trailing_slashes(b) == d);
    assert(d.subrange(d.len() - 4, d.len() as int) =~= "/api"@) by {
        assert(d.subrange(d.len() - 4, d.len() as int) =~= b.subrange(
            b.len() - 5,
            b.len() as int,
        ).take(4));
    }
    assert(d + "/"@ =~= b);
}

/// The base URL may be given with or without a trailing `/` and with or
/// without the `/api` suffix: all four spellings normalize to the same
/// `.../api/` URL, never to `.../api/api/`.
pub proof fn lemma_api_base_suffixes(s: Seq<char>)
    requires
        s.len() == 0 || s.last() != '/',
        !ends_with(s, "/api"@),
    ensures
        api_base(s) == s + "/api/"@,
        api_base(s + "/"@) == s + "/api/"@,
        api_base(s + "/api"@) == s + "/api/"@,
        api_base(s + "/api/"@) == s + "/api/"@,
{
    reveal_strlit("/api");
    reveal_strlit("/api/");
    reveal_strlit("/");
    assert(trim_trailing_slashes(s) == s);
    let s1 = s + "/"@;
    assert(s1.drop_last() =~= s);
    assert(trim_trailing_slashes(s1) == s);
    let s2 = s + "/api"@;
    assert(s2.last() == 'i');
    assert(trim_trailing_slashes(s2) == s2);
    assert(s2.subrange(s2.len() - 4, s2.len() as int) =~= "/api"@);
    assert(s2 + "/"@ =~= s + "/api/"@);
    let s3 = s + "/api/"@;
    assert(s3.drop_last() =~= s2);
    assert(trim_trailing_slashes(s3) == s2);
}

/// The four spellings of a base URL (with or without a trailing `/`, with
/// or without the `/api` suffix) build the same client, or all fail.
pub proof fn lemma_build_suffixes(s: Seq<char>, username: Seq<char>, password: Seq<char>)
    requires
        s.len() == 0 || s.last() != '/',
        !ends_with(s, "/api"@),
    ensures
        same_client(build_outcome(s + "/"@, username, password), build_outcome(s, username, password)),
        same_client(
            build_outcome(s + "/api"@, username, password),
            build_outcome(s, username, password),
        ),
        same_client(
            build_outcome(s + "/api/"@, username, password),
            build_outcome(s, username, password),
        ),
{
    lemma_api_base_suffixes(s);
}

/// Every character of the `Authorization` header value is a visible ASCII
/// character or a space, so it is always a valid HTTP header value
/// whatever the credentials.
pub proof fn lemma_authorization_is_header_safe(username: Seq<char>, password: Seq<char>)
    ensures
        forall|i: int|
            0 <= i < basic_authorization(username, password).len() ==> ' ' <= #[trigger] basic_authorization(
                username,
                password,
            )[i] && basic_authorization(username, password)[i] <= '~',
{
    reveal_strlit("Basic ");
    let e = base64(encode_utf8(username + ":"@ + password));
    lemma_base64_charset(encode_utf8(username + ":"@ + password));
    let a = basic_authorization(username, password);
    assert forall|i: int| 0 <= i < a.len() implies ' ' <= #[trigger] a[i] && a[i] <= '~' by {
        if i >= 6 {
            assert(a[i] == e[i - 6]);
            assert(is_base64_char(e[i - 6]));
        }
    }
}

/// The credentials can be read back from the `Authorization` header value:
/// decoding what follows `Basic ` gives the UTF-8 bytes of
/// `user:password`.
pub proof fn lemma_authorization_carries_credentials(username: Seq<char>, password: Seq<char>)
    ensures
        base64_decode(basic_authorization(username, password).skip(6)) == encode_utf8(
            username + ":"@ + password,
        ),
        decode_utf8(base64_decode(basic_authorization(username, password).skip(6))) == username
            + ":"@ + password,
{
    reveal_strlit("Basic ");
    let bytes = encode_utf8(username + ":"@ + password);
    lemma_base64_roundtrip(bytes);
    assert(basic_authorization(username, password).skip(6) =~= base64(bytes));
    encode_utf8_decode_utf8(username + ":"@ + password);
}

/// Client settings as plain sequences.
pub struct ClientSettingsView {
    pub base_url: Seq<char>,
    pub username: Seq<char>,
    pub password: Seq<char>,
}

/// A built client as plain sequences.
pub struct ClientView {
    /// Serialization of the base URL, which ends in `/api/`.
    pub base_url: Seq<char>,
    /// Value of the `Authorization` header sent with every request.
    pub authorization: Seq<char>,
}

/// Configuration of a client for the RabbitMQ Management HTTP API: the
/// normalized base URL (always ending in `/api/`) and the HTTP Basic
/// `Authorization` header value.
pub struct Client {
    base_url: String,
    authorization: String,
}

/// Builder for [`Client`]. See [`Client::builder`].
pub struct ClientBuilder {
    base_url: String,
    username: String,
    password: String,
}

impl Client {
    /// A client's base URL is always a valid API base URL.
    #[verifier::type_invariant]
    spec fn base_is_valid(self) -> bool {
        is_api_base_url(self.base_url@)
    }
}

impl Clone for Client {
    fn clone(&self) -> (c: Self)
        ensures
            c@ == self@,
    {
        proof {
            use_type_invariant(self);
        }
        Client { base_url: self.base_url.clone(), authorization: self.authorization.clone() }
    }
}

impl View for Client {
    type V = ClientView;

    closed spec fn view(&self) -> ClientView {
        ClientView { base_url: self.base_url@, authorization: self.authorization@ }
    }
}

impl View for ClientBuilder {
    type V = ClientSettingsView;

    closed spec fn view(&self) -> ClientSettingsView {
        ClientSettingsView {
            base_url: self.base_url@,
            username: self.username@,
            password: self.password@,
        }
    }
}

/// `s` without its trailing `/` characters, computed.
fn trim_slashes(s: &str) -> (r: &str)
    ensures
        r@ == trim_trailing_slashes(s@),
{
    let mut end = s.unicode_len();
    proof {
        assert(s@.take(end as int) =~= s@);
    }
    loop
        invariant
            end <= s@.len(),
            trim_trailing_slashes(s@) == trim_trailing_slashes(s@.take(end as int)),
        ensures
            end <= s@.len(),
            trim_trailing_slashes(s@) == trim_trailing_slashes(s@.take(end as int)),
            end == 0 || s@[end - 1] != '/',
        decreases end,
    {
        if end == 0 || s.get_char(end - 1) != '/' {
            break;
        }
        proof {
            assert(s@.take(end as int).drop_last() =~= s@.take(end - 1));
        }
        end = end - 1;
    }
    proof {
        let t = s@.take(end as int);
        if end > 0 {
            assert(t.last() == s@[end - 1]);
        }
        assert(trim_trailing_slashes(t) == t);
        assert(t =~= s@.subrange(0, end as int));
    }
    s.substring_char(0, end)
}

/// Whether `s` ends with `suffix`, computed.
fn ends_with_str(s: &str, suffix: &str) -> (b: bool)
    ensures
        b == ends_with(s@, suffix@),
{
    let n = s.unicode_len();
    let m = suffix.unicode_len();
    if m > n {
        return false;
    }
    let mut i: usize = 0;
    while i < m
        invariant
            m <= n,
            n == s@.len(),
            m == suffix@.len(),
            i <= m,
            forall|j: int| 0 <= j < i ==> s@[n - m + j] == suffix@[j],
        decreases m - i,
    {
        if s.get_char(n - m + i) != suffix.get_char(i) {
            proof {
                assert(s@.subrange(n - m, n as int)[i as int] == s@[n - m + i]);
            }
            return false;
        }
        i = i + 1;
    }
    proof {
        assert(s@.subrange(n - m, n as int) =~= suffix@);
    }
    true
}

impl Client {
    /// Create a [`ClientBuilder`] for the given Management API endpoint and
    /// credentials.
    ///
    /// `base_url` may be given with or without a trailing `/` and with or
    /// without the `/api` path suffix; it is normalized by
    /// [`ClientBuilder::build`].
    pub fn builder(base_url: &str, username: &str, password: &str) -> (b: ClientBuilder)
        ensures
            b@ == (ClientSettingsView { base_url: base_url@, username: username@, password: password@ }),
    {
        ClientBuilder {
            base_url: String::from_str(base_url),
            username: String::from_str(username),
            password: String::from_str(password),
        }
    }

    /// Convenience constructor:
    /// `Client::new("http://localhost:15672", "guest", "guest")`.
    pub fn new(base_url: &str, username: &str, password: &str) -> (res: Result<Client>)
        ensures
            match build_outcome(base_url@, username@, password@) {
                Ok((base, auth)) => res matches Ok(c) && c@ == (ClientView { base_url: base, authorization: auth }),
                Err(m) => res matches Err(Error::InvalidUrl(e)) && e@ == m,
            },
    {
        Self::builder(base_url, username, password).build()
    }

    /// Serialization of the normalized base URL (ends in `/api/`).
    pub fn base_url(&self) -> (r: &str)
        ensures
            r@ == self@.base_url,
            is_api_base_url(r@),
    {
        proof {
            use_type_invariant(self);
        }
        self.base_url.as_str()
    }

    /// The `Authorization` header value sent with every request.
    pub fn authorization(&self) -> (r: &str)
        ensures
            r@ == self@.authorization,
    {
        self.authorization.as_str()
    }

    /// Join a relative API path onto the base URL.
    ///
    /// Paths are relative to the base URL (which ends in `/api/`) and
    /// therefore must not start with `/`: a leading slash would make the
    /// join discard the `/api/` prefix and produce a URL outside the API.
    /// A plain relative path (no `.` or `..` segment, only plain path
    /// characters) is appended to the base URL as it is, so the request
    /// stays under `/api/`.
    pub fn url(&self, path: &str) -> (res: Result<String>)
        requires
            path@.len() == 0 || path@[0] != '/',
        ensures
            match resolved_url(self@.base_url, path@) {
                Ok(u) => res matches Ok(r) && r@ == u,
                Err(e) => res matches Err(Error::InvalidUrl(m)) && m@ == path@ + ": "@ + e,
            },
            plain_relative_path(path@) ==> (res matches Ok(r) && r@ == self@.base_url + path@),
    {
        proof {
            use_type_invariant(self);
            reveal_strlit("/api/");
            let b = parsed_url(self.base_url@)->Ok_0;
            assert(b.path.last() == b.path.subrange(b.path.len() - 5, b.path.len() as int)[4]);
        }
        match resolve_url(self.base_url.as_str(), path) {
            Ok(u) => Ok(u),
            Err(e) => Err(Error::InvalidUrl(String::from_str(path).concat(": ").concat(e.as_str()))),
        }
    }
}

impl ClientBuilder {
    /// Normalize the base URL, check it, and compute the HTTP Basic
    /// `Authorization` header.
    ///
    /// The base URL must use the `http` or `https` scheme; anything else
    /// (including a missing scheme, which the URL parser would read as a
    /// scheme itself, e.g. `localhost:15672`) is rejected with
    /// [`Error::InvalidUrl`], as is a URL that cannot be a base. So that
    /// the base always ends in `/api/` and every relative path joined onto
    /// it stays inside the API, a base URL with a query or a fragment (e.g.
    /// `http://host/?x`), or one whose normalized path does not end in
    /// `/api/`, is rejected too.
    pub fn build(self) -> (res: Result<Client>)
        ensures
            match build_outcome(self@.base_url, self@.username, self@.password) {
                Ok((base, auth)) => res matches Ok(c) && c@ == (ClientView { base_url: base, authorization: auth }),
                Err(m) => res matches Err(Error::InvalidUrl(e)) && e@ == m,
            },
            res matches Ok(c) ==> is_api_base_url(c@.base_url),
    {
        let trimmed = trim_slashes(self.base_url.as_str());
        let with_api = if ends_with_str(trimmed, "/api") {
            String::from_str(trimmed).concat("/")
        } else {
            String::from_str(trimmed).concat("/api/")
        };
        proof {
            reveal_strlit("/api");
            reveal_strlit("/api/");
            reveal_strlit("/");
            assert(with_api@ == api_base(self@.base_url));
        }
        let parts = match parse_url(with_api.as_str()) {
            Ok(p) => p,
            Err(e) => {
                return Err(
                    Error::InvalidUrl(self.base_url.clone().concat(": ").concat(e.as_str())),
                );
            },
        };
        let http = String::from_str("http");
        let https = String::from_str("https");
        proof {
            reveal_strlit("http");
            reveal_strlit("https");
        }
        if parts.scheme != http && parts.scheme != https {
            return Err(
                Error::InvalidUrl(
                    String::from_str("invalid base URL '").concat(self.base_url.as_str()).concat(
                        "': scheme must be http or https",
                    ),
                ),
            );
        }
        if parts.cannot_be_a_base {
            return Err(
                Error::InvalidUrl(
                    String::from_str("invalid base URL '").concat(self.base_url.as_str()).concat(
                        "': cannot be used as a base URL",
                    ),
                ),
            );
        }
        if parts.has_query || parts.has_fragment {
            return Err(
                Error::InvalidUrl(
                    String::from_str("invalid base URL '").concat(self.base_url.as_str()).concat(
                        "': must not have a query or fragment",
                    ),
                ),
            );
        }
        if !ends_with_str(parts.path.as_str(), "/api/") {
            return Err(
                Error::InvalidUrl(
                    String::from_str("invalid base URL '").concat(self.base_url.as_str()).concat(
                        "': path must end in /api/",
                    ),
                ),
            );
        }
        let credentials = self.username.clone().concat(":").concat(self.password.as_str());
        let encoded = base64_encode(credentials.as_str().as_bytes());
        let authorization = String::from_str("Basic ").concat(encoded.as_str());
        Ok(Client { base_url: parts.serialization, authorization })
    }
}

} // verus!
