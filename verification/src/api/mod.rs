//! What each Management API call sends: the HTTP method, the path relative
//! to the base URL (every name in it percent-encoded), the query pairs, the
//! context that prefixes a 404 message, and the `X-Reason` header.
//!
//! One module per resource, as in the HTTP API's own grouping.
use vstd::prelude::*;

use crate::encoding::{
    decoded_segment, encode_segment, encoded_dot_at, encoded_segment, is_plain_path_char,
    lemma_encoded_segment_charset, lemma_encoded_segment_injective, lemma_encoded_segment_is_plain,
    lemma_encoded_segment_roundtrip, plain_relative_path, starts_segment,
};
use crate::pagination::{pairs_view, query_pairs, PaginationQuery};

pub mod bindings;
pub mod channels;
pub mod connections;
pub mod consumers;
pub mod definitions;
pub mod exchanges;
pub mod health;
pub mod nodes;
pub mod overview;
pub mod parameters;
pub mod permissions;
pub mod policies;
pub mod queues;
pub mod users;
pub mod vhosts;

verus! {

/// HTTP method of a request.
#[derive(Debug, Clone, Copy, PartialEq, Eq, Structural)]
pub enum Method {
    Get,
    Put,
    Post,
    Delete,
}

/// A request to the Management API, before it is sent.
#[derive(Debug)]
pub struct Request {
    /// HTTP method.
    pub method: Method,
    /// Path relative to the base URL (which ends in `/api/`).
    pub path: String,
    /// Query string pairs.
    pub query: Vec<(String, String)>,
    /// When set, a 404 answer is reported as `NotFound` prefixed with this
    /// text (e.g. `queue 'q1' in vhost '/'`).
    pub context: Option<String>,
    /// Value of the `X-Reason` header, when one is sent.
    pub reason: Option<String>,
}

/// A request as plain sequences.
pub struct RequestView {
    pub method: Method,
    pub path: Seq<char>,
    pub query: Seq<(Seq<char>, Seq<char>)>,
    pub context: Option<Seq<char>>,
    pub reason: Option<Seq<char>>,
}

/// The plain view of an optional string.
pub open spec fn opt_view(s: Option<String>) -> Option<Seq<char>> {
    match s {
        Some(v) => Some(v@),
        None => None,
    }
}

impl View for Request {
    type V = RequestView;

    open spec fn view(&self) -> RequestView {
        RequestView {
            method: self.method,
            path: self.path@,
            query: pairs_view(self.query@),
            context: opt_view(self.context),
            reason: opt_view(self.reason),
        }
    }
}

/// A request with no query, no 404 context and no `X-Reason`.
pub open spec fn plain(method: Method, path: Seq<char>) -> RequestView {
    RequestView { method, path, query: seq![], context: None, reason: None }
}

/// A request whose 404 answer is reported with the context `ctx`.
pub open spec fn with_context(method: Method, path: Seq<char>, ctx: Seq<char>) -> RequestView {
    RequestView { method, path, query: seq![], context: Some(ctx), reason: None }
}

/// A `GET` carrying the query pairs of a pagination query.
pub open spec fn paged(path: Seq<char>, q: PaginationQuery) -> RequestView {
    RequestView {
        method: Method::Get,
        path,
        query: query_pairs(q.page, q.page_size, q.name_view(), q.use_regex),
        context: None,
        reason: None,
    }
}

/// `kind 'name'`, e.g. `node 'rabbit@host'`.
pub open spec fn named(kind: Seq<char>, name: Seq<char>) -> Seq<char> {
    kind + " '"@ + name + "'"@
}

/// `kind 'name' in vhost 'vhost'`, e.g. `queue 'q1' in vhost '/'`.
pub open spec fn named_in_vhost(kind: Seq<char>, name: Seq<char>, vhost: Seq<char>) -> Seq<char> {
    named(kind, name) + " in vhost '"@ + vhost + "'"@
}

/// `prefix` followed by the encoded segment `s`.
pub open spec fn under(prefix: Seq<char>, s: Seq<char>) -> Seq<char> {
    prefix + encoded_segment(s)
}

/// `prefix`, the encoded segments `a` and `b` separated by `/`.
pub open spec fn under2(prefix: Seq<char>, a: Seq<char>, b: Seq<char>) -> Seq<char> {
    prefix + encoded_segment(a) + "/"@ + encoded_segment(b)
}

/// `prefix`, then the encoded segments `a`, `b` and `c` separated by `/`.
pub open spec fn under3(prefix: Seq<char>, a: Seq<char>, b: Seq<char>, c: Seq<char>) -> Seq<char> {
    under2(prefix, a, b) + "/"@ + encoded_segment(c)
}

impl Request {
    /// A request with no query, no 404 context and no `X-Reason`.
    pub fn plain(method: Method, path: String) -> (r: Request)
        ensures
            r@ == plain(method, path@),
            r@.method == method,
            r@.path == path@,
            r@.query.len() == 0,
            r@.context is None,
            r@.reason is None,
    {
        let r = Request { method, path, query: Vec::new(), context: None, reason: None };
        proof {
            assert(r@.query =~= Seq::<(Seq<char>, Seq<char>)>::empty());
        }
        r
    }

    /// A request whose 404 answer is reported with the context `ctx`.
    pub fn with_context(method: Method, path: String, ctx: String) -> (r: Request)
        ensures
            r@ == with_context(method, path@, ctx@),
            r@.method == method,
            r@.path == path@,
            r@.query.len() == 0,
            r@.context == Some(ctx@),
            r@.reason is None,
    {
        let r = Request { method, path, query: Vec::new(), context: Some(ctx), reason: None };
        proof {
            assert(r@.query =~= Seq::<(Seq<char>, Seq<char>)>::empty());
        }
        r
    }

    /// A `GET` carrying the query pairs of `q`.
    pub fn paged(path: String, q: &PaginationQuery) -> (r: Request)
        ensures
            r@ == paged(path@, *q),
    {
        Request { method: Method::Get, path, query: q.to_pairs(), context: None, reason: None }
    }
}

/// A request with a 404 context, or a plain one, is sent exactly as
/// given: with the method and path it was built with, no query pairs and
/// no `X-Reason` header; only the context differs.
pub proof fn lemma_unqueried_requests(method: Method, path: Seq<char>, ctx: Seq<char>)
    ensures
        with_context(method, path, ctx).method == method,
        with_context(method, path, ctx).path == path,
        with_context(method, path, ctx).query.len() == 0,
        with_context(method, path, ctx).context == Some(ctx),
        with_context(method, path, ctx).reason is None,
        plain(method, path).method == method,
        plain(method, path).path == path,
        plain(method, path).query.len() == 0,
        plain(method, path).context is None,
        plain(method, path).reason is None,
{
}

/// `kind 'name'`, computed.
pub fn named_ctx(kind: &str, name: &str) -> (r: String)
    ensures
        r@ == named(kind@, name@),
{
    String::from_str(kind).concat(" '").concat(name).concat("'")
}

/// `kind 'name' in vhost 'vhost'`, computed.
pub fn named_in_vhost_ctx(kind: &str, name: &str, vhost: &str) -> (r: String)
    ensures
        r@ == named_in_vhost(kind@, name@, vhost@),
{
    named_ctx(kind, name).concat(" in vhost '").concat(vhost).concat("'")
}

/// `prefix` followed by the encoded segment `s`, computed.
pub fn under_path(prefix: &str, s: &str) -> (r: String)
    ensures
        r@ == under(prefix@, s@),
{
    String::from_str(prefix).concat(encode_segment(s).as_str())
}

/// `prefix`, then the encoded segments `a` and `b` separated by `/`,
/// computed.
pub fn under2_path(prefix: &str, a: &str, b: &str) -> (r: String)
    ensures
        r@ == under2(prefix@, a@, b@),
{
    under_path(prefix, a).concat("/").concat(encode_segment(b).as_str())
}

/// `prefix`, then the encoded segments `a`, `b` and `c` separated by
/// `/`, computed.
pub fn under3_path(prefix: &str, a: &str, b: &str, c: &str) -> (r: String)
    ensures
        r@ == under3(prefix@, a@, b@, c@),
{
    under2_path(prefix, a, b).concat("/").concat(encode_segment(c).as_str())
}

/// `GET /api/whoami`: the identity the server associates with the
/// client's credentials.
pub fn whoami() -> (r: Request)
    ensures
        r@ == with_context(Method::Get, "whoami"@, "whoami"@),
{
    Request::with_context(Method::Get, String::from_str("whoami"), String::from_str("whoami"))
}

/// When `a` and `c` hold no `/`, `a/b == c/d` only if `a == c` and
/// `b == d`.
pub proof fn lemma_split_at_first_slash(a: Seq<char>, b: Seq<char>, c: Seq<char>, d: Seq<char>)
    requires
        a + "/"@ + b == c + "/"@ + d,
        !a.contains('/'),
        !c.contains('/'),
    ensures
        a == c,
        b == d,
{
    reveal_strlit("/");
    let x = a + "/"@ + b;
    if a.len() < c.len() {
        assert(x[a.len() as int] == '/');
        assert(x[a.len() as int] == c[a.len() as int]);
    } else if a.len() > c.len() {
        assert(x[c.len() as int] == '/');
        assert(x[c.len() as int] == a[c.len() as int]);
    } else {
        assert(a =~= x.take(a.len() as int));
        assert(c =~= x.take(a.len() as int));
        assert(b =~= x.skip(a.len() as int + 1));
        assert(d =~= x.skip(a.len() as int + 1));
    }
}

/// A common prefix can be dropped from both sides of an equation.
pub proof fn lemma_drop_prefix(p: Seq<char>, x: Seq<char>, y: Seq<char>)
    requires
        p + x == p + y,
    ensures
        x == y,
{
    assert(x =~= (p + x).skip(p.len() as int));
    assert(y =~= (p + y).skip(p.len() as int));
}

/// Two-segment paths under a common prefix are equal only when both names
/// are: each pair of names has its own path.
pub proof fn lemma_under2_injective(
    prefix: Seq<char>,
    a1: Seq<char>,
    b1: Seq<char>,
    a2: Seq<char>,
    b2: Seq<char>,
)
    ensures
        under2(prefix, a1, b1) == under2(prefix, a2, b2) ==> a1 == a2 && b1 == b2,
{
    if under2(prefix, a1, b1) == under2(prefix, a2, b2) {
        let e1 = encoded_segment(a1);
        let e2 = encoded_segment(a2);
        let f1 = encoded_segment(b1);
        let f2 = encoded_segment(b2);
        assert(under2(prefix, a1, b1) =~= prefix + (e1 + "/"@ + f1));
        assert(under2(prefix, a2, b2) =~= prefix + (e2 + "/"@ + f2));
        lemma_drop_prefix(prefix, e1 + "/"@ + f1, e2 + "/"@ + f2);
        lemma_encoded_segment_charset(a1);
        lemma_encoded_segment_charset(a2);
        lemma_split_at_first_slash(e1, f1, e2, f2);
        lemma_encoded_segment_injective(a1, a2);
        lemma_encoded_segment_injective(b1, b2);
    }
}

/// One-segment paths under a common prefix are equal only when the names
/// are.
pub proof fn lemma_under_injective(prefix: Seq<char>, a1: Seq<char>, a2: Seq<char>)
    ensures
        under(prefix, a1) == under(prefix, a2) ==> a1 == a2,
{
    if under(prefix, a1) == under(prefix, a2) {
        lemma_drop_prefix(prefix, encoded_segment(a1), encoded_segment(a2));
        lemma_encoded_segment_injective(a1, a2);
    }
}

/// Paths built under a relative prefix are relative too: they never start
/// with `/`, which [`crate::client::Client::url`] requires.
pub proof fn lemma_paths_stay_relative(prefix: Seq<char>, a: Seq<char>, b: Seq<char>, c: Seq<char>)
    requires
        prefix.len() > 0,
        prefix[0] != '/',
    ensures
        under(prefix, a)[0] != '/',
        under2(prefix, a, b)[0] != '/',
        under3(prefix, a, b, c)[0] != '/',
{
    assert(under(prefix, a)[0] == prefix[0]);
    assert(under2(prefix, a, b) =~= prefix + (encoded_segment(a) + "/"@ + encoded_segment(b)));
    assert(under2(prefix, a, b)[0] == prefix[0]);
    assert(under3(prefix, a, b, c)[0] == under2(prefix, a, b)[0]);
}

/// Whether `s` starts with `.`.
pub open spec fn starts_with_dot(s: Seq<char>) -> bool {
    s.len() > 0 && s[0] == '.'
}

/// A single segment that URL resolution keeps as it is: plain path
/// characters without `/`, not starting with `.` nor with an encoded `.`.
pub open spec fn plain_segment(y: Seq<char>) -> bool {
    &&& forall|i: int| 0 <= i < y.len() ==> is_plain_path_char(#[trigger] y[i]) && y[i] != '/'
    &&& !starts_with_dot(y)
    &&& !encoded_dot_at(y, 0)
}

proof fn lemma_append_segment(x: Seq<char>, y: Seq<char>)
    requires
        plain_relative_path(x),
        x.len() == 0 || x.last() == '/',
        plain_segment(y),
    ensures
        plain_relative_path(x + y),
{
    let z = x + y;
    let n = x.len() as int;
    assert forall|i: int| 0 <= i < z.len() implies is_plain_path_char(#[trigger] z[i]) by {
        if i >= n {
            assert(z[i] == y[i - n]);
        }
    }
    assert forall|i: int| 0 <= i < z.len() && #[trigger] starts_segment(z, i) implies z[i] != '.'
        && !encoded_dot_at(z, i) by {
        if i < n {
            if i > 0 {
                assert(z[i - 1] == x[i - 1]);
            }
            assert(starts_segment(x, i));
            if i + 2 < n {
                assert(z[i + 1] == x[i + 1] && z[i + 2] == x[i + 2]);
            } else if i == n - 1 {
                assert(x[n - 1] == x.last());
            } else {
                assert(z[i + 1] == x[n - 1]);
                assert(x[n - 1] == x.last());
            }
        } else if i == n {
            assert(y.len() > 0);
            if 2 < y.len() {
                assert(z[i] == y[0] && z[i + 1] == y[1] && z[i + 2] == y[2]);
            }
        } else {
            assert(z[i - 1] == y[i - 1 - n]);
        }
    }
    if n == 0 && z.len() > 0 {
        assert(z[0] == y[0]);
    }
}

proof fn lemma_append_slash(x: Seq<char>)
    requires
        plain_relative_path(x),
        x.len() > 0,
    ensures
        plain_relative_path(x + seq!['/']),
{
    let z = x + seq!['/'];
    let n = x.len() as int;
    assert forall|i: int| 0 <= i < z.len() implies is_plain_path_char(#[trigger] z[i]) by {
        if i < n {
            assert(z[i] == x[i]);
        }
    }
    assert forall|i: int| 0 <= i < z.len() && #[trigger] starts_segment(z, i) implies z[i] != '.'
        && !encoded_dot_at(z, i) by {
        if i < n {
            if i > 0 {
                assert(z[i - 1] == x[i - 1]);
            }
            assert(starts_segment(x, i));
            if i + 2 < n {
                assert(z[i + 1] == x[i + 1] && z[i + 2] == x[i + 2]);
            }
        }
    }
    assert(z[0] == x[0]);
}

/// Paths built under a plain prefix ending in `/` from names that do not
/// start with `.` are plain relative paths: [`crate::client::Client::url`]
/// appends them to the base URL as they are, so every such request stays
/// under `/api/` and keeps each name in its own segment.
pub proof fn lemma_paths_are_plain(prefix: Seq<char>, a: Seq<char>, b: Seq<char>, c: Seq<char>)
    requires
        plain_relative_path(prefix),
        prefix.len() > 0,
        prefix.last() == '/',
        !starts_with_dot(a),
        !starts_with_dot(b),
        !starts_with_dot(c),
    ensures
        plain_relative_path(under(prefix, a)),
        plain_relative_path(under2(prefix, a, b)),
        plain_relative_path(under3(prefix, a, b, c)),
{
    reveal_strlit("/");
    lemma_encoded_segment_is_plain(a);
    lemma_encoded_segment_is_plain(b);
    lemma_encoded_segment_is_plain(c);
    let ea = encoded_segment(a);
    let eb = encoded_segment(b);
    let ec = encoded_segment(c);
    assert(plain_segment(ea));
    assert(plain_segment(eb));
    assert(plain_segment(ec));
    lemma_append_segment(prefix, ea);
    let p1 = prefix + ea;
    lemma_append_slash(p1);
    let p2 = p1 + seq!['/'];
    assert(p2.last() == '/');
    lemma_append_segment(p2, eb);
    assert("/"@ =~= seq!['/']);
    assert(under2(prefix, a, b) =~= p2 + eb);
    let p3 = p2 + eb;
    lemma_append_slash(p3);
    let p4 = p3 + seq!['/'];
    assert(p4.last() == '/');
    lemma_append_segment(p4, ec);
    assert(under3(prefix, a, b, c) =~= p4 + ec);
}

/// Each name of a path stands in a segment of its own that decodes back to
/// it: a one-name path is the prefix followed by a segment naming `a`, and
/// each further name adds a `/` and a segment naming it; no segment holds
/// a `/`.
pub proof fn lemma_paths_name_their_segments(
    prefix: Seq<char>,
    a: Seq<char>,
    b: Seq<char>,
    c: Seq<char>,
)
    ensures
        under(prefix, a).take(prefix.len() as int) == prefix,
        decoded_segment(under(prefix, a).skip(prefix.len() as int)) == a,
        !under(prefix, a).skip(prefix.len() as int).contains('/'),
        under2(prefix, a, b) == under(prefix, a) + "/"@ + encoded_segment(b),
        under3(prefix, a, b, c) == under2(prefix, a, b) + "/"@ + encoded_segment(c),
        decoded_segment(encoded_segment(b)) == b && !encoded_segment(b).contains('/'),
        decoded_segment(encoded_segment(c)) == c && !encoded_segment(c).contains('/'),
{
    lemma_encoded_segment_roundtrip(a);
    lemma_encoded_segment_roundtrip(b);
    lemma_encoded_segment_roundtrip(c);
    lemma_encoded_segment_charset(a);
    lemma_encoded_segment_charset(b);
    lemma_encoded_segment_charset(c);
    assert(under(prefix, a).take(prefix.len() as int) =~= prefix);
    assert(under(prefix, a).skip(prefix.len() as int) =~= encoded_segment(a));
}

} // verus!
