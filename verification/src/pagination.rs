//! Pagination support for list endpoints.
//!
//! RabbitMQ list endpoints support server-side pagination via query
//! parameters (`page`, `page_size`, `name`, `use_regex`, plus
//! `pagination=true`) and then respond with a [`Paginated`] envelope instead
//! of a bare JSON array.
use vstd::prelude::*;

use crate::text::{decimal, decimal_string};

verus! {

/// Query parameters for paginated list endpoints.
///
/// All fields are optional; unset fields are simply omitted from the query
/// string. When a `PaginationQuery` is supplied to a list method, the
/// `pagination=true` parameter is always added so the server responds with a
/// [`Paginated`] envelope.
#[derive(Debug, Clone)]
pub struct PaginationQuery {
    /// 1-based page number to fetch.
    pub page: Option<u32>,
    /// Number of items per page.
    pub page_size: Option<u32>,
    /// Filter by name (literal string, or regular expression when
    /// `use_regex` is true).
    pub name: Option<String>,
    /// Interpret `name` as a regular expression.
    pub use_regex: Option<bool>,
}

impl Default for PaginationQuery {
    /// A query with every field unset.
    fn default() -> (q: Self)
        ensures
            q.page is None,
            q.page_size is None,
            q.name is None,
            q.use_regex is None,
    {
        PaginationQuery { page: None, page_size: None, name: None, use_regex: None }
    }
}

/// Envelope returned by paginated list endpoints.
#[derive(Debug, Clone)]
pub struct Paginated<T> {
    /// The items on the current page.
    pub items: Vec<T>,
    /// Current page number (1-based).
    pub page: u32,
    /// Number of items per page.
    pub page_size: u32,
    /// Total number of items (before name filtering).
    pub total_count: u64,
    /// Number of items matching the current filter.
    pub filtered_count: u64,
}

/// The text of a boolean in a query string.
pub open spec fn bool_text(b: bool) -> Seq<char> {
    if b {
        "true"@
    } else {
        "false"@
    }
}

/// One `(key, value)` pair when the value is set, none otherwise.
pub open spec fn optional_pair(key: Seq<char>, value: Option<Seq<char>>) -> Seq<(Seq<char>, Seq<char>)> {
    match value {
        Some(v) => seq![(key, v)],
        None => seq![],
    }
}

/// The query pairs of a pagination query: each set field in the order
/// `page`, `page_size`, `name`, `use_regex`, then always
/// `pagination=true`.
pub open spec fn query_pairs(
    page: Option<u32>,
    page_size: Option<u32>,
    name: Option<Seq<char>>,
    use_regex: Option<bool>,
) -> Seq<(Seq<char>, Seq<char>)> {
    optional_pair(
        "page"@,
        match page {
            Some(p) => Some(decimal(p as nat)),
            None => None,
        },
    ) + optional_pair(
        "page_size"@,
        match page_size {
            Some(p) => Some(decimal(p as nat)),
            None => None,
        },
    ) + optional_pair("name"@, name) + optional_pair(
        "use_regex"@,
        match use_regex {
            Some(r) => Some(bool_text(r)),
            None => None,
        },
    ) + seq![("pagination"@, "true"@)]
}

/// The query of a pagination query carries each set field under its own
/// key: `page` and `page_size` as their decimal numerals, `name` as it is
/// (whether or not `use_regex` is set), `use_regex` as `true` or `false`;
/// an unset field has no pair, no key has any other value, and the last
/// pair is always `pagination=true`.
pub proof fn lemma_query_pairs_carry_the_fields(
    page: Option<u32>,
    page_size: Option<u32>,
    name: Option<Seq<char>>,
    use_regex: Option<bool>,
)
    ensures
        query_pairs(page, page_size, name, use_regex).last() == ("pagination"@, "true"@),
        page matches Some(p) ==> query_pairs(page, page_size, name, use_regex).contains(
            ("page"@, decimal(p as nat)),
        ),
        page_size matches Some(p) ==> query_pairs(page, page_size, name, use_regex).contains(
            ("page_size"@, decimal(p as nat)),
        ),
        name matches Some(n) ==> query_pairs(page, page_size, name, use_regex).contains(("name"@, n)),
        use_regex matches Some(b) ==> query_pairs(page, page_size, name, use_regex).contains(
            ("use_regex"@, if b { "true"@ } else { "false"@ }),
        ),
        forall|i: int|
            0 <= i < query_pairs(page, page_size, name, use_regex).len() ==> {
                let (k, v) = #[trigger] query_pairs(page, page_size, name, use_regex)[i];
                &&& k == "page"@ ==> (page is Some && v == decimal(page->0 as nat))
                &&& k == "page_size"@ ==> (page_size is Some && v == decimal(page_size->0 as nat))
                &&& k == "name"@ ==> (name is Some && v == name->0)
                &&& k == "use_regex"@ ==> (use_regex is Some && v == (if use_regex->0 {
                    "true"@
                } else {
                    "false"@
                }))
                &&& k == "pagination"@ ==> v == "true"@
            },
{
    reveal_strlit("page");
    reveal_strlit("page_size");
    reveal_strlit("name");
    reveal_strlit("use_regex");
    reveal_strlit("pagination");
    reveal_strlit("true");
    reveal_strlit("false");
    let a = optional_pair(
        "page"@,
        match page {
            Some(p) => Some(decimal(p as nat)),
            None => None,
        },
    );
    let b = optional_pair(
        "page_size"@,
        match page_size {
            Some(p) => Some(decimal(p as nat)),
            None => None,
        },
    );
    let c = optional_pair("name"@, name);
    let d = optional_pair(
        "use_regex"@,
        match use_regex {
            Some(r) => Some(bool_text(r)),
            None => None,
        },
    );
    let e = seq![("pagination"@, "true"@)];
    let q = query_pairs(page, page_size, name, use_regex);
    assert(q == a + b + c + d + e);
    let ab = a + b;
    let abc = ab + c;
    let abcd = abc + d;
    assert("page"@ != "page_size"@ && "page"@ != "name"@ && "page"@ != "use_regex"@ && "page"@
        != "pagination"@) by {
        assert("page"@.len() != "page_size"@.len());
        assert("page"@[0] != "name"@[0]);
        assert("page"@[0] != "use_regex"@[0]);
        assert("page"@.len() != "pagination"@.len());
    }
    assert("page_size"@ != "name"@ && "page_size"@ != "use_regex"@ && "page_size"@
        != "pagination"@) by {
        assert("page_size"@[0] != "name"@[0]);
        assert("page_size"@[0] != "use_regex"@[0]);
        assert("page_size"@[4] != "pagination"@[4]);
    }
    assert("name"@ != "use_regex"@ && "name"@ != "pagination"@ && "use_regex"@ != "pagination"@)
        by {
        assert("name"@[0] != "use_regex"@[0]);
        assert("name"@[0] != "pagination"@[0]);
        assert("use_regex"@[0] != "pagination"@[0]);
    }
    if page is Some {
        assert(q[0] == a[0]);
    }
    if page_size is Some {
        assert(q[a.len() as int] == b[0]);
    }
    if name is Some {
        assert(q[ab.len() as int] == c[0]);
    }
    if use_regex is Some {
        assert(q[abc.len() as int] == d[0]);
        assert(bool_text(use_regex->0) == (if use_regex->0 { "true"@ } else { "false"@ }));
    }
    assert forall|i: int| 0 <= i < q.len() implies {
        let (k, v) = #[trigger] q[i];
        &&& k == "page"@ ==> (page is Some && v == decimal(page->0 as nat))
        &&& k == "page_size"@ ==> (page_size is Some && v == decimal(page_size->0 as nat))
        &&& k == "name"@ ==> (name is Some && v == name->0)
        &&& k == "use_regex"@ ==> (use_regex is Some && v == (if use_regex->0 {
            "true"@
        } else {
            "false"@
        }))
        &&& k == "pagination"@ ==> v == "true"@
    } by {
        if i < a.len() {
            assert(q[i] == a[i]);
        } else if i < ab.len() {
            assert(q[i] == b[i - a.len()]);
        } else if i < abc.len() {
            assert(q[i] == c[i - ab.len()]);
        } else if i < abcd.len() {
            assert(q[i] == d[i - abc.len()]);
        } else {
            assert(q[i] == e[i - abcd.len()]);
        }
    }
}

/// A sequence of string pairs as plain sequences.
pub open spec fn pairs_view(v: Seq<(String, String)>) -> Seq<(Seq<char>, Seq<char>)> {
    v.map_values(|p: (String, String)| (p.0@, p.1@))
}

fn push_pair(v: &mut Vec<(String, String)>, key: &str, value: String)
    ensures
        pairs_view(final(v)@) == pairs_view(old(v)@) + seq![(key@, value@)],
{
    let ghost before = v@;
    v.push((String::from_str(key), value));
    proof {
        assert(pairs_view(v@) =~= pairs_view(before) + seq![(key@, value@)]);
    }
}

impl PaginationQuery {
    /// The plain view of the `name` filter.
    pub open spec fn name_view(&self) -> Option<Seq<char>> {
        match self.name {
            Some(n) => Some(n@),
            None => None,
        }
    }

    /// Convert to URL query string key/value pairs.
    ///
    /// Always includes `("pagination", "true")`, as the last pair, so the
    /// server returns a paginated response envelope; unset fields are left
    /// out.
    pub fn to_pairs(&self) -> (v: Vec<(String, String)>)
        ensures
            pairs_view(v@) == query_pairs(self.page, self.page_size, self.name_view(), self.use_regex),
            pairs_view(v@).last() == ("pagination"@, "true"@),
            v@.len() == 1 + (if self.page is Some { 1int } else { 0 }) + (if self.page_size is Some {
                1int
            } else {
                0
            }) + (if self.name is Some { 1int } else { 0 }) + (if self.use_regex is Some {
                1int
            } else {
                0
            }),
    {
        let mut v: Vec<(String, String)> = Vec::new();
        let ghost p0 = pairs_view(v@);
        if let Some(p) = self.page {
            push_pair(&mut v, "page", decimal_string(p as u64));
        }
        let ghost p1 = pairs_view(v@);
        if let Some(ps) = self.page_size {
            push_pair(&mut v, "page_size", decimal_string(ps as u64));
        }
        let ghost p2 = pairs_view(v@);
        if let Some(n) = &self.name {
            push_pair(&mut v, "name", n.clone());
        }
        let ghost p3 = pairs_view(v@);
        if let Some(r) = self.use_regex {
            if r {
                push_pair(&mut v, "use_regex", String::from_str("true"));
            } else {
                push_pair(&mut v, "use_regex", String::from_str("false"));
            }
        }
        push_pair(&mut v, "pagination", String::from_str("true"));
        proof {
            assert(p0 =~= Seq::<(Seq<char>, Seq<char>)>::empty());
            assert(pairs_view(v@) =~= query_pairs(
                self.page,
                self.page_size,
                self.name_view(),
                self.use_regex,
            ));
        }
        v
    }
}

} // verus!
