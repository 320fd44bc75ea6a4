//! Types shared across several Management API responses, and the reading
//! of user tags.
use vstd::prelude::*;

use crate::text::{chars_of, is_white_space, is_whitespace, push_char};

verus! {

/// Cluster-wide object counts, as returned by `GET /api/overview` under
/// `object_totals`. All fields are always present in the response.
#[derive(Debug, Clone)]
pub struct ObjectTotals {
    /// Number of channels in the cluster.
    pub channels: u64,
    /// Number of connections in the cluster.
    pub connections: u64,
    /// Number of consumers in the cluster.
    pub consumers: u64,
    /// Number of exchanges in the cluster.
    pub exchanges: u64,
    /// Number of queues in the cluster.
    pub queues: u64,
}

/// Cluster-wide message totals, as returned by `GET /api/overview` under
/// `queue_totals`. All fields are always present in the response.
#[derive(Debug, Clone)]
pub struct QueueTotals {
    /// Total messages across all queues (ready + unacknowledged).
    pub messages: u64,
    /// Total messages ready for delivery across all queues.
    pub messages_ready: u64,
    /// Total messages delivered but not yet acknowledged across all queues.
    pub messages_unacknowledged: u64,
}

/// `s` without its leading white space.
pub open spec fn trim_start(s: Seq<char>) -> Seq<char>
    decreases s.len(),
{
    if s.len() > 0 && is_white_space(s[0]) {
        trim_start(s.drop_first())
    } else {
        s
    }
}

/// `s` without its trailing white space.
pub open spec fn trim_end(s: Seq<char>) -> Seq<char>
    decreases s.len(),
{
    if s.len() > 0 && is_white_space(s.last()) {
        trim_end(s.drop_last())
    } else {
        s
    }
}

/// `s` without leading and trailing white space (what `str::trim` gives).
pub open spec fn trim(s: Seq<char>) -> Seq<char> {
    trim_end(trim_start(s))
}

/// The pieces of `s` between commas, as `str::split(',')` yields them
/// (there is always at least one piece).
pub open spec fn split_commas(s: Seq<char>) -> Seq<Seq<char>>
    decreases s.len(),
{
    if s.len() == 0 {
        seq![seq![]]
    } else {
        let p = split_commas(s.drop_last());
        if s.last() == ',' {
            p.push(seq![])
        } else {
            p.update(p.len() - 1, p.last().push(s.last()))
        }
    }
}

/// The trimmed pieces that are not empty, in order.
pub open spec fn nonempty_trimmed(pieces: Seq<Seq<char>>) -> Seq<Seq<char>>
    decreases pieces.len(),
{
    if pieces.len() == 0 {
        seq![]
    } else {
        let t = trim(pieces.last());
        nonempty_trimmed(pieces.drop_last()) + (if t.len() > 0 {
            seq![t]
        } else {
            seq![]
        })
    }
}

/// The tags of a comma-separated tag string: split on `,`, each piece
/// trimmed, empty pieces dropped.
pub open spec fn tags_from_text(s: Seq<char>) -> Seq<Seq<char>> {
    nonempty_trimmed(split_commas(s))
}

/// A sequence of strings as plain sequences.
pub open spec fn strings_view(v: Seq<String>) -> Seq<Seq<char>> {
    v.map_values(|x: String| x@)
}

proof fn lemma_trim_start_suffix(s: Seq<char>)
    ensures
        trim_start(s) == s.skip(s.len() - trim_start(s).len()),
        trim_start(s).len() <= s.len(),
    decreases s.len(),
{
    if s.len() > 0 && is_white_space(s[0]) {
        lemma_trim_start_suffix(s.drop_first());
        assert(s.drop_first().skip(s.len() - 1 - trim_start(s).len()) =~= s.skip(
            s.len() - trim_start(s).len(),
        ));
    } else {
        assert(s.skip(0) =~= s);
    }
}

proof fn lemma_trim_end_prefix(s: Seq<char>)
    ensures
        trim_end(s) == s.take(trim_end(s).len() as int),
        trim_end(s).len() <= s.len(),
    decreases s.len(),
{
    if s.len() > 0 && is_white_space(s.last()) {
        lemma_trim_end_prefix(s.drop_last());
        assert(s.drop_last().take(trim_end(s).len() as int) =~= s.take(trim_end(s).len() as int));
    } else {
        assert(s.take(s.len() as int) =~= s);
    }
}

proof fn lemma_trim_start_first(s: Seq<char>)
    ensures
        trim_start(s).len() > 0 ==> !is_white_space(trim_start(s)[0]),
    decreases s.len(),
{
    if s.len() > 0 && is_white_space(s[0]) {
        lemma_trim_start_first(s.drop_first());
    }
}

proof fn lemma_trim_end_last(s: Seq<char>)
    ensures
        trim_end(s).len() > 0 ==> !is_white_space(trim_end(s).last()),
    decreases s.len(),
{
    if s.len() > 0 && is_white_space(s.last()) {
        lemma_trim_end_last(s.drop_last());
    }
}

proof fn lemma_trim_end_keeps_first(s: Seq<char>)
    ensures
        trim_end(s).len() > 0 ==> trim_end(s)[0] == s[0],
    decreases s.len(),
{
    lemma_trim_end_prefix(s);
}

/// What `trim` keeps is a piece of the original: every character of
/// `trim(s)` occurs in `s`, and `trim(s)` neither starts nor ends with
/// white space.
proof fn lemma_trim_properties(s: Seq<char>)
    ensures
        forall|j: int| 0 <= j < trim(s).len() ==> s.contains(#[trigger] trim(s)[j]),
        trim(s).len() > 0 ==> !is_white_space(trim(s)[0]) && !is_white_space(trim(s).last()),
{
    let a = trim_start(s);
    lemma_trim_start_suffix(s);
    lemma_trim_end_prefix(a);
    lemma_trim_start_first(s);
    lemma_trim_end_last(a);
    lemma_trim_end_keeps_first(a);
    let k = s.len() - a.len();
    assert forall|j: int| 0 <= j < trim(s).len() implies s.contains(#[trigger] trim(s)[j]) by {
        assert(trim(s)[j] == a[j]);
        assert(a[j] == s[k + j]);
    }
}

proof fn lemma_split_commas_shape(s: Seq<char>)
    ensures
        split_commas(s).len() >= 1,
        forall|i: int, j: int|
            0 <= i < split_commas(s).len() && 0 <= j < split_commas(s)[i].len() ==> #[trigger] split_commas(
                s,
            )[i][j] != ',',
    decreases s.len(),
{
    if s.len() > 0 {
        lemma_split_commas_shape(s.drop_last());
        let p = split_commas(s.drop_last());
        if s.last() != ',' {
            let q = split_commas(s);
            assert forall|i: int, j: int|
                0 <= i < q.len() && 0 <= j < q[i].len() implies #[trigger] q[i][j] != ',' by {
                if i == p.len() - 1 {
                    if j < p.last().len() {
                        assert(q[i][j] == p[i][j]);
                    }
                } else {
                    assert(q[i] == p[i]);
                }
            }
        } else {
            let q = split_commas(s);
            assert forall|i: int, j: int|
                0 <= i < q.len() && 0 <= j < q[i].len() implies #[trigger] q[i][j] != ',' by {
                if i < p.len() {
                    assert(q[i] == p[i]);
                }
            }
        }
    }
}

proof fn lemma_nonempty_trimmed_shape(pieces: Seq<Seq<char>>)
    requires
        forall|i: int, j: int|
            0 <= i < pieces.len() && 0 <= j < pieces[i].len() ==> #[trigger] pieces[i][j] != ',',
    ensures
        forall|k: int|
            0 <= k < nonempty_trimmed(pieces).len() ==> {
                let t = #[trigger] nonempty_trimmed(pieces)[k];
                &&& t.len() > 0
                &&& !is_white_space(t[0])
                &&& !is_white_space(t.last())
                &&& !t.contains(',')
            },
    decreases pieces.len(),
{
    if pieces.len() > 0 {
        let rest = pieces.drop_last();
        assert forall|i: int, j: int|
            0 <= i < rest.len() && 0 <= j < rest[i].len() implies #[trigger] rest[i][j] != ',' by {
            assert(rest[i] == pieces[i]);
        }
        lemma_nonempty_trimmed_shape(rest);
        let last = pieces.last();
        let t = trim(last);
        lemma_trim_properties(last);
        let r = nonempty_trimmed(rest);
        let out = nonempty_trimmed(pieces);
        assert forall|k: int| 0 <= k < out.len() implies {
            let u = #[trigger] out[k];
            &&& u.len() > 0
            &&& !is_white_space(u[0])
            &&& !is_white_space(u.last())
            &&& !u.contains(',')
        } by {
            if k < r.len() {
                assert(out[k] == r[k]);
            } else {
                assert(out[k] == t);
                if t.contains(',') {
                    let j = choose|j: int| 0 <= j < t.len() && t[j] == ',';
                    assert(last.contains(t[j]));
                    let m = choose|m: int| 0 <= m < last.len() && last[m] == t[j];
                    assert(pieces[pieces.len() - 1][m] != ',');
                }
            }
        }
    }
}

/// Every tag read from a tag string is non-empty, starts and ends with a
/// character that is not white space, and holds no comma.
pub proof fn lemma_tags_are_clean(s: Seq<char>)
    ensures
        forall|k: int|
            0 <= k < tags_from_text(s).len() ==> {
                let t = #[trigger] tags_from_text(s)[k];
                &&& t.len() > 0
                &&& !is_white_space(t[0])
                &&& !is_white_space(t.last())
                &&& !t.contains(',')
            },
{
    lemma_split_commas_shape(s);
    lemma_nonempty_trimmed_shape(split_commas(s));
}

/// The tags `ts` written as RabbitMQ 3.12 does: joined with `,`.
pub open spec fn join_commas(ts: Seq<Seq<char>>) -> Seq<char>
    decreases ts.len(),
{
    if ts.len() == 0 {
        seq![]
    } else if ts.len() == 1 {
        ts[0]
    } else {
        join_commas(ts.drop_last()) + seq![','] + ts.last()
    }
}

/// Text without commas extends the last piece.
proof fn lemma_split_commas_append(y: Seq<char>, t: Seq<char>)
    requires
        !t.contains(','),
    ensures
        split_commas(y + t) == split_commas(y).update(
            split_commas(y).len() - 1,
            split_commas(y).last() + t,
        ),
    decreases t.len(),
{
    lemma_split_commas_shape(y);
    let s = split_commas(y);
    if t.len() == 0 {
        assert(y + t =~= y);
        assert(s.last() + t =~= s.last());
        assert(s.update(s.len() - 1, s.last() + t) =~= s);
    } else {
        let t1 = t.drop_last();
        let c = t.last();
        assert(!t1.contains(',')) by {
            if t1.contains(',') {
                let j = choose|j: int| 0 <= j < t1.len() && t1[j] == ',';
                assert(t[j] == ',');
            }
        }
        assert(c != ',') by {
            assert(t[t.len() - 1] == c);
        }
        lemma_split_commas_append(y, t1);
        let yt = y + t;
        assert(yt.drop_last() =~= y + t1);
        assert(yt.last() == c);
        let p = split_commas(y + t1);
        assert(p.len() == s.len());
        assert(p.last() == s.last() + t1);
        assert(s.last() + t1 + seq![c] =~= s.last() + t);
        assert(p.last().push(c) =~= s.last() + t);
        assert(p.update(p.len() - 1, p.last().push(c)) =~= s.update(s.len() - 1, s.last() + t));
    }
}

/// Splitting joined pieces that hold no comma gives the pieces back.
proof fn lemma_split_join(ts: Seq<Seq<char>>)
    requires
        ts.len() >= 1,
        forall|i: int| 0 <= i < ts.len() ==> !(#[trigger] ts[i]).contains(','),
    ensures
        split_commas(join_commas(ts)) == ts,
    decreases ts.len(),
{
    let t = ts.last();
    assert(!t.contains(',')) by {
        assert(ts[ts.len() - 1] == t);
    }
    if ts.len() == 1 {
        lemma_split_commas_append(seq![], t);
        assert(Seq::<char>::empty() + t =~= t);
        assert(split_commas(seq![]) == seq![Seq::<char>::empty()]);
        assert(seq![Seq::<char>::empty()].update(0, Seq::<char>::empty() + t) =~= ts);
    } else {
        let rest = ts.drop_last();
        assert forall|i: int| 0 <= i < rest.len() implies !(#[trigger] rest[i]).contains(',') by {
            assert(rest[i] == ts[i]);
        }
        lemma_split_join(rest);
        let x = join_commas(rest);
        let y = x + seq![','];
        assert(y.drop_last() =~= x);
        assert(y.last() == ',');
        assert(split_commas(y) == rest.push(seq![]));
        lemma_split_commas_append(y, t);
        assert(join_commas(ts) == y + t);
        assert(Seq::<char>::empty() + t =~= t);
        assert(rest.push(seq![]).update(rest.len() as int, Seq::<char>::empty() + t) =~= ts);
    }
}

/// Pieces that are already trimmed and not empty are all kept, unchanged.
proof fn lemma_nonempty_trimmed_clean(ts: Seq<Seq<char>>)
    requires
        forall|i: int| 0 <= i < ts.len() ==> (#[trigger] ts[i]).len() > 0 && trim(ts[i]) == ts[i],
    ensures
        nonempty_trimmed(ts) == ts,
    decreases ts.len(),
{
    if ts.len() > 0 {
        let rest = ts.drop_last();
        assert forall|i: int| 0 <= i < rest.len() implies (#[trigger] rest[i]).len() > 0 && trim(
            rest[i],
        ) == rest[i] by {
            assert(rest[i] == ts[i]);
        }
        lemma_nonempty_trimmed_clean(rest);
        assert(ts[ts.len() - 1] == ts.last());
        assert(rest + seq![ts.last()] =~= ts);
    }
}

/// Both shapes RabbitMQ sends tags in give the same tags: for tags that
/// are non-empty, hold no comma and have no white space around them, the
/// comma-joined string (RabbitMQ 3.12) reads back as exactly those tags,
/// which is what the JSON array (RabbitMQ 4.x) holds.
pub proof fn lemma_joined_tags_read_back(ts: Seq<Seq<char>>)
    requires
        forall|i: int|
            0 <= i < ts.len() ==> {
                &&& (#[trigger] ts[i]).len() > 0
                &&& !ts[i].contains(',')
                &&& trim(ts[i]) == ts[i]
            },
    ensures
        tags_from_text(join_commas(ts)) == ts,
{
    if ts.len() == 0 {
        let e = Seq::<char>::empty();
        assert(split_commas(e) == seq![e]);
        assert(trim_start(e) == e);
        assert(trim(e) == e);
        let one = seq![e];
        assert(one.drop_last() =~= Seq::<Seq<char>>::empty());
        assert(one.last() == e);
        assert(nonempty_trimmed(one.drop_last()) == Seq::<Seq<char>>::empty());
        assert(nonempty_trimmed(one) =~= ts);
    } else {
        lemma_split_join(ts);
        lemma_nonempty_trimmed_clean(ts);
    }
}

proof fn lemma_join_commas_last(ps: Seq<Seq<char>>, x: Seq<char>)
    requires
        ps.len() >= 1,
    ensures
        join_commas(ps.update(ps.len() - 1, x)) == (if ps.len() == 1 {
            x
        } else {
            join_commas(ps.drop_last()) + seq![','] + x
        }),
{
    let q = ps.update(ps.len() - 1, x);
    assert(q.drop_last() =~= ps.drop_last());
    assert(q.last() == x);
    if ps.len() == 1 {
        assert(q[0] == x);
    }
}

/// The pieces of a comma split hold no comma and, joined with `,`, give
/// back the whole string: they are exactly the text between the commas.
pub proof fn lemma_split_commas_rejoins(s: Seq<char>)
    ensures
        split_commas(s).len() >= 1,
        join_commas(split_commas(s)) == s,
        forall|i: int, j: int|
            0 <= i < split_commas(s).len() && 0 <= j < split_commas(s)[i].len() ==> #[trigger] split_commas(
                s,
            )[i][j] != ',',
    decreases s.len(),
{
    lemma_split_commas_shape(s);
    if s.len() == 0 {
        assert(join_commas(seq![Seq::<char>::empty()]) == Seq::<char>::empty());
    } else {
        let s1 = s.drop_last();
        let c = s.last();
        lemma_split_commas_rejoins(s1);
        let p = split_commas(s1);
        if c == ',' {
            let q = p.push(seq![]);
            assert(q.drop_last() =~= p);
            assert(q.last() == Seq::<char>::empty());
            assert(join_commas(q) == s1 + seq![','] + Seq::<char>::empty());
            assert(s1 + seq![','] + Seq::<char>::empty() =~= s);
        } else {
            lemma_join_commas_last(p, p.last().push(c));
            if p.len() == 1 {
                assert(p[0] == p.last());
                assert(p.last().push(c) =~= s);
            } else {
                lemma_join_commas_last(p, p.last());
                assert(p.update(p.len() - 1, p.last()) =~= p);
                assert(join_commas(p.drop_last()) + seq![','] + p.last().push(c) =~= s1.push(c));
                assert(s1.push(c) =~= s);
            }
        }
    }
}

proof fn lemma_trim_start_drops_white_space(s: Seq<char>)
    ensures
        forall|k: int| 0 <= k < s.len() - trim_start(s).len() ==> is_white_space(#[trigger] s[k]),
    decreases s.len(),
{
    if s.len() > 0 && is_white_space(s[0]) {
        let r = s.drop_first();
        lemma_trim_start_drops_white_space(r);
        assert forall|k: int| 0 <= k < s.len() - trim_start(s).len() implies is_white_space(
            #[trigger] s[k],
        ) by {
            if k > 0 {
                assert(s[k] == r[k - 1]);
            }
        }
    }
}

proof fn lemma_trim_end_drops_white_space(s: Seq<char>)
    ensures
        forall|k: int| trim_end(s).len() <= k < s.len() ==> is_white_space(#[trigger] s[k]),
    decreases s.len(),
{
    if s.len() > 0 && is_white_space(s.last()) {
        let r = s.drop_last();
        lemma_trim_end_drops_white_space(r);
        assert forall|k: int| trim_end(s).len() <= k < s.len() implies is_white_space(
            #[trigger] s[k],
        ) by {
            if k < s.len() - 1 {
                assert(s[k] == r[k]);
            }
        }
    }
}

/// `trim(s)` is `s` without the white space around it: a stretch of `s`
/// with only white space before and after it, that neither starts nor
/// ends with white space (so it is empty exactly when `s` is all white
/// space).
pub proof fn lemma_trim_strips_white_space(s: Seq<char>)
    ensures
        exists|i: int, j: int|
            0 <= i <= j <= s.len() && trim(s) == s.subrange(i, j) && (forall|k: int|
                0 <= k < i ==> is_white_space(#[trigger] s[k])) && (forall|k: int|
                j <= k < s.len() ==> is_white_space(#[trigger] s[k])),
        trim(s).len() > 0 ==> !is_white_space(trim(s)[0]) && !is_white_space(trim(s).last()),
{
    let a = trim_start(s);
    lemma_trim_start_suffix(s);
    lemma_trim_end_prefix(a);
    lemma_trim_start_drops_white_space(s);
    lemma_trim_end_drops_white_space(a);
    lemma_trim_properties(s);
    let i = s.len() - a.len();
    let j = i + trim(s).len();
    assert(trim(s) =~= s.subrange(i, j));
    assert forall|k: int| j <= k < s.len() implies is_white_space(#[trigger] s[k]) by {
        assert(s[k] == a[k - i]);
    }
}

/// The tags of a tag string are its comma-separated pieces, each trimmed,
/// in order, leaving out those that are empty once trimmed.
pub proof fn lemma_tags_are_trimmed_pieces(s: Seq<char>)
    ensures
        tags_from_text(s) == split_commas(s).map_values(trim_piece()).filter(kept_piece()),
{
    lemma_nonempty_trimmed_filter(split_commas(s));
}

/// Trimming a piece.
pub open spec fn trim_piece() -> spec_fn(Seq<char>) -> Seq<char> {
    |p: Seq<char>| trim(p)
}

/// Whether a trimmed piece is kept: it is not empty.
pub open spec fn kept_piece() -> spec_fn(Seq<char>) -> bool {
    |t: Seq<char>| t.len() > 0
}

proof fn lemma_nonempty_trimmed_filter(ps: Seq<Seq<char>>)
    ensures
        nonempty_trimmed(ps) == ps.map_values(trim_piece()).filter(kept_piece()),
    decreases ps.len(),
{
    reveal(Seq::filter);
    let m = ps.map_values(trim_piece());
    if ps.len() > 0 {
        lemma_nonempty_trimmed_filter(ps.drop_last());
        assert(m.drop_last() =~= ps.drop_last().map_values(trim_piece()));
        assert(m.last() == trim(ps.last()));
        let t = trim(ps.last());
        let f = m.drop_last().filter(kept_piece());
        assert(m.filter(kept_piece()) == (if kept_piece()(m.last()) {
            f.push(m.last())
        } else {
            f
        }));
        if t.len() > 0 {
            assert(f + seq![t] =~= f.push(t));
        } else {
            assert(f + Seq::<Seq<char>>::empty() =~= f);
        }
    } else {
        assert(m =~= Seq::<Seq<char>>::empty());
    }
}

/// The characters `v[start..end]` as a new string.
fn collect_range(v: &Vec<char>, start: usize, end: usize) -> (r: String)
    requires
        start <= end <= v@.len(),
    ensures
        r@ == v@.subrange(start as int, end as int),
{
    let mut out = String::new();
    let mut i = start;
    while i < end
        invariant
            start <= i <= end,
            end <= v@.len(),
            out@ == v@.subrange(start as int, i as int),
        decreases end - i,
    {
        push_char(&mut out, v[i]);
        proof {
            assert(out@ =~= v@.subrange(start as int, i + 1));
        }
        i = i + 1;
    }
    out
}

/// `v` without leading and trailing white space, as a string.
fn trimmed(v: &Vec<char>) -> (r: String)
    ensures
        r@ == trim(v@),
{
    let n = v.len();
    let mut start: usize = 0;
    proof {
        assert(v@.skip(0) =~= v@);
    }
    loop
        invariant
            start <= n,
            n == v@.len(),
            trim_start(v@) == trim_start(v@.skip(start as int)),
        ensures
            start <= n,
            trim_start(v@) == v@.skip(start as int),
        decreases n - start,
    {
        if start == n {
            assert(v@.skip(start as int) =~= Seq::<char>::empty());
            break;
        }
        if !is_whitespace(v[start]) {
            assert(v@.skip(start as int)[0] == v@[start as int]);
            break;
        }
        proof {
            assert(v@.skip(start as int).drop_first() =~= v@.skip(start + 1));
        }
        start = start + 1;
    }
    let mut end: usize = n;
    proof {
        assert(v@.skip(start as int) =~= v@.subrange(start as int, n as int));
    }
    loop
        invariant
            start <= end <= n,
            n == v@.len(),
            trim(v@) == trim_end(v@.subrange(start as int, end as int)),
        ensures
            start <= end <= n,
            trim(v@) == v@.subrange(start as int, end as int),
        decreases end - start,
    {
        if end == start {
            assert(v@.subrange(start as int, end as int) =~= Seq::<char>::empty());
            break;
        }
        if !is_whitespace(v[end - 1]) {
            assert(v@.subrange(start as int, end as int).last() == v@[end - 1]);
            break;
        }
        proof {
            assert(v@.subrange(start as int, end as int).drop_last() =~= v@.subrange(
                start as int,
                end - 1,
            ));
        }
        end = end - 1;
    }
    collect_range(v, start, end)
}

/// Read the tags of a user from RabbitMQ 3.12's comma-separated form
/// (e.g. `"administrator, management"`): split on `,`, trim white space
/// around each tag and drop empty tags. (RabbitMQ 4.x sends a JSON array
/// instead, taken as it is.)
pub fn split_tags(s: &str) -> (tags: Vec<String>)
    ensures
        strings_view(tags@) == tags_from_text(s@),
{
    let cs = chars_of(s);
    let mut out: Vec<String> = Vec::new();
    let mut cur: Vec<char> = Vec::new();
    let ghost mut done: Seq<Seq<char>> = seq![];
    let n = cs.len();
    proof {
        assert(s@.take(0) =~= Seq::<char>::empty());
        assert(done.push(cur@) =~= seq![Seq::<char>::empty()]);
        assert(strings_view(out@) =~= Seq::<Seq<char>>::empty());
    }
    for i in 0..n
        invariant
            n == cs@.len(),
            cs@ == s@,
            split_commas(s@.take(i as int)) == done.push(cur@),
            strings_view(out@) == nonempty_trimmed(done),
    {
        let c = cs[i];
        let ghost pre = s@.take(i as int);
        proof {
            assert(s@.take(i + 1).drop_last() =~= pre);
            assert(s@.take(i + 1).last() == c);
        }
        if c == ',' {
            let t = trimmed(&cur);
            let ghost before = out@;
            if !t.as_str().is_empty() {
                out.push(t);
            }
            proof {
                let d2 = done.push(cur@);
                assert(d2.drop_last() =~= done);
                assert(d2.last() == cur@);
                assert(strings_view(out@) =~= nonempty_trimmed(d2));
                done = d2;
            }
            cur = Vec::new();
            proof {
                assert(split_commas(s@.take(i + 1)) =~= done.push(cur@));
            }
        } else {
            let ghost old_cur = cur@;
            cur.push(c);
            proof {
                let p = done.push(old_cur);
                assert(p.update(p.len() - 1, p.last().push(c)) =~= done.push(cur@));
            }
        }
    }
    let t = trimmed(&cur);
    if !t.as_str().is_empty() {
        out.push(t);
    }
    proof {
        let d2 = done.push(cur@);
        assert(s@.take(n as int) =~= s@);
        assert(d2.drop_last() =~= done);
        assert(strings_view(out@) =~= nonempty_trimmed(d2));
    }
    out
}

} // verus!
