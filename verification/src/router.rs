//! Path pattern matching.
//!
//! An endpoint pattern is a `/`-delimited sequence of segments, each one of:
//!
//! - a __literal__ segment, which matches only itself (`/a/b`);
//! - a __param__ (`/a/:b`), which matches any one non-empty segment and
//!   binds its name to it;
//! - a __named wildcard__ (`/a/*b`), which matches the whole non-empty
//!   remainder of the path and binds its name to it;
//! - an __unnamed wildcard__ (`/a/*`), which matches the remainder and
//!   captures nothing.
//!
//! A wildcard matches the remainder of the path and everything after, so
//! segments written after one never match anything. One leading `/` on a
//! pattern or a path is ignored.
//!
//! [Router] pairs patterns with handlers. [Router::recognize] resolves a
//! path to the matching pattern with the highest specificity — most literal
//! segments first, then most params, then most wildcards — and hands back
//! the bindings of its named params and wildcards. Among patterns of equal
//! specificity that both match, the first registered wins.

use vstd::prelude::*;

use crate::strings::find_char_from;
use crate::strings::find_idx;
use crate::strings::split_on;
use crate::varmap::VarMap;

verus! {

/// One segment of an endpoint pattern.
pub enum Segment {
    /// A literal segment: matches only itself.
    Literal(String),
    /// `:name`: matches any one non-empty path segment.
    Param(String),
    /// `*name`: matches the non-empty remainder of the path.
    WildcardNamed(String),
    /// `*`: matches the non-empty remainder, capturing nothing.
    Wildcard,
}

/// The mathematical shape of a pattern segment.
pub enum SegView {
    Literal(Seq<char>),
    Param(Seq<char>),
    WildcardNamed(Seq<char>),
    Wildcard,
}

impl View for Segment {
    type V = SegView;

    open spec fn view(&self) -> SegView {
        match self {
            Segment::Literal(s) => SegView::Literal(s@),
            Segment::Param(s) => SegView::Param(s@),
            Segment::WildcardNamed(s) => SegView::WildcardNamed(s@),
            Segment::Wildcard => SegView::Wildcard,
        }
    }
}

/// The views of a sequence of strings.
pub open spec fn strs_view(v: Seq<String>) -> Seq<Seq<char>> {
    v.map_values(|s: String| s@)
}

/// The views of a sequence of pattern segments.
pub open spec fn pat_view(p: Seq<Segment>) -> Seq<SegView> {
    p.map_values(|s: Segment| s@)
}

/// What one piece of an endpoint pattern denotes, by its leading character.
pub open spec fn seg_view_of(p: Seq<char>) -> SegView {
    if p.len() > 0 && p[0] == ':' {
        SegView::Param(p.subrange(1, p.len() as int))
    } else if p.len() > 0 && p[0] == '*' {
        if p.len() == 1 {
            SegView::Wildcard
        } else {
            SegView::WildcardNamed(p.subrange(1, p.len() as int))
        }
    } else {
        SegView::Literal(p)
    }
}

/// A path or pattern with one leading `/` taken off.
pub open spec fn strip_slash(s: Seq<char>) -> Seq<char> {
    if s.len() > 0 && s[0] == '/' {
        s.subrange(1, s.len() as int)
    } else {
        s
    }
}

/// The segments an endpoint pattern denotes.
pub open spec fn pattern_of(s: Seq<char>) -> Seq<SegView> {
    split_on(strip_slash(s), '/').map_values(|p: Seq<char>| seg_view_of(p))
}

/// The segments of a request path.
pub open spec fn path_segs(s: Seq<char>) -> Seq<Seq<char>> {
    split_on(strip_slash(s), '/')
}

/// Split a string on `/`, one leading `/` ignored, handing back owned
/// segments.
fn split_path(path: &str) -> (r: Vec<String>)
    ensures
        strs_view(r@) == path_segs(path@),
{
    let n = path.unicode_len();
    let start: usize = if n > 0 && path.get_char(0) == '/' {
        1
    } else {
        0
    };
    let ghost stripped = strip_slash(path@);
    proof {
        assert(stripped =~= path@.subrange(start as int, n as int));
    }
    let ghost pieces = split_on(stripped, '/');
    let mut out: Vec<String> = Vec::new();
    let mut p: usize = start;
    proof {
        assert(strs_view(out@) =~= Seq::<Seq<char>>::empty());
        assert(pieces.take(0) =~= Seq::<Seq<char>>::empty());
        assert(pieces =~= pieces.take(0) + split_on(path@.subrange(start as int, n as int), '/'));
    }
    loop
        invariant
            start <= p <= n,
            n == path@.len(),
            pieces == path_segs(path@),
            0 <= out@.len() < pieces.len(),
            pieces == pieces.take(out@.len() as int) + split_on(
                path@.subrange(p as int, n as int),
                '/',
            ),
            strs_view(out@) == pieces.take(out@.len() as int),
        decreases n - p,
    {
        let ghost rem = path@.subrange(p as int, n as int);
        let ghost done = out@.len() as int;
        let cut = find_char_from(path, '/', p);
        proof {
            assert(find_idx(rem, '/') == cut - p);
        }
        let piece = path.substring_char(p, cut);
        proof {
            assert(piece@ == rem.subrange(0, cut - p));
            if cut < n {
                assert(split_on(rem, '/') == seq![piece@] + split_on(
                    rem.subrange(cut - p + 1, rem.len() as int),
                    '/',
                ));
            } else {
                assert(split_on(rem, '/') == seq![piece@]);
            }
            assert(pieces[done] == piece@);
        }
        out.push(piece.to_owned());
        proof {
            assert(strs_view(out@) =~= pieces.take(done + 1)) by {
                assert(strs_view(out@).len() == done + 1);
                assert(forall|j: int|
                    0 <= j < done + 1 ==> strs_view(out@)[j] == out@[j]@);
            }
        }
        if cut == n {
            proof {
                assert(pieces =~= pieces.take(done + 1));
                assert(strs_view(out@) == pieces);
            }
            return out;
        }
        proof {
            assert(rem.subrange(cut - p + 1, rem.len() as int) =~= path@.subrange(
                cut + 1,
                n as int,
            ));
        }
        p = cut + 1;
    }
}

/// Parse an endpoint pattern into its segments.
fn parse_endpoint(endpoint: &str) -> (r: Vec<Segment>)
    ensures
        pat_view(r@) == pattern_of(endpoint@),
{
    let pieces = split_path(endpoint);
    let mut out: Vec<Segment> = Vec::new();
    let mut i: usize = 0;
    while i < pieces.len()
        invariant
            0 <= i <= pieces@.len(),
            out@.len() == i,
            pieces@.len() == pattern_of(endpoint@).len(),
            strs_view(pieces@) == path_segs(endpoint@),
            pat_view(out@) == pattern_of(endpoint@).take(i as int),
        decreases pieces@.len() - i,
    {
        let piece: &String = &pieces[i];
        let plen = piece.as_str().unicode_len();
        let seg: Segment = if plen > 0 && piece.as_str().get_char(0) == ':' {
            Segment::Param(piece.as_str().substring_char(1, plen).to_owned())
        } else if plen > 0 && piece.as_str().get_char(0) == '*' {
            if plen == 1 {
                Segment::Wildcard
            } else {
                Segment::WildcardNamed(piece.as_str().substring_char(1, plen).to_owned())
            }
        } else {
            Segment::Literal(piece.clone())
        };
        proof {
            assert(strs_view(pieces@)[i as int] == pieces@[i as int]@);
            assert(seg@ == seg_view_of(pieces@[i as int]@));
            assert(pattern_of(endpoint@)[i as int] == seg_view_of(strs_view(pieces@)[i as int]));
        }
        out.push(seg);
        proof {
            assert(pat_view(out@) =~= pattern_of(endpoint@).take(i + 1)) by {
                assert(pat_view(out@).len() == i + 1);
                assert(forall|j: int| 0 <= j < i + 1 ==> pat_view(out@)[j] == out@[j]@);
                assert(forall|j: int|
                    0 <= j < i ==> pattern_of(endpoint@).take(i as int)[j] == pattern_of(
                        endpoint@,
                    )[j]);
            }
        }
        i = i + 1;
    }
    proof {
        assert(pattern_of(endpoint@).take(pieces@.len() as int) =~= pattern_of(endpoint@));
    }
    out
}

/// Path segments joined back with `/` between them: the remainder of a path
/// as a wildcard captures it.
pub open spec fn joined(segs: Seq<Seq<char>>) -> Seq<char>
    decreases segs.len(),
{
    if segs.len() == 0 {
        Seq::empty()
    } else if segs.len() == 1 {
        segs[0]
    } else {
        joined(segs.drop_last()) + seq!['/'] + segs.last()
    }
}

/// Whether a pattern matches a path, segment by segment: a literal matches
/// itself, a param matches any one non-empty segment, and a wildcard — only
/// as a pattern's last segment — matches a non-empty remainder.
pub open spec fn seg_match(pat: Seq<SegView>, path: Seq<Seq<char>>) -> bool
    decreases pat.len(),
{
    if pat.len() == 0 {
        path.len() == 0
    } else {
        match pat[0] {
            SegView::Literal(l) => path.len() > 0 && path[0] == l && seg_match(
                pat.drop_first(),
                path.drop_first(),
            ),
            SegView::Param(_) => path.len() > 0 && path[0].len() > 0 && seg_match(
                pat.drop_first(),
                path.drop_first(),
            ),
            SegView::WildcardNamed(_) => pat.len() == 1 && joined(path).len() > 0,
            SegView::Wildcard => pat.len() == 1 && joined(path).len() > 0,
        }
    }
}

/// The bindings a matching pattern extracts, added onto `acc`: each named
/// param its segment, a named wildcard the joined remainder.
pub open spec fn seg_bindings_acc(
    pat: Seq<SegView>,
    path: Seq<Seq<char>>,
    acc: Map<Seq<char>, Seq<char>>,
) -> Map<Seq<char>, Seq<char>>
    decreases pat.len(),
{
    if pat.len() == 0 {
        acc
    } else {
        match pat[0] {
            SegView::Literal(_) => seg_bindings_acc(pat.drop_first(), path.drop_first(), acc),
            SegView::Param(name) => seg_bindings_acc(
                pat.drop_first(),
                path.drop_first(),
                if name.len() == 0 {
                    acc
                } else {
                    acc.insert(name, if path.len() > 0 { path[0] } else { Seq::empty() })
                },
            ),
            SegView::WildcardNamed(name) => acc.insert(name, joined(path)),
            SegView::Wildcard => acc,
        }
    }
}

/// The bindings a matching pattern extracts from a path.
pub open spec fn seg_bindings(pat: Seq<SegView>, path: Seq<Seq<char>>) -> Map<Seq<char>, Seq<char>> {
    seg_bindings_acc(pat, path, Map::empty())
}

/// Join the tail of a segment list, from `from` on, with `/` between the
/// pieces.
fn join_tail(segs: &Vec<String>, from: usize) -> (r: String)
    requires
        from < segs@.len(),
    ensures
        r@ == joined(strs_view(segs@).subrange(from as int, segs@.len() as int)),
{
    let ghost tail = strs_view(segs@).subrange(from as int, segs@.len() as int);
    let n = segs.len();
    let mut r = segs[from].clone();
    let mut j: usize = from + 1;
    proof {
        assert(tail.subrange(0, 1) =~= seq![strs_view(segs@)[from as int]]);
        assert(strs_view(segs@)[from as int] == segs@[from as int]@);
        assert(joined(tail.subrange(0, 1)) == segs@[from as int]@);
    }
    while j < n
        invariant
            from < j <= n,
            n == segs@.len(),
            tail == strs_view(segs@).subrange(from as int, segs@.len() as int),
            r@ == joined(tail.subrange(0, j - from)),
        decreases n - j,
    {
        r.append("/");
        r.append(segs[j].as_str());
        proof {
            let prev = tail.subrange(0, j - from);
            let cur = tail.subrange(0, j + 1 - from);
            assert(cur.drop_last() =~= prev);
            assert(cur.last() == strs_view(segs@)[j as int]);
            assert(strs_view(segs@)[j as int] == segs@[j as int]@);
            assert(r@ == joined(prev) + "/"@ + segs@[j as int]@);
            assert("/"@ =~= seq!['/']) by {
                reveal_strlit("/");
            }
        }
        j = j + 1;
    }
    proof {
        assert(tail.subrange(0, segs@.len() - from) =~= tail);
    }
    r
}

/// Try one pattern against the segments of a path: the bindings when it
/// matches, nothing when it does not.
fn try_match(pattern: &Vec<Segment>, segs: &Vec<String>) -> (r: Option<VarMap>)
    ensures
        r is Some <==> seg_match(pat_view(pattern@), strs_view(segs@)),
        r matches Some(p) ==> p@ == seg_bindings(pat_view(pattern@), strs_view(segs@)),
{
    let ghost fullpat = pat_view(pattern@);
    let ghost fullpath = strs_view(segs@);
    let mut params = VarMap::new();
    let mut i: usize = 0;
    proof {
        assert(fullpat.skip(0) =~= fullpat);
        assert(fullpath.skip(0) =~= fullpath);
    }
    while i < pattern.len()
        invariant
            0 <= i <= pattern@.len(),
            i <= segs@.len(),
            fullpat == pat_view(pattern@),
            fullpath == strs_view(segs@),
            seg_match(fullpat, fullpath) <==> seg_match(
                fullpat.skip(i as int),
                fullpath.skip(i as int),
            ),
            seg_match(fullpat, fullpath) ==> seg_bindings(fullpat, fullpath) == seg_bindings_acc(
                fullpat.skip(i as int),
                fullpath.skip(i as int),
                params@,
            ),
        decreases pattern@.len() - i,
    {
        let ghost curpat = fullpat.skip(i as int);
        let ghost curpath = fullpath.skip(i as int);
        proof {
            assert(curpat[0] == fullpat[i as int]);
            assert(fullpat[i as int] == pattern@[i as int]@);
            assert(curpat.drop_first() =~= fullpat.skip(i + 1));
            assert(curpath.len() > 0 ==> curpath.drop_first() =~= fullpath.skip(i + 1));
            assert(curpath.len() > 0 ==> curpath[0] == fullpath[i as int]
                && fullpath[i as int] == segs@[i as int]@);
        }
        match &pattern[i] {
            Segment::Literal(l) => {
                if i >= segs.len() {
                    return None;
                }
                if !crate::strings::str_eq(l.as_str(), segs[i].as_str()) {
                    return None;
                }
            },
            Segment::Param(name) => {
                if i >= segs.len() {
                    return None;
                }
                if segs[i].as_str().unicode_len() == 0 {
                    return None;
                }
                if name.as_str().unicode_len() > 0 {
                    params.insert(name.clone(), segs[i].clone());
                }
            },
            Segment::WildcardNamed(name) => {
                if i + 1 != pattern.len() {
                    return None;
                }
                if i >= segs.len() {
                    proof {
                        assert(curpath =~= Seq::<Seq<char>>::empty());
                        assert(joined(curpath).len() == 0);
                    }
                    return None;
                }
                let rest = join_tail(segs, i);
                proof {
                    assert(fullpath.skip(i as int) =~= strs_view(segs@).subrange(
                        i as int,
                        segs@.len() as int,
                    ));
                }
                if rest.as_str().unicode_len() == 0 {
                    return None;
                }
                params.insert(name.clone(), rest);
                proof {
                    assert(curpat.len() == 1);
                    assert(seg_match(curpat, curpath));
                }
                return Some(params);
            },
            Segment::Wildcard => {
                if i + 1 != pattern.len() {
                    return None;
                }
                if i >= segs.len() {
                    proof {
                        assert(curpath =~= Seq::<Seq<char>>::empty());
                        assert(joined(curpath).len() == 0);
                    }
                    return None;
                }
                let rest = join_tail(segs, i);
                proof {
                    assert(fullpath.skip(i as int) =~= strs_view(segs@).subrange(
                        i as int,
                        segs@.len() as int,
                    ));
                }
                if rest.as_str().unicode_len() == 0 {
                    return None;
                }
                proof {
                    assert(curpat.len() == 1);
                    assert(seg_match(curpat, curpath));
                }
                return Some(params);
            },
        }
        i = i + 1;
    }
    proof {
        assert(fullpat.skip(pattern@.len() as int) =~= Seq::<SegView>::empty());
    }
    if i == segs.len() {
        proof {
            assert(fullpath.skip(i as int) =~= Seq::<Seq<char>>::empty());
            assert(seg_match(fullpat.skip(i as int), fullpath.skip(i as int)));
        }
        Some(params)
    } else {
        proof {
            assert(fullpath.skip(i as int).len() > 0);
        }
        None
    }
}

/// How many literal segments a pattern has.
pub open spec fn statics_of(p: Seq<SegView>) -> int
    decreases p.len(),
{
    if p.len() == 0 {
        0
    } else {
        statics_of(p.drop_last()) + if p.last() is Literal {
            1int
        } else {
            0int
        }
    }
}

/// How many param segments a pattern has.
pub open spec fn dynamics_of(p: Seq<SegView>) -> int
    decreases p.len(),
{
    if p.len() == 0 {
        0
    } else {
        dynamics_of(p.drop_last()) + if p.last() is Param {
            1int
        } else {
            0int
        }
    }
}

/// How many wildcard segments a pattern has, named or not.
pub open spec fn wildcards_of(p: Seq<SegView>) -> int
    decreases p.len(),
{
    if p.len() == 0 {
        0
    } else {
        wildcards_of(p.drop_last()) + if p.last() is WildcardNamed || p.last() is Wildcard {
            1int
        } else {
            0int
        }
    }
}

/// Whether pattern `a` is strictly more specific than pattern `b`: more
/// literal segments, or as many and more params, or as many of both and
/// more wildcards.
pub open spec fn more_specific(a: Seq<SegView>, b: Seq<SegView>) -> bool {
    ||| statics_of(a) > statics_of(b)
    ||| (statics_of(a) == statics_of(b) && dynamics_of(a) > dynamics_of(b))
    ||| (statics_of(a) == statics_of(b) && dynamics_of(a) == dynamics_of(b) && wildcards_of(a)
        > wildcards_of(b))
}

/// The number of literal, param and wildcard segments of a pattern.
fn seg_counts(p: &Vec<Segment>) -> (r: (usize, usize, usize))
    ensures
        r.0 == statics_of(pat_view(p@)),
        r.1 == dynamics_of(pat_view(p@)),
        r.2 == wildcards_of(pat_view(p@)),
{
    let ghost full = pat_view(p@);
    let mut statics: usize = 0;
    let mut dynamics: usize = 0;
    let mut wildcards: usize = 0;
    let mut i: usize = 0;
    proof {
        assert(full.take(0) =~= Seq::<SegView>::empty());
    }
    while i < p.len()
        invariant
            0 <= i <= p@.len(),
            full == pat_view(p@),
            full.len() == p@.len(),
            statics <= i && dynamics <= i && wildcards <= i,
            statics == statics_of(full.take(i as int)),
            dynamics == dynamics_of(full.take(i as int)),
            wildcards == wildcards_of(full.take(i as int)),
        decreases p@.len() - i,
    {
        proof {
            assert(full.take(i + 1).drop_last() =~= full.take(i as int));
            assert(full.take(i + 1).last() == full[i as int]);
            assert(full[i as int] == p@[i as int]@);
        }
        match &p[i] {
            Segment::Literal(_) => {
                statics = statics + 1;
            },
            Segment::Param(_) => {
                dynamics = dynamics + 1;
            },
            Segment::WildcardNamed(_) => {
                wildcards = wildcards + 1;
            },
            Segment::Wildcard => {
                wildcards = wildcards + 1;
            },
        }
        i = i + 1;
    }
    proof {
        assert(full.take(p@.len() as int) =~= full);
    }
    (statics, dynamics, wildcards)
}

/// Whether pattern `a` is strictly more specific than pattern `b`.
fn is_more_specific(a: &Vec<Segment>, b: &Vec<Segment>) -> (r: bool)
    ensures
        r == more_specific(pat_view(a@), pat_view(b@)),
{
    let (sa, da, wa) = seg_counts(a);
    let (sb, db, wb) = seg_counts(b);
    sa > sb || (sa == sb && da > db) || (sa == sb && da == db && wa > wb)
}

/// The route the router resolves a path to, among the first `n` registered
/// routes: the index of the most specific matching pattern, the first
/// registered winning ties, or `-1` when none matches.
pub open spec fn best_idx<T>(
    routes: Seq<(Seq<SegView>, T)>,
    path: Seq<Seq<char>>,
    n: int,
) -> int
    decreases n,
{
    if n <= 0 {
        -1
    } else {
        let prev = best_idx(routes, path, n - 1);
        if !seg_match(routes[n - 1].0, path) {
            prev
        } else if prev < 0 {
            n - 1
        } else if more_specific(routes[n - 1].0, routes[prev].0) {
            n - 1
        } else {
            prev
        }
    }
}

/// What `best_idx` points at: a matching route when any route matches —
/// and a maximal one: no other matching route is strictly more specific.
pub proof fn lemma_best_idx_props<T>(routes: Seq<(Seq<SegView>, T)>, path: Seq<Seq<char>>, n: int)
    requires
        0 <= n <= routes.len(),
    ensures
        -1 <= best_idx(routes, path, n) < n,
        best_idx(routes, path, n) >= 0 ==> seg_match(
            routes[best_idx(routes, path, n)].0,
            path,
        ),
        best_idx(routes, path, n) == -1 <==> (forall|i: int|
            0 <= i < n ==> !seg_match((#[trigger] routes[i]).0, path)),
        forall|i: int|
            0 <= i < n && seg_match((#[trigger] routes[i]).0, path) ==> !more_specific(
                routes[i].0,
                routes[best_idx(routes, path, n)].0,
            ),
    decreases n,
{
    if n > 0 {
        lemma_best_idx_props(routes, path, n - 1);
    }
}

/// A successful route resolution: which route matched and the bindings of
/// its named params and wildcards.
pub struct RouteMatch {
    /// The index of the resolved route, in registration order.
    pub index: usize,
    /// The values bound to the pattern's named params and named wildcard.
    pub params: VarMap,
}

/// Recognizes URL path patterns with support for param and wildcard
/// segments, each pattern paired with a handler. The table is built once,
/// during registration, and read at request time.
pub struct Router<T> {
    entries: Vec<(Vec<Segment>, T)>,
}

impl<T> View for Router<T> {
    type V = Seq<(Seq<SegView>, T)>;

    closed spec fn view(&self) -> Seq<(Seq<SegView>, T)> {
        self.entries@.map_values(|e: (Vec<Segment>, T)| (pat_view(e.0@), e.1))
    }
}

impl<T> Router<T> {
    /// Create a new instance of `Router`.
    pub fn new() -> (r: Self)
        ensures
            r@ =~= Seq::<(Seq<SegView>, T)>::empty(),
    {
        Router { entries: Vec::new() }
    }

    /// Add a route to the router: its pattern, parsed into segments, paired
    /// with the handler it dispatches to.
    pub fn add(&mut self, route: &str, dest: T)
        ensures
            final(self)@ == old(self)@.push((pattern_of(route@), dest)),
    {
        let pattern = parse_endpoint(route);
        let ghost patv = pat_view(pattern@);
        self.entries.push((pattern, dest));
        proof {
            assert(self@ =~= old(self)@.push((pattern_of(route@), dest))) by {
                assert(self.entries@.drop_last() =~= old(self).entries@);
                assert(forall|j: int|
                    0 <= j < old(self).entries@.len() ==> self.entries@[j] == old(
                        self,
                    ).entries@[j]);
            }
        }
    }

    /// How many routes are registered.
    pub fn len(&self) -> (r: usize)
        ensures
            r == self@.len(),
    {
        self.entries.len()
    }

    /// The handler of the route at `index`, in registration order.
    pub fn handler_at(&self, index: usize) -> (r: &T)
        requires
            index < self@.len(),
        ensures
            *r == self@[index as int].1,
    {
        &self.entries[index].1
    }

    /// Match a path on the router: the most specific matching route wins,
    /// the first registered winning ties, and its named params and named
    /// wildcard are bound to the segments they matched.
    pub fn recognize(&self, path: &str) -> (r: Option<RouteMatch>)
        ensures
            r is Some <==> exists|i: int|
                0 <= i < self@.len() && seg_match((#[trigger] self@[i]).0, path_segs(path@)),
            r matches Some(m) ==> {
                &&& m.index < self@.len()
                &&& m.index == best_idx(self@, path_segs(path@), self@.len() as int)
                &&& seg_match(self@[m.index as int].0, path_segs(path@))
                &&& m.params@ == seg_bindings(self@[m.index as int].0, path_segs(path@))
                &&& forall|i: int|
                    0 <= i < self@.len() && seg_match((#[trigger] self@[i]).0, path_segs(path@))
                        ==> !more_specific(self@[i].0, self@[m.index as int].0)
            },
    {
        let ghost routes = self@;
        let ghost psegs = path_segs(path@);
        let segs = split_path(path);
        let mut best: Option<RouteMatch> = None;
        let mut j: usize = 0;
        while j < self.entries.len()
            invariant
                0 <= j <= self.entries@.len(),
                routes == self@,
                routes.len() == self.entries@.len(),
                psegs == path_segs(path@),
                strs_view(segs@) == psegs,
                forall|i: int|
                    0 <= i < routes.len() ==> (#[trigger] routes[i]) == (
                        pat_view(self.entries@[i].0@),
                        self.entries@[i].1,
                    ),
                match best {
                    None => best_idx(routes, psegs, j as int) == -1,
                    Some(m) => {
                        &&& m.index < j
                        &&& best_idx(routes, psegs, j as int) == m.index as int
                        &&& m.params@ == seg_bindings(routes[m.index as int].0, psegs)
                    },
                },
            decreases self.entries@.len() - j,
        {
            let attempt = try_match(&self.entries[j].0, &segs);
            match attempt {
                Some(params) => {
                    let replace: bool = match &best {
                        None => true,
                        Some(m) => is_more_specific(
                            &self.entries[j].0,
                            &self.entries[m.index].0,
                        ),
                    };
                    if replace {
                        best = Some(RouteMatch { index: j, params });
                    }
                },
                None => {},
            }
            j = j + 1;
        }
        proof {
            lemma_best_idx_props(routes, psegs, routes.len() as int);
        }
        best
    }
}

} // verus!
