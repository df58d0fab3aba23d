//! Routing of navigation paths to the handlers registered for them.
use vstd::prelude::*;

use crate::string_map::StringMap;
use crate::text::{chars_of, str_eq, string_from_chars};
use crate::trusted::{qstring_pairs, qstring_rejects, qstring_segment_start, query_pairs};

verus! {

/// Whether `i` is the first position of `c` in `s`.
pub open spec fn is_first_index(s: Seq<char>, c: char, i: int) -> bool {
    0 <= i < s.len() && s[i] == c && forall|j: int| 0 <= j < i ==> s[j] != c
}

/// Whether `c` occurs in `s`.
pub open spec fn contains_char(s: Seq<char>, c: char) -> bool {
    exists|i: int| 0 <= i < s.len() && s[i] == c
}

/// The first position of `c` in `s` (meaningful where `c` occurs).
pub open spec fn first_index(s: Seq<char>, c: char) -> int {
    choose|i: int| is_first_index(s, c, i)
}

/// The part of a navigation path before its first `?` (all of it if it has none).
pub open spec fn path_part(s: Seq<char>) -> Seq<char> {
    if contains_char(s, '?') {
        s.take(first_index(s, '?'))
    } else {
        s
    }
}

/// The part of a navigation path after its first `?` (empty if it has none).
pub open spec fn query_part(s: Seq<char>) -> Seq<char> {
    if contains_char(s, '?') {
        s.skip(first_index(s, '?') + 1)
    } else {
        Seq::empty()
    }
}

/// The map that results from inserting `pairs` in order: a later pair with the
/// same name replaces an earlier one.
pub open spec fn pairs_map(pairs: Seq<(Seq<char>, Seq<char>)>) -> Map<Seq<char>, Seq<char>>
    decreases pairs.len(),
{
    if pairs.len() == 0 {
        Map::empty()
    } else {
        pairs_map(pairs.drop_last()).insert(pairs.last().0, pairs.last().1)
    }
}

/// A request for a route: the path, and the parameters of its query string.
#[derive(Debug)]
pub struct RouteRequest {
    pub path: String,
    pub query: StringMap,
}

impl Clone for RouteRequest {
    fn clone(&self) -> (r: Self)
        ensures
            r.path@ == self.path@,
            r.query@ == self.query@,
    {
        RouteRequest { path: self.path.clone(), query: self.query.clone() }
    }
}

impl PartialEq for RouteRequest {
    fn eq(&self, other: &Self) -> (r: bool) {
        self.path == other.path && self.query == other.query
    }
}

impl vstd::std_specs::cmp::PartialEqSpecImpl for RouteRequest {
    open spec fn obeys_eq_spec() -> bool {
        true
    }

    open spec fn eq_spec(&self, other: &RouteRequest) -> bool {
        self.path@ == other.path@ && self.query@ == other.query@
    }
}

/// Splits `s` at its first `?`.
fn split_query(s: &Vec<char>) -> (r: (Vec<char>, Vec<char>))
    ensures
        r.0@ == path_part(s@),
        r.1@ == query_part(s@),
{
    let mut i: usize = 0;
    while i < s.len()
        invariant
            i <= s@.len(),
            forall|j: int| 0 <= j < i ==> s@[j] != '?',
        decreases s@.len() - i,
    {
        if s[i] == '?' {
            assert(is_first_index(s@, '?', i as int));
            assert(contains_char(s@, '?'));
            let ghost f = first_index(s@, '?');
            assert(is_first_index(s@, '?', f));
            assert(f == i as int);
            let mut path: Vec<char> = Vec::new();
            let mut j: usize = 0;
            while j < i
                invariant
                    j <= i < s@.len(),
                    path@ == s@.take(j as int),
                decreases i - j,
            {
                path.push(s[j]);
                j = j + 1;
                assert(s@.take(j as int) == s@.take(j - 1).push(s@[j - 1]));
            }
            let mut query: Vec<char> = Vec::new();
            let mut k: usize = i + 1;
            while k < s.len()
                invariant
                    i + 1 <= k <= s@.len(),
                    query@ == s@.subrange(i + 1, k as int),
                decreases s@.len() - k,
            {
                query.push(s[k]);
                k = k + 1;
                assert(s@.subrange(i + 1, k as int) == s@.subrange(i + 1, k - 1).push(s@[k - 1]));
            }
            assert(s@.skip(i + 1) == s@.subrange(i + 1, s@.len() as int));
            return (path, query);
        }
        i = i + 1;
    }
    assert(!contains_char(s@, '?'));
    (s.clone(), Vec::new())
}

impl RouteRequest {
    /// Parses a navigation path: what precedes the first `?` is the path, what
    /// follows it the query string, whose parameters are read by `qstring`; a
    /// parameter named twice keeps its last value.
    pub fn from_path(path: &str) -> (r: Self)
        requires
            !qstring_rejects(query_part(path@)),
        ensures
            r.path@ == path_part(path@),
            r.query@ == pairs_map(qstring_pairs(query_part(path@))),
    {
        let cs = chars_of(path);
        let (p, q) = split_query(&cs);
        let query_text = string_from_chars(&q);
        let pairs = query_pairs(query_text.as_str());
        let ghost named = qstring_pairs(q@);
        let mut query = StringMap::new();
        let mut i: usize = 0;
        assert(named.take(0) =~= Seq::<(Seq<char>, Seq<char>)>::empty());
        while i < pairs.len()
            invariant
                i <= pairs@.len(),
                pairs@.len() == named.len(),
                forall|j: int| 0 <= j < pairs@.len() ==>
                    (#[trigger] pairs@[j]).0@ == named[j].0 && pairs@[j].1@ == named[j].1,
                query@ == pairs_map(named.take(i as int)),
            decreases pairs@.len() - i,
        {
            let k = pairs[i].0.clone();
            let v = pairs[i].1.clone();
            query.insert(k, v);
            assert(named.take(i + 1).drop_last() == named.take(i as int));
            i = i + 1;
        }
        assert(named.take(named.len() as int) == named);
        RouteRequest { path: string_from_chars(&p), query }
    }
}

/// The path or paths for which a route answers.
#[derive(Debug, Clone)]
pub enum RoutePath {
    Literal(String),
    Literals(Vec<String>),
}

/// Whether one of `ps` holds the text `path`.
fn any_equal(ps: &Vec<String>, path: &str) -> (b: bool)
    ensures
        b == exists|i: int| 0 <= i < ps@.len() && (#[trigger] ps@[i])@ == path@,
{
    let mut i: usize = 0;
    while i < ps.len()
        invariant
            i <= ps@.len(),
            forall|j: int| 0 <= j < i ==> (#[trigger] ps@[j])@ != path@,
        decreases ps@.len() - i,
    {
        if str_eq(ps[i].as_str(), path) {
            assert((ps@[i as int])@ == path@);
            return true;
        }
        i = i + 1;
    }
    false
}

impl RoutePath {
    /// Whether this route answers for `path`.
    pub open spec fn accepts(&self, path: Seq<char>) -> bool {
        match self {
            RoutePath::Literal(p) => p@ == path,
            RoutePath::Literals(ps) => exists|i: int| 0 <= i < ps@.len() && (#[trigger] ps@[i])@ == path,
        }
    }

    /// Whether this route answers for `path`: equal to the literal, or to one of the literals.
    pub fn matches(&self, path: &str) -> (b: bool)
        ensures
            b == self.accepts(path@),
            match self {
                RoutePath::Literal(p) => b == (p@ == path@),
                RoutePath::Literals(ps) => b == exists|i: int| 0 <= i < ps@.len() && (#[trigger] ps@[i])@ == path@,
            },
    {
        match self {
            RoutePath::Literal(p) => str_eq(p.as_str(), path),
            RoutePath::Literals(ps) => any_equal(ps, path),
        }
    }

    /// A route for one path.
    pub fn literal(path: &str) -> (r: Self)
        ensures
            r matches RoutePath::Literal(p) && p@ == path@,
    {
        RoutePath::Literal(path.to_owned())
    }

    /// A route for one path, taking ownership of it.
    pub fn from_string(path: String) -> (r: Self)
        ensures
            r == RoutePath::Literal(path),
    {
        RoutePath::Literal(path)
    }

    /// A route for any of `paths`.
    pub fn literals(paths: &[&str]) -> (r: Self)
        ensures
            r matches RoutePath::Literals(ps) && ps@.len() == paths@.len()
                && forall|i: int| 0 <= i < paths@.len() ==> (#[trigger] ps@[i])@ == paths@[i]@,
    {
        let mut ps: Vec<String> = Vec::new();
        let mut i: usize = 0;
        while i < paths.len()
            invariant
                i <= paths@.len(),
                ps@.len() == i,
                forall|j: int| 0 <= j < i ==> (#[trigger] ps@[j])@ == paths@[j]@,
            decreases paths@.len() - i,
        {
            ps.push(paths[i].to_owned());
            i = i + 1;
        }
        RoutePath::Literals(ps)
    }

    /// A route for any of `paths`, taking ownership of them.
    pub fn from_strings(paths: Vec<String>) -> (r: Self)
        ensures
            r == RoutePath::Literals(paths),
    {
        RoutePath::Literals(paths)
    }
}

/// Why a navigation failed.
#[derive(Debug, Clone, Copy, PartialEq, Eq, Structural)]
pub enum NavigateError {
    /// No route answers for the path.
    InvalidPath,
    /// The route's handler failed.
    Handler,
    /// The rendered view could not be sent on.
    Sender,
}

/// The position of the first route in `routes` that answers for `path`.
pub open spec fn first_match<H>(routes: Seq<(RoutePath, H)>, path: Seq<char>) -> Option<int> {
    if exists|i: int| 0 <= i < routes.len() && (#[trigger] routes[i]).0.accepts(path) {
        Some(choose|i: int| 0 <= i < routes.len() && (#[trigger] routes[i]).0.accepts(path)
            && forall|j: int| 0 <= j < i ==> !(#[trigger] routes[j]).0.accepts(path))
    } else {
        None
    }
}

/// Whether `i` is the first route in `routes` that answers for `path`.
pub open spec fn is_first_match<H>(routes: Seq<(RoutePath, H)>, path: Seq<char>, i: int) -> bool {
    0 <= i < routes.len() && routes[i].0.accepts(path)
        && forall|j: int| 0 <= j < i ==> !(#[trigger] routes[j]).0.accepts(path)
}

/// A table of routes, each with its handler; the first route registered that
/// answers for a path is the one that handles it.
pub struct Router<H> {
    routes: Vec<(RoutePath, H)>,
}

impl<H> Router<H> {
    /// The routes with their handlers, in the order in which they were added.
    pub closed spec fn routes(&self) -> Seq<(RoutePath, H)> {
        self.routes@
    }

    /// A router with no routes.
    pub fn new() -> (r: Self)
        ensures
            r.routes().len() == 0,
    {
        Router { routes: Vec::new() }
    }

    /// This router with one more route, after all those it has.
    pub fn with_route(self, route: RoutePath, handler: H) -> (r: Self)
        ensures
            r.routes() == self.routes().push((route, handler)),
    {
        let mut routes = self.routes;
        routes.push((route, handler));
        Router { routes }
    }

    /// The number of routes.
    pub fn len(&self) -> (n: usize)
        ensures
            n == self.routes().len(),
    {
        self.routes.len()
    }

    /// The position of the first route that answers for `path`.
    pub fn route_index(&self, path: &str) -> (r: Option<usize>)
        ensures
            match r {
                Some(i) => is_first_match(self.routes(), path@, i as int),
                None => forall|j: int| 0 <= j < self.routes().len() ==> !(#[trigger] self.routes()[j]).0.accepts(path@),
            },
            r matches Some(i) ==> first_match(self.routes(), path@) == Some(i as int),
            r is None ==> first_match(self.routes(), path@) is None,
            r matches Some(i) ==> (self.routes()[i as int].0 matches RoutePath::Literal(p) ==> p@ == path@),
            forall|j: int|
                0 <= j < self.routes().len() && (r matches Some(i) ==> j < i) ==> ((#[trigger] self.routes()[j]).0 matches RoutePath::Literal(p) ==> p@ != path@),
    {
        proof {
            lemma_path_goes_to_a_route_for_it(self.routes(), path@);
        }
        let mut i: usize = 0;
        while i < self.routes.len()
            invariant
                i <= self.routes@.len(),
                forall|j: int| 0 <= j < i ==> !(#[trigger] self.routes@[j]).0.accepts(path@),
            decreases self.routes@.len() - i,
        {
            if self.routes[i].0.matches(path) {
                proof {
                    lemma_first_match_unique(self.routes@, path@, i as int);
                }
                return Some(i);
            }
            i = i + 1;
        }
        None
    }

    /// The handler of the first route that answers for `path`.
    pub fn handler_for(&self, path: &str) -> (r: Option<&H>)
        ensures
            match first_match(self.routes(), path@) {
                Some(i) => r == Some(&self.routes()[i].1),
                None => r is None,
            },
    {
        match self.route_index(path) {
            Some(i) => Some(&self.routes[i].1),
            None => None,
        }
    }

    /// What a navigation to `path` starts from: the request that `path` parses
    /// to and the handler that answers for its path, or `InvalidPath` when no
    /// route answers for it.
    pub fn resolve(&self, path: &str) -> (r: Result<(RouteRequest, &H), NavigateError>)
        requires
            !qstring_rejects(query_part(path@)),
        ensures
            match r {
                Ok((req, h)) => {
                    &&& req.path@ == path_part(path@)
                    &&& req.query@ == pairs_map(qstring_pairs(query_part(path@)))
                    &&& first_match(self.routes(), path_part(path@)) matches Some(i)
                    &&& h == &self.routes()[i].1
                },
                Err(e) => e == NavigateError::InvalidPath && first_match(self.routes(), path_part(path@)) is None,
            },
    {
        let req = RouteRequest::from_path(path);
        match self.handler_for(req.path.as_str()) {
            Some(h) => Ok((req, h)),
            None => Err(NavigateError::InvalidPath),
        }
    }
}

impl<H> Default for Router<H> {
    fn default() -> (r: Self)
        ensures
            r.routes().len() == 0,
    {
        Router::new()
    }
}

/// What a navigation answers once its handler has run: the handler's view, or
/// `Handler` when the handler failed.
pub fn handler_outcome<V, E>(result: Result<V, E>) -> (r: Result<V, NavigateError>)
    ensures
        match result {
            Ok(v) => r == Ok::<V, NavigateError>(v),
            Err(_) => r == Err::<V, NavigateError>(NavigateError::Handler),
        },
{
    match result {
        Ok(v) => Ok(v),
        Err(_) => Err(NavigateError::Handler),
    }
}

/// What sending a rendered view on answers: `Sender` when it could not be sent.
pub fn send_outcome(sent: bool) -> (r: Result<(), NavigateError>)
    ensures
        sent ==> r == Ok::<(), NavigateError>(()),
        !sent ==> r == Err::<(), NavigateError>(NavigateError::Sender),
{
    if sent { Ok(()) } else { Err(NavigateError::Sender) }
}

/// There is at most one first route answering for a path, and `first_match` finds it.
pub proof fn lemma_first_match_unique<H>(routes: Seq<(RoutePath, H)>, path: Seq<char>, i: int)
    requires
        is_first_match(routes, path, i),
    ensures
        first_match(routes, path) == Some(i),
{
    assert(routes[i].0.accepts(path));
    let c = choose|k: int| 0 <= k < routes.len() && (#[trigger] routes[k]).0.accepts(path)
        && forall|j: int| 0 <= j < k ==> !(#[trigger] routes[j]).0.accepts(path);
    if c < i {
        assert(!routes[c].0.accepts(path));
    }
    if c > i {
        assert(!routes[i].0.accepts(path));
    }
}

/// A literal route answers for a path exactly when the path is its text: a
/// route for `/` does not answer for `/albums`.
pub proof fn lemma_literal_route_answers_only_its_path(p: String, path: Seq<char>)
    ensures
        RoutePath::Literal(p).accepts(path) <==> p@ == path,
        p@ != path ==> !RoutePath::Literal(p).accepts(path),
{
}

/// A path goes to a route registered for that very path (a literal equal to
/// it, or a list of literals one of which equals it), and no literal route
/// registered before it has that path as its text; where no literal or list
/// names the path, it goes nowhere.
pub proof fn lemma_path_goes_to_a_route_for_it<H>(routes: Seq<(RoutePath, H)>, path: Seq<char>)
    ensures
        match first_match(routes, path) {
            Some(i) => {
                &&& 0 <= i < routes.len()
                &&& match routes[i].0 {
                    RoutePath::Literal(p) => p@ == path,
                    RoutePath::Literals(ps) => exists|k: int| 0 <= k < ps@.len() && (#[trigger] ps@[k])@ == path,
                }
                &&& forall|j: int| 0 <= j < i ==> ((#[trigger] routes[j]).0 matches RoutePath::Literal(p) ==> p@ != path)
            },
            None => forall|j: int|
                0 <= j < routes.len() ==> ((#[trigger] routes[j]).0 matches RoutePath::Literal(p) ==> p@ != path),
        },
{
    if exists|k: int| 0 <= k < routes.len() && (#[trigger] routes[k]).0.accepts(path) {
        let k = choose|k: int| 0 <= k < routes.len() && (#[trigger] routes[k]).0.accepts(path);
        lemma_first_match_found(routes, path, k);
        let i = first_match(routes, path)->0;
        assert(is_first_match(routes, path, i));
        assert forall|j: int| 0 <= j < i implies ((#[trigger] routes[j]).0 matches RoutePath::Literal(p) ==> p@ != path) by {
            assert(!routes[j].0.accepts(path));
        }
    } else {
        assert forall|j: int| 0 <= j < routes.len() implies ((#[trigger] routes[j]).0 matches RoutePath::Literal(p) ==> p@ != path) by {
            assert(!routes[j].0.accepts(path));
        }
    }
}

/// Where some route answers for a path, there is a first one, and
/// `first_match` gives its position.
pub proof fn lemma_first_match_found<H>(routes: Seq<(RoutePath, H)>, path: Seq<char>, k: int)
    requires
        0 <= k < routes.len(),
        routes[k].0.accepts(path),
    ensures
        first_match(routes, path) matches Some(i) && is_first_match(routes, path, i),
    decreases k,
{
    if exists|j: int| 0 <= j < k && (#[trigger] routes[j]).0.accepts(path) {
        let j = choose|j: int| 0 <= j < k && (#[trigger] routes[j]).0.accepts(path);
        lemma_first_match_found(routes, path, j);
    } else {
        assert(is_first_match(routes, path, k));
        lemma_first_match_unique(routes, path, k);
    }
}

/// Adding a route never changes where a path that already had a route goes:
/// routes registered earlier take precedence. A path that had no route goes to
/// the new route exactly when the new route answers for it.
pub proof fn lemma_added_route_is_last_resort<H>(
    routes: Seq<(RoutePath, H)>,
    route: RoutePath,
    handler: H,
    path: Seq<char>,
)
    ensures
        first_match(routes, path) is Some ==> first_match(routes.push((route, handler)), path) == first_match(routes, path),
        first_match(routes, path) is None ==> (
            first_match(routes.push((route, handler)), path) == if route.accepts(path) {
                Some(routes.len() as int)
            } else {
                None::<int>
            }),
{
    let ext = routes.push((route, handler));
    if first_match(routes, path) is Some {
        let k = choose|k: int| 0 <= k < routes.len() && (#[trigger] routes[k]).0.accepts(path);
        lemma_first_match_found(routes, path, k);
        let i = first_match(routes, path).unwrap();
        assert(routes[i].0.accepts(path));
        assert forall|j: int| 0 <= j < i implies !(#[trigger] ext[j]).0.accepts(path) by {
            assert(ext[j] == routes[j]);
            assert(!routes[j].0.accepts(path));
        }
        assert(ext[i] == routes[i]);
        lemma_first_match_unique(ext, path, i);
    } else {
        assert forall|j: int| 0 <= j < routes.len() implies !(#[trigger] ext[j]).0.accepts(path) by {
            assert(ext[j] == routes[j]);
            if routes[j].0.accepts(path) {
                assert(exists|k: int| 0 <= k < routes.len() && (#[trigger] routes[k]).0.accepts(path));
            }
        }
        if route.accepts(path) {
            assert(ext[routes.len() as int] == (route, handler));
            lemma_first_match_unique(ext, path, routes.len() as int);
        } else {
            assert forall|j: int| 0 <= j < ext.len() implies !(#[trigger] ext[j]).0.accepts(path) by {
                if j == routes.len() {
                    assert(ext[j] == (route, handler));
                }
            }
        }
    }
}

/// The path of a request holds no `?`, and where the navigation path has a
/// `?`, it is the request's path, a `?` and the query string, in that order.
pub proof fn lemma_path_and_query_rebuild_navigation_path(s: Seq<char>)
    ensures
        !contains_char(path_part(s), '?'),
        contains_char(s, '?') ==> s == path_part(s) + seq!['?'] + query_part(s),
        !contains_char(s, '?') ==> path_part(s) == s && query_part(s).len() == 0,
{
    if contains_char(s, '?') {
        let k = choose|k: int| 0 <= k < s.len() && s[k] == '?';
        lemma_first_index_exists(s, '?', k);
        let i = first_index(s, '?');
        assert(is_first_index(s, '?', i));
        assert(s =~= s.take(i) + seq!['?'] + s.skip(i + 1));
        if contains_char(path_part(s), '?') {
            let j = choose|j: int| 0 <= j < path_part(s).len() && path_part(s)[j] == '?';
            assert(s[j] == '?');
        }
    }
}

/// Where `c` occurs, it has a first position.
pub proof fn lemma_first_index_exists(s: Seq<char>, c: char, k: int)
    requires
        0 <= k < s.len(),
        s[k] == c,
    ensures
        is_first_index(s, c, first_index(s, c)),
    decreases k,
{
    if exists|j: int| 0 <= j < k && s[j] == c {
        let j = choose|j: int| 0 <= j < k && s[j] == c;
        lemma_first_index_exists(s, c, j);
    } else {
        assert(is_first_index(s, c, k));
    }
}

/// Whether `qstring` can read the query string `q` (see `qstring_rejects`).
fn query_readable(q: &Vec<char>) -> (r: bool)
    ensures
        r == !qstring_rejects(q@),
{
    let mut i: usize = 0;
    let mut at_start = true;
    while i < q.len()
        invariant
            i <= q@.len(),
            at_start == qstring_segment_start(q@, i as int),
            forall|j: int| 0 <= j < i ==> !(#[trigger] qstring_segment_start(q@, j) && q@[j] as u32 >= 0x80),
        decreases q@.len() - i,
    {
        let c = q[i];
        if at_start && (c as u32) >= 0x80 {
            assert(qstring_segment_start(q@, i as int) && q@[i as int] as u32 >= 0x80);
            return false;
        }
        let next = (i == 0 && c == '?') || c == '&' || (c == '=' && at_start);
        assert(next == qstring_segment_start(q@, i + 1));
        at_start = next;
        i = i + 1;
    }
    true
}

/// Whether `RouteRequest::from_path` can read `path`: whether `qstring` can
/// read its query string.
pub fn is_navigable(path: &str) -> (r: bool)
    ensures
        r == !qstring_rejects(query_part(path@)),
{
    let cs = chars_of(path);
    let (_, q) = split_query(&cs);
    query_readable(&q)
}

} // verus!
