//! Routes: method, pattern and handler, tried in order of registration; the
//! first that accepts a request handles it.
use vstd::prelude::*;
use vstd::string::StringExecFns;
use crate::matcher::{Matcher, regex_captures, regex_compiles};
use crate::middleware::{Action, Middleware, MiddlewareResult};
use crate::pattern::{PathUtils, PatternError, pattern_source, pattern_variables, position_of, variable_position};
use crate::request::{Method, Request};
use crate::response::{Response, ResponseState};
use crate::string_map::StringMap;

verus! {

/// The text of capture group `k`; empty where the group took no part or does
/// not exist.
pub open spec fn group_text(groups: Seq<Option<Seq<char>>>, k: int) -> Seq<char> {
    if 0 <= k < groups.len() {
        match groups[k] {
            Some(t) => t,
            None => Seq::empty(),
        }
    } else {
        Seq::empty()
    }
}

/// The parameters that the first `n` variable names take from the groups:
/// name `i` takes group `i + 1`; a later name overrides an earlier one.
pub open spec fn captured_params(names: Seq<Seq<char>>, groups: Seq<Option<Seq<char>>>, n: nat) -> Map<Seq<char>, Seq<char>>
    decreases n,
{
    if n == 0 || n > names.len() {
        Map::empty()
    } else {
        captured_params(names, groups, (n - 1) as nat).insert(names[n - 1], group_text(groups, n as int))
    }
}

/// A registered route: method, pattern, handler, the pattern's variable names
/// in order, and the compiled pattern.
pub struct Route<H> {
    pub path: String,
    pub method: Method,
    pub handler: H,
    pub variables: Vec<String>,
    pub matcher: Matcher,
}

impl<H> Route<H> {
    /// The expression the route matches with.
    pub open spec fn source(&self) -> Seq<char> {
        self.matcher.source()
    }

    /// The variable names as text.
    pub open spec fn names(&self) -> Seq<Seq<char>> {
        self.variables@.map_values(|s: String| s@)
    }

    /// The route's expression and variable names are those of its pattern.
    pub open spec fn wf(&self) -> bool {
        &&& self.source() == pattern_source(self.path@)
        &&& self.names() == pattern_variables(self.path@)
    }

    /// The route takes a request with this method and target.
    pub open spec fn accepts(&self, method: Method, target: Seq<char>) -> bool {
        self.method == method && regex_captures(self.source(), target) is Some
    }

    /// The position of variable `name`: the capture group it reads is one
    /// more.
    pub fn variable_position(&self, name: &str) -> (r: Option<usize>)
        ensures
            match r {
                Some(i) => variable_position(self.names(), name@) == Some(i as nat),
                None => variable_position(self.names(), name@) is None,
            },
    {
        position_of(&self.variables, name)
    }
}

/// A matched route: its position in the router and the values of its
/// variables.
pub struct RouteResult {
    pub route: usize,
    pub params: StringMap<String>,
}

impl RouteResult {
    /// The variables' values as text.
    pub open spec fn spec_params(&self) -> Map<Seq<char>, Seq<char>> {
        self.params@.map_values(|v: String| v@)
    }

    /// The value of variable `key`.
    pub fn param(&self, key: &str) -> (r: Option<&str>)
        ensures
            match r {
                Some(v) => self.spec_params().contains_key(key@) && v@ == self.spec_params()[key@],
                None => !self.spec_params().contains_key(key@),
            },
    {
        match self.params.get(key) {
            Some(v) => Some(v.as_str()),
            None => None,
        }
    }
}

/// Routes in order of registration.
pub struct Router<H> {
    routes: Vec<Route<H>>,
}

impl<H> Router<H> {
    pub closed spec fn spec_routes(&self) -> Seq<Route<H>> {
        self.routes@
    }

    /// Every route's expression and variables are those of its pattern.
    pub open spec fn wf(&self) -> bool {
        forall|i: int| 0 <= i < self.spec_routes().len() ==> (#[trigger] self.spec_routes()[i]).wf()
    }

    /// The route at `i` is the first that takes the request.
    pub open spec fn first_accepting(&self, i: int, method: Method, target: Seq<char>) -> bool {
        &&& 0 <= i < self.spec_routes().len()
        &&& self.spec_routes()[i].accepts(method, target)
        &&& forall|j: int| 0 <= j < i ==> !(#[trigger] self.spec_routes()[j]).accepts(method, target)
    }

    pub fn new() -> (r: Self)
        ensures
            r.spec_routes() == Seq::<Route<H>>::empty(),
            r.wf(),
    {
        Router { routes: Vec::new() }
    }

    /// The number of routes.
    pub fn len(&self) -> (r: usize)
        ensures
            r == self.spec_routes().len(),
    {
        self.routes.len()
    }

    /// The route at position `i`.
    pub fn route(&self, i: usize) -> (r: &Route<H>)
        requires
            i < self.spec_routes().len(),
        ensures
            *r == self.spec_routes()[i as int],
    {
        &self.routes[i]
    }

    /// Compiles `path` and appends a route for it; fails, leaving the router
    /// as it was, where the compiled expression is refused.
    pub fn add_route(&mut self, method: Method, path: &str, handler: H) -> (r: Result<(), PatternError>)
        ensures
            r is Ok <==> regex_compiles(pattern_source(path@)),
            old(self).wf() ==> final(self).wf(),
            match r {
                Ok(()) => {
                    &&& final(self).spec_routes().len() == old(self).spec_routes().len() + 1
                    &&& final(self).spec_routes().drop_last() == old(self).spec_routes()
                    &&& final(self).spec_routes().last().path@ == path@
                    &&& final(self).spec_routes().last().method == method
                    &&& final(self).spec_routes().last().handler == handler
                    &&& final(self).spec_routes().last().wf()
                },
                Err(e) => final(self).spec_routes() == old(self).spec_routes() && e.pattern@ == path@,
            },
    {
        let variables = PathUtils::get_variable_info(path);
        match PathUtils::create_regex(path) {
            Ok(matcher) => {
                let route = Route { path: String::from_str(path), method, handler, variables, matcher };
                self.routes.push(route);
                proof {
                    assert(self.spec_routes().drop_last() =~= old(self).spec_routes());
                    assert forall|i: int| 0 <= i < self.spec_routes().len() && old(self).wf() implies (
                    #[trigger] self.spec_routes()[i]).wf() by {
                        if i < old(self).spec_routes().len() {
                            assert(self.spec_routes()[i] == old(self).spec_routes()[i]);
                        }
                    }
                }
                Ok(())
            },
            Err(e) => Err(e),
        }
    }

    /// Registers `handler` for GET requests to `uri`.
    pub fn get(&mut self, uri: &str, handler: H) -> (r: Result<(), PatternError>)
        ensures
            r is Ok <==> regex_compiles(pattern_source(uri@)),
            old(self).wf() ==> final(self).wf(),
            match r {
                Ok(()) => final(self).spec_routes().drop_last() == old(self).spec_routes()
                    && final(self).spec_routes().len() == old(self).spec_routes().len() + 1
                    && final(self).spec_routes().last().path@ == uri@
                    && final(self).spec_routes().last().method == Method::Get
                    && final(self).spec_routes().last().handler == handler,
                Err(_) => final(self).spec_routes() == old(self).spec_routes(),
            },
    {
        self.add_route(Method::Get, uri, handler)
    }

    /// Registers `handler` for POST requests to `uri`.
    pub fn post(&mut self, uri: &str, handler: H) -> (r: Result<(), PatternError>)
        ensures
            r is Ok <==> regex_compiles(pattern_source(uri@)),
            old(self).wf() ==> final(self).wf(),
            match r {
                Ok(()) => final(self).spec_routes().drop_last() == old(self).spec_routes()
                    && final(self).spec_routes().len() == old(self).spec_routes().len() + 1
                    && final(self).spec_routes().last().path@ == uri@
                    && final(self).spec_routes().last().method == Method::Post
                    && final(self).spec_routes().last().handler == handler,
                Err(_) => final(self).spec_routes() == old(self).spec_routes(),
            },
    {
        self.add_route(Method::Post, uri, handler)
    }

    /// Registers `handler` for PUT requests to `uri`.
    pub fn put(&mut self, uri: &str, handler: H) -> (r: Result<(), PatternError>)
        ensures
            r is Ok <==> regex_compiles(pattern_source(uri@)),
            old(self).wf() ==> final(self).wf(),
            match r {
                Ok(()) => final(self).spec_routes().drop_last() == old(self).spec_routes()
                    && final(self).spec_routes().len() == old(self).spec_routes().len() + 1
                    && final(self).spec_routes().last().path@ == uri@
                    && final(self).spec_routes().last().method == Method::Put
                    && final(self).spec_routes().last().handler == handler,
                Err(_) => final(self).spec_routes() == old(self).spec_routes(),
            },
    {
        self.add_route(Method::Put, uri, handler)
    }

    /// Registers `handler` for DELETE requests to `uri`.
    pub fn delete(&mut self, uri: &str, handler: H) -> (r: Result<(), PatternError>)
        ensures
            r is Ok <==> regex_compiles(pattern_source(uri@)),
            old(self).wf() ==> final(self).wf(),
            match r {
                Ok(()) => final(self).spec_routes().drop_last() == old(self).spec_routes()
                    && final(self).spec_routes().len() == old(self).spec_routes().len() + 1
                    && final(self).spec_routes().last().path@ == uri@
                    && final(self).spec_routes().last().method == Method::Delete
                    && final(self).spec_routes().last().handler == handler,
                Err(_) => final(self).spec_routes() == old(self).spec_routes(),
            },
    {
        self.add_route(Method::Delete, uri, handler)
    }

    /// The first route, in order of registration, whose method is `method` and
    /// whose pattern accepts `path` (a query string may follow), with the value
    /// of each of its variables.
    pub fn match_route(&self, method: Method, path: &str) -> (r: Option<RouteResult>)
        ensures
            match r {
                None => forall|i: int|
                    0 <= i < self.spec_routes().len() ==> !(#[trigger] self.spec_routes()[i]).accepts(
                        method,
                        path@,
                    ),
                Some(found) => {
                    &&& self.first_accepting(found.route as int, method, path@)
                    &&& found.spec_params() == captured_params(
                        self.spec_routes()[found.route as int].names(),
                        regex_captures(self.spec_routes()[found.route as int].source(), path@)->Some_0,
                        self.spec_routes()[found.route as int].names().len(),
                    )
                },
            },
    {
        let mut i: usize = 0;
        while i < self.routes.len()
            invariant
                i <= self.spec_routes().len(),
                forall|j: int| 0 <= j < i ==> !(#[trigger] self.spec_routes()[j]).accepts(method, path@),
            decreases self.spec_routes().len() - i,
        {
            let route = &self.routes[i];
            if route.method == method {
                match route.matcher.captures(path) {
                    Some(groups) => {
                        let params = collect_params(&route.variables, &groups);
                        return Some(RouteResult { route: i, params });
                    },
                    None => {},
                }
            }
            i += 1;
        }
        None
    }
}

/// At most one route is the first to take a request: matching is
/// deterministic.
pub proof fn lemma_first_accepting_unique<H>(router: Router<H>, i: int, j: int, method: Method, target: Seq<char>)
    requires
        router.first_accepting(i, method, target),
        router.first_accepting(j, method, target),
    ensures
        i == j,
{
    if i < j {
        assert(!router.spec_routes()[i].accepts(method, target));
    } else if j < i {
        assert(!router.spec_routes()[j].accepts(method, target));
    }
}

/// A route registered after one that takes every request it takes is never
/// the first to take a request: the later, narrower route is unreachable.
pub proof fn lemma_shadowed_route<H>(router: Router<H>, i: int, j: int)
    requires
        0 <= i < j < router.spec_routes().len(),
        forall|method: Method, target: Seq<char>|
            #[trigger] router.spec_routes()[j].accepts(method, target) ==> router.spec_routes()[i].accepts(
                method,
                target,
            ),
    ensures
        forall|method: Method, target: Seq<char>| !#[trigger] router.first_accepting(j, method, target),
{
    assert forall|method: Method, target: Seq<char>| !#[trigger] router.first_accepting(j, method, target) by {
        if router.spec_routes()[j].accepts(method, target) {
            assert(router.spec_routes()[i].accepts(method, target));
        }
    }
}

/// The parameters that the variable names take from the captured groups.
fn collect_params(names: &Vec<String>, groups: &Vec<Option<String>>) -> (r: StringMap<String>)
    ensures
        r@.map_values(|v: String| v@) == captured_params(
            names@.map_values(|s: String| s@),
            groups@.map_values(
                |g: Option<String>|
                    match g {
                        Some(s) => Some(s@),
                        None => None,
                    },
            ),
            names@.len(),
        ),
{
    let ghost nv = names@.map_values(|s: String| s@);
    let ghost gv = groups@.map_values(
        |g: Option<String>|
            match g {
                Some(s) => Some(s@),
                None => None,
            },
    );
    let mut params: StringMap<String> = StringMap::new();
    let mut k: usize = 0;
    proof {
        assert(params@.map_values(|v: String| v@) =~= captured_params(nv, gv, 0));
    }
    while k < names.len()
        invariant
            k <= names@.len(),
            nv == names@.map_values(|s: String| s@),
            gv == groups@.map_values(
                |g: Option<String>|
                    match g {
                        Some(s) => Some(s@),
                        None => None,
                    },
            ),
            params@.map_values(|v: String| v@) == captured_params(nv, gv, k as nat),
        decreases names@.len() - k,
    {
        let value = if k + 1 < groups.len() {
            match &groups[k + 1] {
                Some(t) => t.clone(),
                None => String::new(),
            }
        } else {
            String::new()
        };
        proof {
            assert(value@ == group_text(gv, k + 1));
        }
        let ghost before = params@;
        params.insert(names[k].clone(), value);
        proof {
            assert(params@.map_values(|v: String| v@) =~= before.map_values(|v: String| v@).insert(
                nv[k as int],
                value@,
            ));
        }
        k += 1;
    }
    params
}

/// Registration of handlers by method and pattern.
pub trait HttpRouter<H> {
    /// Registers `handler` for requests with `method` whose target `path`
    /// accepts.
    fn add_route(&mut self, method: Method, path: &str, handler: H) -> Result<(), PatternError>;

    /// Registers `handler` for GET requests to `uri`.
    fn get(&mut self, uri: &str, handler: H) -> Result<(), PatternError> {
        self.add_route(Method::Get, uri, handler)
    }

    /// Registers `handler` for POST requests to `uri`.
    fn post(&mut self, uri: &str, handler: H) -> Result<(), PatternError> {
        self.add_route(Method::Post, uri, handler)
    }

    /// Registers `handler` for PUT requests to `uri`.
    fn put(&mut self, uri: &str, handler: H) -> Result<(), PatternError> {
        self.add_route(Method::Put, uri, handler)
    }

    /// Registers `handler` for DELETE requests to `uri`.
    fn delete(&mut self, uri: &str, handler: H) -> Result<(), PatternError> {
        self.add_route(Method::Delete, uri, handler)
    }
}

impl<H> HttpRouter<H> for Router<H> {
    fn add_route(&mut self, method: Method, path: &str, handler: H) -> Result<(), PatternError> {
        Router::add_route(self, method, path, handler)
    }
}

/// Prepares a request for the handler of the route it matched: stores the
/// match on the request, and sets status 200 where the response has not
/// started.
pub fn enter_route(req: &mut Request, res: Response, found: RouteResult) -> (r: Response)
    ensures
        final(req).route_result == Some(found),
        final(req).method == old(req).method,
        final(req).uri == old(req).uri,
        r.spec_status() == if res.spec_state() == ResponseState::NotStarted {
            200
        } else {
            res.spec_status()
        },
        r.spec_state() == res.spec_state(),
        r.spec_headers() == res.spec_headers(),
        r.spec_body() == res.spec_body(),
{
    let mut res = res;
    res.set_status(200);
    req.route_result = Some(found);
    res
}

/// What the router returns after the handler: a `Continue` becomes `Halt` of
/// the same response, as a matched route ends the pipeline; anything else
/// passes as it is.
pub open spec fn halted(r: MiddlewareResult) -> MiddlewareResult {
    match r {
        Ok(Action::Continue(x)) => Ok(Action::Halt(x)),
        _ => r,
    }
}

/// Turns the handler's result into the router's: see `halted`.
pub fn halt_after_handler(r: MiddlewareResult) -> (o: MiddlewareResult)
    ensures
        o == halted(r),
{
    match r {
        Ok(Action::Continue(x)) => Ok(Action::Halt(x)),
        other => other,
    }
}

impl<H: Middleware> Router<H> {
    /// Hands the request to the first route that takes it, prepared by
    /// `enter_route`, and returns what its handler returned, made final by
    /// `halt_after_handler`. Where no route takes it, the request passes on
    /// unchanged.
    pub fn route_request(&self, req: &mut Request, res: Response) -> (r: MiddlewareResult)
        ensures
            (forall|i: int|
                0 <= i < self.spec_routes().len() ==> !(#[trigger] self.spec_routes()[i]).accepts(
                    old(req).method,
                    old(req).uri@,
                )) ==> r == Ok::<Action<Response, Response>, crate::nickel_error::NickelError>(
                Action::Continue(res),
            ) && *final(req) == *old(req),
            (exists|i: int|
                0 <= i < self.spec_routes().len() && (#[trigger] self.spec_routes()[i]).accepts(
                    old(req).method,
                    old(req).uri@,
                )) ==> r == halted(r) && !(r matches Ok(Action::Continue(_))),
    {
        let method = req.method;
        match self.match_route(method, req.uri.as_str()) {
            None => Ok(Action::Continue(res)),
            Some(found) => {
                let index = found.route;
                let res = enter_route(req, res, found);
                let result = self.routes[index].handler.invoke(req, res);
                halt_after_handler(result)
            },
        }
    }
}

impl<H: Middleware> Middleware for Router<H> {
    fn invoke(&self, req: &mut Request, res: Response) -> MiddlewareResult {
        self.route_request(req, res)
    }
}

} // verus!
