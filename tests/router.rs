use nickel::middleware::{Action, Middleware, MiddlewareResult};
use nickel::pattern::PathUtils;
use nickel::request::{Method, Request};
use nickel::response::Response;
use nickel::router::Router;

struct Text(&'static str);

impl Middleware for Text {
    fn invoke(&self, _req: &mut Request, res: Response) -> MiddlewareResult {
        res.send(self.0)
    }
}

fn group(caps: &[Option<String>], i: usize) -> &str {
    caps[i].as_deref().unwrap_or("")
}

#[test]
fn creates_map_with_var_variable_infos() {
    let map = PathUtils::get_variable_info("foo/:uid/bar/:groupid");

    assert_eq!(map.len(), 2);
    assert_eq!(nickel::pattern::position_of(&map, "uid"), Some(0));
    assert_eq!(nickel::pattern::position_of(&map, "groupid"), Some(1));
}

#[test]
fn creates_regex_with_captures() {
    let regex = PathUtils::create_regex("foo/:uid/bar/:groupid").ok().unwrap();
    let caps = regex.captures("foo/4711/bar/5490").unwrap();

    assert_eq!(group(&caps, 1), "4711");
    assert_eq!(group(&caps, 2), "5490");

    let regex = PathUtils::create_regex("foo/*/:uid/bar/:groupid").ok().unwrap();
    let caps = regex.captures("foo/test/4711/bar/5490").unwrap();

    assert_eq!(group(&caps, 1), "4711");
    assert_eq!(group(&caps, 2), "5490");

    let regex = PathUtils::create_regex("foo/**/:uid/bar/:groupid").ok().unwrap();
    let caps = regex.captures("foo/test/another/4711/bar/5490").unwrap();

    assert_eq!(group(&caps, 1), "4711");
    assert_eq!(group(&caps, 2), "5490");
}

#[test]
fn creates_valid_regex_for_routes() {
    let regex1 = PathUtils::create_regex("foo/:uid/bar/:groupid").ok().unwrap();
    let regex2 = PathUtils::create_regex("foo/*/bar").ok().unwrap();
    let regex3 = PathUtils::create_regex("foo/**/bar").ok().unwrap();

    assert_eq!(regex1.is_match("foo/4711/bar/5490"), true);
    assert_eq!(regex1.is_match("foo/4711/bar/5490?foo=true&bar=false"), true);
    assert_eq!(regex1.is_match("foo/4711/bar"), false);
    assert_eq!(regex1.is_match("foo/4711/bar?foo=true&bar=false"), false);

    assert_eq!(regex2.is_match("foo/4711/bar"), true);
    assert_eq!(regex2.is_match("foo/4711/barr"), false);
    assert_eq!(regex2.is_match("foo/4711/bar?foo=true&bar=false"), true);
    assert_eq!(regex2.is_match("foo/4711/4712/bar"), false);
    assert_eq!(regex2.is_match("foo/4711/4712/bar?foo=true&bar=false"), false);

    assert_eq!(regex3.is_match("foo/4711/bar"), true);
    assert_eq!(regex3.is_match("foo/4711/bar?foo=true&bar=false"), true);
    assert_eq!(regex3.is_match("foo/4711/4712/bar"), true);
    assert_eq!(regex3.is_match("foo/4711/4712/bar?foo=true&bar=false"), true);

    //ensure that this works with commas too
    assert_eq!(regex1.is_match("foo/4711/bar/5490,1234"), true);
    assert_eq!(regex1.is_match("foo/4711/bar/5490,1234?foo=true&bar=false"), true);
    assert_eq!(regex1.is_match("foo/4711/bar"), false);
    assert_eq!(regex1.is_match("foo/4711/bar?foo=1,2,3&bar=false"), false);
}

#[test]
fn can_match_var_routes() {
    let route_store = &mut Router::new();

    assert!(route_store.add_route(Method::Get, "/foo/:userid", Text("Hello from /foo")).is_ok());
    assert!(route_store.add_route(Method::Get, "/bar", Text("Hello from /bar")).is_ok());

    let route_result = route_store.match_route(Method::Get, "/foo/4711").unwrap();
    let route = route_store.route(route_result.route);

    assert_eq!(route_result.param("userid"), Some("4711"));

    //assert the route has identified the variable
    assert_eq!(route.variables.len(), 1);
    assert_eq!(route.variable_position("userid"), Some(0));

    let route_result = route_store.match_route(Method::Get, "/bar/4711");

    let result = match route_result {
        Some(_res) => true,
        None => false,
    };

    assert_eq!(result, false);

    let route_result = route_store.match_route(Method::Get, "/foo");

    let result = match route_result {
        Some(_res) => true,
        None => false,
    };

    assert_eq!(result, false);

    //ensure that this will work with commas too
    let route_result = route_store.match_route(Method::Get, "/foo/123,456");
    let result = match route_result {
        Some(_) => true,
        None => false,
    };
    assert_eq!(result, true);
    let route_result = route_result.unwrap();
    assert_eq!(route_result.param("userid"), Some("123,456"));
}

#[test]
fn compiled_source_is_anchored_with_query_suffix() {
    assert_eq!(
        PathUtils::regex_source("/a/:id/*/**"),
        "^/a/([,a-zA-Z0-9_-]*)/[,a-zA-Z0-9_-]*(?:/[,/a-zA-Z0-9_-]*)?(?:\\?.*)?$"
    );
}

#[test]
fn literal_meta_characters_are_escaped() {
    assert_eq!(PathUtils::regex_source("/a.b"), "^/a\\.b(?:\\?.*)?$");
    let regex = PathUtils::create_regex("/a.b").ok().unwrap();
    assert!(regex.is_match("/a.b"));
    assert!(!regex.is_match("/aXb"));
}

#[test]
fn variables_in_order_of_appearance() {
    let vars = PathUtils::get_variable_info("/x/:a/*/lit/**/:b");
    assert_eq!(vars, vec!["a".to_string(), "b".to_string()]);
    assert_eq!(nickel::pattern::position_of(&vars, "a"), Some(0));
    assert_eq!(nickel::pattern::position_of(&vars, "b"), Some(1));
    assert_eq!(nickel::pattern::position_of(&vars, "c"), None);
}

#[test]
fn repeated_variable_name_takes_last_position() {
    let vars = PathUtils::get_variable_info("/:a/:b/:a");
    assert_eq!(nickel::pattern::position_of(&vars, "a"), Some(2));
    let mut router = Router::new();
    assert!(router.get("/:a/:b/:a", Text("x")).is_ok());
    let found = router.match_route(Method::Get, "/1/2/3").unwrap();
    assert_eq!(found.param("a"), Some("3"));
    assert_eq!(found.param("b"), Some("2"));
}

#[test]
fn first_registered_route_wins() {
    let mut router = Router::new();
    assert!(router.get("/user/**", Text("broad")).is_ok());
    assert!(router.get("/user/:id", Text("narrow")).is_ok());
    let found = router.match_route(Method::Get, "/user/42").unwrap();
    assert_eq!(found.route, 0);
    assert_eq!(found.param("id"), None);
}

#[test]
fn method_must_match() {
    let mut router = Router::new();
    assert!(router.post("/item", Text("post")).is_ok());
    assert!(router.put("/item", Text("put")).is_ok());
    assert!(router.delete("/item", Text("delete")).is_ok());
    assert!(router.match_route(Method::Get, "/item").is_none());
    assert_eq!(router.match_route(Method::Put, "/item").unwrap().route, 1);
    assert_eq!(router.match_route(Method::Delete, "/item").unwrap().route, 2);
}

#[test]
fn single_and_double_wildcards() {
    let mut router = Router::new();
    assert!(router.get("/a/**/route", Text("double")).is_ok());
    assert!(router.get("/b/*/route", Text("single")).is_ok());
    assert!(router.match_route(Method::Get, "/a/route").is_some());
    assert!(router.match_route(Method::Get, "/a/x/route").is_some());
    assert!(router.match_route(Method::Get, "/a/x/y/route").is_some());
    assert!(router.match_route(Method::Get, "/b/x/route").is_some());
    assert!(router.match_route(Method::Get, "/b/x/y/route").is_none());
    assert!(router.match_route(Method::Get, "/b/route").is_none());
}

#[test]
fn query_string_does_not_alter_params() {
    let mut router = Router::new();
    assert!(router.get("/foo/:uid", Text("x")).is_ok());
    let plain = router.match_route(Method::Get, "/foo/4711").unwrap();
    let queried = router.match_route(Method::Get, "/foo/4711?a=1&b=2").unwrap();
    assert_eq!(plain.param("uid"), Some("4711"));
    assert_eq!(queried.param("uid"), Some("4711"));
}

#[test]
fn round_trip_with_commas() {
    let mut router = Router::new();
    assert!(router.get("/foo/:uid/bar/:groupid", Text("x")).is_ok());
    let found = router.match_route(Method::Get, "/foo/4711/bar/5490,1234").unwrap();
    assert_eq!(found.params.len(), 2);
    assert_eq!(found.param("uid"), Some("4711"));
    assert_eq!(found.param("groupid"), Some("5490,1234"));
}

#[test]
fn matching_is_case_sensitive_and_exact() {
    let mut router = Router::new();
    assert!(router.get("/Foo", Text("x")).is_ok());
    assert!(router.match_route(Method::Get, "/foo").is_none());
    assert!(router.match_route(Method::Get, "/Foo/").is_none());
    assert!(router.match_route(Method::Get, "/Foo").is_some());
}

#[test]
fn router_as_middleware_halts_on_match() {
    let mut router = Router::new();
    assert!(router.get("/hello/:name", Text("hi")).is_ok());
    let mut req = Request::from_internal(Method::Get, "/hello/ann".to_string());
    let mut res = Response::new();
    res.set_status(404);
    match router.invoke(&mut req, res) {
        Ok(Action::Halt(done)) => {
            assert_eq!(done.status(), 200);
            assert_eq!(done.body(), b"hi");
        }
        _ => panic!("expected a halt"),
    }
    assert_eq!(req.param("name"), Some("ann"));

    let mut other = Request::from_internal(Method::Get, "/bye".to_string());
    match router.invoke(&mut other, Response::new()) {
        Ok(Action::Continue(res)) => assert_eq!(res.body(), b""),
        _ => panic!("expected to continue"),
    }
    assert!(other.route_result.is_none());
}

#[test]
fn pattern_too_large_is_refused() {
    let pattern = "**/".repeat(150_000);
    let mut router = Router::new();
    match router.add_route(Method::Get, &pattern, Text("x")) {
        Err(e) => assert_eq!(e.pattern, pattern),
        Ok(()) => panic!("expected the expression to be refused"),
    }
    assert_eq!(router.len(), 0);
    assert!(PathUtils::create_regex(&pattern).is_err());
}

#[test]
fn double_wildcard_without_leading_slash() {
    assert_eq!(PathUtils::regex_source("**/x"), "^[,/a-zA-Z0-9_-]*/x(?:\\?.*)?$");
    let regex = PathUtils::create_regex("/files/**").ok().unwrap();
    assert!(regex.is_match("/files"));
    assert!(!regex.is_match("/files/a/b.txt"));
    assert!(regex.is_match("/files/a/b"));
}

#[test]
fn any_query_string_is_ignored() {
    let mut router = Router::new();
    assert!(router.get("/search/:term", Text("x")).is_ok());
    let found = router.match_route(Method::Get, "/search/cats?q=a.b&x=%20").unwrap();
    assert_eq!(found.param("term"), Some("cats"));
}

#[test]
fn entering_a_route_and_halting() {
    let mut req = Request::from_internal(Method::Get, "/x".to_string());
    let mut router = Router::new();
    assert!(router.get("/x", Text("x")).is_ok());
    let found = router.match_route(Method::Get, "/x").unwrap();
    let mut res = Response::new();
    res.set_status(500);
    let res = nickel::router::enter_route(&mut req, res, found);
    assert_eq!(res.status(), 200);
    assert_eq!(req.route_result.as_ref().unwrap().route, 0);

    let mut started = Response::new();
    started.set_status(404);
    started.start();
    let found = router.match_route(Method::Get, "/x").unwrap();
    assert_eq!(nickel::router::enter_route(&mut req, started, found).status(), 404);

    match nickel::router::halt_after_handler(Ok(Action::Continue(Response::new()))) {
        Ok(Action::Halt(_)) => {}
        _ => panic!("expected a halt"),
    }
    assert!(nickel::router::halt_after_handler(Response::new().bail("x".to_string())).is_err());
}
