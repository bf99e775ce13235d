use std::cell::{Cell, RefCell};
use std::rc::Rc;

use nickel::middleware::{
    after_error_handler, after_middleware, start_recovery, Action, ErrorHandler, Middleware, MiddlewareResult,
    MiddlewareStack, Next, Outcome, Recovery, Step,
};
use nickel::nickel::{AppErrorHandler, AppMiddleware, DefaultErrorHandler, Nickel};
use nickel::nickel_error::{NickelError, NickelErrorKind};
use nickel::request::{Method, Request};
use nickel::response::{Response, ResponseState};
use nickel::router::{HttpRouter, Router};

enum Behaviour {
    Continue,
    Halt(&'static str),
    Fail(u16),
}

struct Probe {
    calls: Rc<Cell<u32>>,
    behaviour: Behaviour,
}

impl Middleware for Probe {
    fn invoke(&self, _req: &mut Request, res: Response) -> MiddlewareResult {
        self.calls.set(self.calls.get() + 1);
        match self.behaviour {
            Behaviour::Continue => Ok(Action::Continue(res)),
            Behaviour::Halt(text) => res.send(text),
            Behaviour::Fail(code) => res.error(code, "failed".to_string()),
        }
    }
}

struct Recorder {
    id: u32,
    halts: bool,
    log: Rc<RefCell<Vec<u32>>>,
}

impl ErrorHandler for Recorder {
    fn handle_error(&self, _err: &mut NickelError, _req: &mut Request) -> Action<(), ()> {
        self.log.borrow_mut().push(self.id);
        if self.halts {
            Action::Halt(())
        } else {
            Action::Continue(())
        }
    }
}

fn probe(behaviour: Behaviour) -> (Probe, Rc<Cell<u32>>) {
    let calls = Rc::new(Cell::new(0));
    (Probe { calls: calls.clone(), behaviour }, calls)
}

fn request() -> Request {
    Request::from_internal(Method::Get, "/".to_string())
}

#[test]
fn halt_stops_the_chain() {
    let (h1, c1) = probe(Behaviour::Continue);
    let (h2, c2) = probe(Behaviour::Halt("R"));
    let (h3, c3) = probe(Behaviour::Continue);
    let mut stack: MiddlewareStack<Probe, Recorder> = MiddlewareStack::new();
    stack.add_middleware(h1);
    stack.add_middleware(h2);
    stack.add_middleware(h3);
    let mut req = request();
    let d = stack.invoke(&mut req, Response::new());
    assert_eq!(c1.get(), 1);
    assert_eq!(c2.get(), 1);
    assert_eq!(c3.get(), 0);
    assert_eq!(d.steps, vec![Step::Continued, Step::Halted]);
    assert!(d.consulted.is_empty());
    match d.outcome {
        Outcome::Halted(res) => assert_eq!(res.body(), b"R"),
        _ => panic!("expected a halt"),
    }
}

#[test]
fn error_handlers_run_in_reverse() {
    let (h1, c1) = probe(Behaviour::Fail(400));
    let (h2, c2) = probe(Behaviour::Continue);
    let log = Rc::new(RefCell::new(Vec::new()));
    let mut stack = MiddlewareStack::new();
    stack.add_middleware(h1);
    stack.add_middleware(h2);
    stack.add_error_handler(Recorder { id: 1, halts: true, log: log.clone() });
    stack.add_error_handler(Recorder { id: 2, halts: false, log: log.clone() });
    let mut req = request();
    let d = stack.invoke(&mut req, Response::new());
    assert_eq!(c1.get(), 1);
    assert_eq!(c2.get(), 0);
    assert_eq!(*log.borrow(), vec![2, 1]);
    assert_eq!(d.consulted, vec![1, 0]);
    assert_eq!(d.answers, vec![false, true]);
    match d.outcome {
        Outcome::Recovered(err) => {
            assert!(matches!(err.kind, NickelErrorKind::ErrorWithStatusCode(400)));
            assert_eq!(err.stream.unwrap().status(), 200);
        }
        _ => panic!("expected a recovery"),
    }
}

#[test]
fn later_handler_halting_shields_earlier() {
    let (h1, _) = probe(Behaviour::Fail(500));
    let log = Rc::new(RefCell::new(Vec::new()));
    let mut stack = MiddlewareStack::new();
    stack.add_middleware(h1);
    stack.add_error_handler(Recorder { id: 1, halts: true, log: log.clone() });
    stack.add_error_handler(Recorder { id: 2, halts: true, log: log.clone() });
    let d = stack.invoke(&mut request(), Response::new());
    assert_eq!(*log.borrow(), vec![2]);
    assert_eq!(d.consulted, vec![1]);
    assert!(matches!(d.outcome, Outcome::Recovered(_)));
}

#[test]
fn unhandled_error_after_all_decline() {
    let (h1, _) = probe(Behaviour::Fail(500));
    let log = Rc::new(RefCell::new(Vec::new()));
    let mut stack = MiddlewareStack::new();
    stack.add_middleware(h1);
    stack.add_error_handler(Recorder { id: 1, halts: false, log: log.clone() });
    stack.add_error_handler(Recorder { id: 2, halts: false, log: log.clone() });
    let d = stack.invoke(&mut request(), Response::new());
    assert_eq!(*log.borrow(), vec![2, 1]);
    assert_eq!(d.answers, vec![false, false]);
    assert!(matches!(d.outcome, Outcome::Unhandled(_)));
}

#[test]
fn every_middleware_continues() {
    let (h1, c1) = probe(Behaviour::Continue);
    let (h2, c2) = probe(Behaviour::Continue);
    let mut stack: MiddlewareStack<Probe, Recorder> = MiddlewareStack::new();
    stack.add_middleware(h1);
    stack.add_middleware(h2);
    let d = stack.invoke(&mut request(), Response::new());
    assert_eq!((c1.get(), c2.get()), (1, 1));
    assert_eq!(d.steps, vec![Step::Continued, Step::Continued]);
    assert!(matches!(d.outcome, Outcome::Exhausted(_)));

    let empty: MiddlewareStack<Probe, Recorder> = MiddlewareStack::new();
    let d = empty.invoke(&mut request(), Response::new());
    assert!(d.steps.is_empty());
    assert!(matches!(d.outcome, Outcome::Exhausted(_)));
}

#[test]
fn served_application_answers_not_found() {
    let (h1, c1) = probe(Behaviour::Continue);
    let mut app: Nickel<Probe, Recorder> = Nickel::new();
    app.utilize(h1);
    let stack = app.into_stack();
    let d = stack.invoke(&mut request(), Response::new());
    assert_eq!(c1.get(), 1);
    assert_eq!(d.steps, vec![Step::Continued, Step::Failed]);
    assert_eq!(d.consulted, vec![0]);
    match d.outcome {
        Outcome::Recovered(err) => {
            assert_eq!(err.message, "File Not Found");
            let res = err.stream.unwrap();
            assert_eq!(res.status(), 404);
            assert_eq!(res.state(), ResponseState::Finalized);
        }
        _ => panic!("expected the default handler to recover"),
    }
}

#[test]
fn user_error_handler_runs_before_default() {
    let (h1, _) = probe(Behaviour::Fail(400));
    let log = Rc::new(RefCell::new(Vec::new()));
    let mut app = Nickel::new();
    app.utilize(h1);
    app.handle_error(Recorder { id: 7, halts: false, log: log.clone() });
    let d = app.into_stack().invoke(&mut request(), Response::new());
    assert_eq!(*log.borrow(), vec![7]);
    assert_eq!(d.consulted, vec![1, 0]);
    match d.outcome {
        Outcome::Recovered(err) => assert_eq!(err.stream.unwrap().status(), 400),
        _ => panic!("expected the default handler to recover"),
    }
}

#[test]
fn default_handler_uses_500_for_other_errors() {
    let mut err = NickelError {
        kind: NickelErrorKind::UserDefinedError(42, "custom".to_string()),
        message: "boom".to_string(),
        stream: Some(Response::new()),
    };
    assert!(matches!(DefaultErrorHandler.recover(&mut err), Action::Halt(())));
    let res = err.stream.unwrap();
    assert_eq!(res.status(), 500);
    assert_eq!(res.state(), ResponseState::Finalized);
}

#[test]
fn default_handler_leaves_started_response_status() {
    let mut res = Response::new();
    res.start();
    let mut err = NickelError::with_response(res, "late".to_string(), 404);
    assert!(matches!(DefaultErrorHandler.recover(&mut err), Action::Halt(())));
    assert_eq!(err.stream.unwrap().status(), 200);

    let mut bare = NickelError::new("no stream".to_string(), NickelErrorKind::Other);
    assert!(matches!(DefaultErrorHandler.recover(&mut bare), Action::Halt(())));
    assert!(bare.stream.is_none());
}

#[test]
fn app_wrappers_forward() {
    let (h1, c1) = probe(Behaviour::Halt("ok"));
    let wrapped = AppMiddleware::Use(h1);
    assert!(matches!(wrapped.invoke(&mut request(), Response::new()), Ok(Action::Halt(_))));
    assert_eq!(c1.get(), 1);
    let fallback: AppMiddleware<Probe> = AppMiddleware::NotFound;
    match fallback.invoke(&mut request(), Response::new()) {
        Err(e) => assert!(matches!(e.kind, NickelErrorKind::ErrorWithStatusCode(404))),
        _ => panic!("expected not found"),
    }
    let log = Rc::new(RefCell::new(Vec::new()));
    let handler = AppErrorHandler::Use(Recorder { id: 3, halts: false, log: log.clone() });
    let mut err = NickelError::new("x".to_string(), NickelErrorKind::Other);
    assert!(matches!(handler.handle_error(&mut err, &mut request()), Action::Continue(())));
    assert_eq!(*log.borrow(), vec![3]);
}

struct Greeting(&'static str);

impl Middleware for Greeting {
    fn invoke(&self, req: &mut Request, res: Response) -> MiddlewareResult {
        let who = req.param("who").unwrap_or("nobody").to_string();
        res.send(&format!("{} {}", self.0, who))
    }
}

#[test]
fn application_routes_through_http_router() {
    let mut app: Nickel<Router<Greeting>, Recorder> = Nickel::new();
    assert!(HttpRouter::get(&mut app, "/hi/:who", Greeting("hello")).is_ok());
    assert!(HttpRouter::post(&mut app, "/hi/:who", Greeting("posted")).is_ok());
    let stack = app.into_stack();

    let mut req = Request::from_internal(Method::Get, "/hi/ann".to_string());
    match stack.invoke(&mut req, Response::new()).outcome {
        Outcome::Halted(res) => assert_eq!(res.body(), b"hello ann"),
        _ => panic!("expected the GET route"),
    }
    let mut req = Request::from_internal(Method::Post, "/hi/bob".to_string());
    let d = stack.invoke(&mut req, Response::new());
    assert_eq!(d.steps, vec![Step::Continued, Step::Halted]);
    match d.outcome {
        Outcome::Halted(res) => assert_eq!(res.body(), b"posted bob"),
        _ => panic!("expected the POST route"),
    }
    let mut req = Request::from_internal(Method::Get, "/nowhere".to_string());
    match stack.invoke(&mut req, Response::new()).outcome {
        Outcome::Recovered(err) => assert_eq!(err.stream.unwrap().status(), 404),
        _ => panic!("expected not found"),
    }
}

#[test]
fn middleware_steps() {
    match after_middleware(0, 2, Ok(Action::Continue(Response::new()))) {
        Next::Run(1, _) => {}
        _ => panic!("expected the next middleware"),
    }
    assert!(matches!(after_middleware(1, 2, Ok(Action::Continue(Response::new()))), Next::Done(Outcome::Exhausted(_))));
    assert!(matches!(after_middleware(0, 2, Response::new().send("R")), Next::Done(Outcome::Halted(_))));
    assert!(matches!(after_middleware(0, 2, Response::new().error(404, "x".to_string())), Next::Recover(_)));
}

#[test]
fn recovery_steps() {
    let err = || NickelError::new("x".to_string(), NickelErrorKind::Other);
    assert!(matches!(start_recovery(2, err()), Recovery::Consult(1, _)));
    assert!(matches!(start_recovery(0, err()), Recovery::Done(Outcome::Unhandled(_))));
    assert!(matches!(after_error_handler(1, Action::Continue(()), err()), Recovery::Consult(0, _)));
    assert!(matches!(after_error_handler(0, Action::Continue(()), err()), Recovery::Done(Outcome::Unhandled(_))));
    assert!(matches!(after_error_handler(1, Action::Halt(()), err()), Recovery::Done(Outcome::Recovered(_))));
}
