//! The application object: a pipeline with a default error handler installed
//! first, and a terminal not-found middleware appended when it is set up for
//! serving.
use vstd::prelude::*;
use vstd::string::StringExecFns;
use crate::middleware::{Action, ErrorHandler, Middleware, MiddlewareResult, MiddlewareStack};
use crate::nickel_error::{NickelError, NickelErrorKind};
use crate::request::Request;
use crate::response::{Response, ResponseState};
use crate::pattern::PatternError;
use crate::request::Method;
use crate::router::{HttpRouter, Router};

verus! {

/// The status that the default error handler gives an error of this kind.
pub open spec fn recovery_status(kind: NickelErrorKind) -> u16 {
    match kind {
        NickelErrorKind::ErrorWithStatusCode(code) => code,
        _ => 500,
    }
}

/// Answers any error with a response that holds only a status: the error's
/// own for a status-coded error, else 500. A response that has started
/// already is left as it is.
pub struct DefaultErrorHandler;

impl DefaultErrorHandler {
    /// Writes the status-only response where the error carries one that has
    /// not started, and ends it; always halts.
    pub fn recover(&self, err: &mut NickelError) -> (r: Action<(), ()>)
        ensures
            r == Action::<(), ()>::Halt(()),
            final(err).kind == old(err).kind,
            final(err).message == old(err).message,
            old(err).stream is None ==> final(err).stream is None,
            old(err).stream matches Some(s) ==> (final(err).stream matches Some(t)
                && t.spec_state() == ResponseState::Finalized
                && t.spec_body() == s.spec_body()
                && t.spec_status() == if s.spec_state() == ResponseState::NotStarted {
                    recovery_status(old(err).kind)
                } else {
                    s.spec_status()
                }),
    {
        let status: u16 = match &err.kind {
            NickelErrorKind::ErrorWithStatusCode(code) => *code,
            _ => 500,
        };
        match &mut err.stream {
            Some(res) => {
                res.set_status(status);
                res.start();
                res.end();
            },
            None => {},
        }
        Action::Halt(())
    }
}

impl ErrorHandler for DefaultErrorHandler {
    fn handle_error(&self, err: &mut NickelError, _req: &mut Request) -> Action<(), ()> {
        self.recover(err)
    }
}

/// Fails every request with 404; the last middleware of a served pipeline.
pub fn not_found_handler(res: Response) -> (r: MiddlewareResult)
    ensures
        r matches Err(e) && e.kind == NickelErrorKind::ErrorWithStatusCode(404) && e.stream
            == Some(res) && e.message@ == "File Not Found"@,
{
    res.error(404, String::from_str("File Not Found"))
}

/// A middleware of the application, or the terminal not-found one.
pub enum AppMiddleware<M> {
    Use(M),
    NotFound,
}

impl<M: Middleware> Middleware for AppMiddleware<M> {
    fn invoke(&self, req: &mut Request, res: Response) -> MiddlewareResult {
        match self {
            AppMiddleware::Use(m) => m.invoke(req, res),
            AppMiddleware::NotFound => not_found_handler(res),
        }
    }
}

/// An error handler of the application, or the default one.
pub enum AppErrorHandler<E> {
    Use(E),
    Default,
}

impl<E: ErrorHandler> ErrorHandler for AppErrorHandler<E> {
    fn handle_error(&self, err: &mut NickelError, req: &mut Request) -> Action<(), ()> {
        match self {
            AppErrorHandler::Use(h) => h.handle_error(err, req),
            AppErrorHandler::Default => DefaultErrorHandler.recover(err),
        }
    }
}

/// The application: its pipeline of middlewares and error handlers.
pub struct Nickel<M, E> {
    middleware_stack: MiddlewareStack<AppMiddleware<M>, AppErrorHandler<E>>,
}

impl<M: Middleware, E: ErrorHandler> Nickel<M, E> {
    pub closed spec fn spec_stack(&self) -> MiddlewareStack<AppMiddleware<M>, AppErrorHandler<E>> {
        self.middleware_stack
    }

    /// An application with no middleware and the default error handler.
    pub fn new() -> (r: Self)
        ensures
            r.spec_stack().spec_handlers() == Seq::<AppMiddleware<M>>::empty(),
            r.spec_stack().spec_error_handlers() == seq![AppErrorHandler::<E>::Default],
    {
        let mut middleware_stack = MiddlewareStack::new();
        middleware_stack.add_error_handler(AppErrorHandler::Default);
        proof {
            assert(middleware_stack.spec_error_handlers() =~= seq![AppErrorHandler::<E>::Default]);
        }
        Nickel { middleware_stack }
    }

    /// Appends a middleware, run after those registered before it.
    pub fn utilize(&mut self, handler: M)
        ensures
            final(self).spec_stack().spec_handlers() == old(self).spec_stack().spec_handlers().push(
                AppMiddleware::Use(handler),
            ),
            final(self).spec_stack().spec_error_handlers() == old(
                self,
            ).spec_stack().spec_error_handlers(),
    {
        self.middleware_stack.add_middleware(AppMiddleware::Use(handler));
    }

    /// Appends an error handler, consulted before those registered before it
    /// and so before the default one.
    pub fn handle_error(&mut self, handler: E)
        ensures
            final(self).spec_stack().spec_handlers() == old(self).spec_stack().spec_handlers(),
            final(self).spec_stack().spec_error_handlers() == old(
                self,
            ).spec_stack().spec_error_handlers().push(AppErrorHandler::Use(handler)),
    {
        self.middleware_stack.add_error_handler(AppErrorHandler::Use(handler));
    }

    /// A new, empty router, to be filled and then used as a middleware.
    pub fn router<H>() -> (r: Router<H>)
        ensures
            r.spec_routes() == Seq::<crate::router::Route<H>>::empty(),
            r.wf(),
    {
        Router::new()
    }

    /// The pipeline to serve with: the application's, with the not-found
    /// middleware appended last.
    pub fn into_stack(self) -> (r: MiddlewareStack<AppMiddleware<M>, AppErrorHandler<E>>)
        ensures
            r.spec_handlers() == self.spec_stack().spec_handlers().push(AppMiddleware::NotFound),
            r.spec_error_handlers() == self.spec_stack().spec_error_handlers(),
    {
        let mut stack = self.middleware_stack;
        stack.add_middleware(AppMiddleware::NotFound);
        stack
    }
}

impl<H: Middleware, E: ErrorHandler> HttpRouter<H> for Nickel<Router<H>, E> {
    /// Adds a router holding just this route to the application's
    /// middlewares.
    fn add_route(&mut self, method: Method, path: &str, handler: H) -> Result<(), PatternError> {
        let mut router = Router::new();
        match router.add_route(method, path, handler) {
            Ok(()) => {
                self.utilize(router);
                Ok(())
            },
            Err(e) => Err(e),
        }
    }
}

} // verus!
