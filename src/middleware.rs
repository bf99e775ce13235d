//! The pipeline: an ordered chain of middlewares run over one request, with a
//! chain of error handlers consulted in reverse order of registration when one
//! of them fails.
use vstd::prelude::*;
use crate::nickel_error::NickelError;
use crate::request::Request;
use crate::response::Response;

verus! {

/// What a middleware asks of the pipeline: go on to the next middleware, or
/// stop here.
pub enum Action<T, U> {
    Continue(T),
    Halt(U),
}

/// What a middleware returns: the response to continue with, the response to
/// finish with, or an error.
pub type MiddlewareResult = Result<Action<Response, Response>, NickelError>;

/// A unit of per-request processing.
pub trait Middleware {
    fn invoke(&self, req: &mut Request, res: Response) -> MiddlewareResult;
}

/// A recovery step for a failed request: `Halt` when it has dealt with the
/// error, `Continue` to pass it on.
pub trait ErrorHandler {
    fn handle_error(&self, err: &mut NickelError, req: &mut Request) -> Action<(), ()>;
}

/// What one middleware returned.
#[derive(PartialEq, Eq, Structural, Clone, Copy, Debug)]
pub enum Step {
    Continued,
    Halted,
    Failed,
}

/// How a dispatch ended.
pub enum Outcome {
    /// A middleware halted with this response.
    Halted(Response),
    /// A middleware failed and an error handler dealt with the error.
    Recovered(NickelError),
    /// A middleware failed and no error handler dealt with the error.
    Unhandled(NickelError),
    /// Every middleware continued; this is the last response.
    Exhausted(Response),
}

/// The record of one dispatch: what each middleware that ran returned, in
/// order, which error handlers were consulted, in order, and what each
/// answered (`true` for `Halt`).
pub struct Dispatch {
    pub outcome: Outcome,
    pub steps: Vec<Step>,
    pub consulted: Vec<usize>,
    pub answers: Vec<bool>,
}

/// The rules of a dispatch over `n` middlewares and `m` error handlers: the
/// middlewares run in order until one halts or fails; after a failure the
/// error handlers are consulted from the last registered to the first, until
/// one halts.
pub open spec fn dispatch_follows(
    n: nat,
    m: nat,
    steps: Seq<Step>,
    consulted: Seq<usize>,
    answers: Seq<bool>,
    outcome: Outcome,
) -> bool {
    &&& steps.len() <= n
    &&& forall|i: int| 0 <= i < steps.len() - 1 ==> steps[i] == Step::Continued
    &&& consulted.len() == answers.len()
    &&& consulted.len() <= m
    &&& forall|j: int| 0 <= j < consulted.len() ==> consulted[j] == m - 1 - j
    &&& forall|j: int| 0 <= j < answers.len() - 1 ==> !answers[j]
    &&& match outcome {
        Outcome::Exhausted(_) => steps.len() == n && (n == 0 || steps.last() == Step::Continued)
            && consulted.len() == 0,
        Outcome::Halted(_) => steps.len() >= 1 && steps.last() == Step::Halted && consulted.len()
            == 0,
        Outcome::Recovered(_) => steps.len() >= 1 && steps.last() == Step::Failed
            && consulted.len() >= 1 && answers.last(),
        Outcome::Unhandled(_) => steps.len() >= 1 && steps.last() == Step::Failed
            && consulted.len() == m && forall|j: int| 0 <= j < answers.len() ==> !answers[j],
    }
}

/// A middleware that halts ends the dispatch: where the first middleware
/// continues and the second halts, those two run, once each and in that order,
/// no later middleware runs, no error handler is consulted, and the dispatch
/// ends with the second one's response.
pub proof fn lemma_halt_stops(
    n: nat,
    m: nat,
    steps: Seq<Step>,
    consulted: Seq<usize>,
    answers: Seq<bool>,
    outcome: Outcome,
)
    requires
        dispatch_follows(n, m, steps, consulted, answers, outcome),
        n >= 2,
        steps.len() >= 1 ==> steps[0] == Step::Continued,
        steps.len() >= 2 ==> steps[1] == Step::Halted,
    ensures
        steps == seq![Step::Continued, Step::Halted],
        outcome is Halted,
        consulted.len() == 0,
{
    assert(steps.len() >= 1);
    if steps.len() == 1 {
        assert(steps.last() == Step::Continued);
    }
    assert(steps.len() >= 2);
    if steps.len() > 2 {
        assert(steps[1] == Step::Continued);
    }
    assert(steps =~= seq![Step::Continued, Step::Halted]);
}

/// Error handlers are consulted from the last registered back: with two
/// registered, where the second answers `Continue` and the first `Halt`, the
/// second is consulted, then the first, and no other; the error counts as
/// dealt with by the first.
pub proof fn lemma_reverse_recovery(
    n: nat,
    steps: Seq<Step>,
    consulted: Seq<usize>,
    answers: Seq<bool>,
    outcome: Outcome,
)
    requires
        dispatch_follows(n, 2, steps, consulted, answers, outcome),
        steps.len() >= 1,
        steps.last() == Step::Failed,
        answers.len() >= 1 ==> !answers[0],
        answers.len() >= 2 ==> answers[1],
    ensures
        consulted == seq![1usize, 0usize],
        answers == seq![false, true],
        outcome is Recovered,
{
    if outcome is Unhandled {
        assert(!answers[1]);
    }
    assert(outcome is Recovered);
    if answers.len() == 1 {
        assert(answers.last());
    }
    assert(consulted[0] == 1 && consulted[1] == 0);
    assert(consulted =~= seq![1usize, 0usize]);
    assert(answers =~= seq![false, true]);
}

/// What the pipeline does after a middleware returned.
pub enum Next {
    /// Run the middleware at this position with this response.
    Run(usize, Response),
    /// Offer this error to the error handlers.
    Recover(NickelError),
    /// The dispatch is over.
    Done(Outcome),
}

/// The step after middleware `i` of `n` returned `result`: a `Continue` runs
/// the next middleware with the response it carries, or after the last one
/// ends the dispatch with it; a `Halt` ends the dispatch with its response;
/// an error goes to the error handlers.
pub fn after_middleware(i: usize, n: usize, result: MiddlewareResult) -> (next: Next)
    requires
        i < n,
    ensures
        match result {
            Ok(Action::Continue(x)) => next == if i + 1 < n {
                Next::Run((i + 1) as usize, x)
            } else {
                Next::Done(Outcome::Exhausted(x))
            },
            Ok(Action::Halt(x)) => next == Next::Done(Outcome::Halted(x)),
            Err(e) => next == Next::Recover(e),
        },
{
    match result {
        Ok(Action::Continue(x)) => if i + 1 < n {
            Next::Run(i + 1, x)
        } else {
            Next::Done(Outcome::Exhausted(x))
        },
        Ok(Action::Halt(x)) => Next::Done(Outcome::Halted(x)),
        Err(e) => Next::Recover(e),
    }
}

/// Where recovery from an error stands.
pub enum Recovery {
    /// Consult the error handler at this position about this error.
    Consult(usize, NickelError),
    /// Recovery is over.
    Done(Outcome),
}

/// The first step of recovery among `m` error handlers: the last registered
/// is consulted first; with none, the error is unhandled.
pub fn start_recovery(m: usize, err: NickelError) -> (next: Recovery)
    ensures
        next == if m > 0 {
            Recovery::Consult((m - 1) as usize, err)
        } else {
            Recovery::Done(Outcome::Unhandled(err))
        },
{
    if m > 0 {
        Recovery::Consult(m - 1, err)
    } else {
        Recovery::Done(Outcome::Unhandled(err))
    }
}

/// The step after error handler `k` answered: a `Halt` ends recovery with
/// the error dealt with; a `Continue` consults the handler registered before
/// it, or after the first one leaves the error unhandled.
pub fn after_error_handler(k: usize, answer: Action<(), ()>, err: NickelError) -> (next: Recovery)
    ensures
        match answer {
            Action::Halt(()) => next == Recovery::Done(Outcome::Recovered(err)),
            Action::Continue(()) => next == if k > 0 {
                Recovery::Consult((k - 1) as usize, err)
            } else {
                Recovery::Done(Outcome::Unhandled(err))
            },
        },
{
    match answer {
        Action::Halt(()) => Recovery::Done(Outcome::Recovered(err)),
        Action::Continue(()) => if k > 0 {
            Recovery::Consult(k - 1, err)
        } else {
            Recovery::Done(Outcome::Unhandled(err))
        },
    }
}

spec fn recovery_measure(r: Recovery) -> nat {
    match r {
        Recovery::Consult(k, _) => (k + 1) as nat,
        Recovery::Done(_) => 0,
    }
}

/// Middlewares in order of registration, and error handlers in order of
/// registration.
pub struct MiddlewareStack<M, E> {
    handlers: Vec<M>,
    error_handlers: Vec<E>,
}

impl<M: Middleware, E: ErrorHandler> MiddlewareStack<M, E> {
    pub closed spec fn spec_handlers(&self) -> Seq<M> {
        self.handlers@
    }

    pub closed spec fn spec_error_handlers(&self) -> Seq<E> {
        self.error_handlers@
    }

    pub fn new() -> (r: Self)
        ensures
            r.spec_handlers() == Seq::<M>::empty(),
            r.spec_error_handlers() == Seq::<E>::empty(),
    {
        MiddlewareStack { handlers: Vec::new(), error_handlers: Vec::new() }
    }

    /// Appends a middleware; it runs after those registered before it.
    pub fn add_middleware(&mut self, handler: M)
        ensures
            final(self).spec_handlers() == old(self).spec_handlers().push(handler),
            final(self).spec_error_handlers() == old(self).spec_error_handlers(),
    {
        self.handlers.push(handler);
    }

    /// Appends an error handler; it is consulted before those registered
    /// before it.
    pub fn add_error_handler(&mut self, handler: E)
        ensures
            final(self).spec_handlers() == old(self).spec_handlers(),
            final(self).spec_error_handlers() == old(self).spec_error_handlers().push(handler),
    {
        self.error_handlers.push(handler);
    }

    /// Consults the error handlers from the last registered to the first,
    /// until one halts, stepping by `start_recovery` and `after_error_handler`.
    fn recover(&self, err: NickelError, req: &mut Request) -> (r: (Outcome, Vec<usize>, Vec<bool>))
        ensures
            r.1@.len() == r.2@.len(),
            r.1@.len() <= self.error_handlers@.len(),
            forall|j: int| 0 <= j < r.1@.len() ==> r.1@[j] == self.error_handlers@.len() - 1 - j,
            forall|j: int| 0 <= j < r.2@.len() - 1 ==> !r.2@[j],
            r.0 is Recovered ==> r.2@.len() >= 1 && r.2@.last(),
            r.0 is Unhandled ==> r.1@.len() == self.error_handlers@.len() && forall|j: int|
                0 <= j < r.2@.len() ==> !r.2@[j],
            r.0 is Recovered || r.0 is Unhandled,
    {
        let m = self.error_handlers.len();
        let mut consulted: Vec<usize> = Vec::new();
        let mut answers: Vec<bool> = Vec::new();
        let mut state = start_recovery(m, err);
        loop
            invariant
                m == self.error_handlers@.len(),
                consulted@.len() == answers@.len(),
                forall|j: int| 0 <= j < consulted@.len() ==> consulted@[j] == m - 1 - j,
                match state {
                    Recovery::Consult(k, _) => k < m && consulted@.len() == m - 1 - k && forall|j: int|
                        0 <= j < answers@.len() ==> !answers@[j],
                    Recovery::Done(o) => consulted@.len() <= m && (forall|j: int|
                        0 <= j < answers@.len() - 1 ==> !answers@[j]) && (o is Recovered ==> answers@.len()
                        >= 1 && answers@.last()) && (o is Unhandled ==> consulted@.len() == m && forall|j: int|
                        0 <= j < answers@.len() ==> !answers@[j]) && (o is Recovered || o is Unhandled),
                },
            decreases recovery_measure(state),
        {
            match state {
                Recovery::Consult(k, e) => {
                    let mut e = e;
                    consulted.push(k);
                    let answer = self.error_handlers[k].handle_error(&mut e, req);
                    let halted = match answer {
                        Action::Halt(()) => true,
                        Action::Continue(()) => false,
                    };
                    answers.push(halted);
                    state = after_error_handler(k, answer, e);
                },
                Recovery::Done(outcome) => {
                    return (outcome, consulted, answers);
                },
            }
        }
    }

    /// Runs the middlewares over one request in order of registration, each on
    /// the response that the one before continued with, stepping by
    /// `after_middleware`, until one halts or fails; after a failure, offers
    /// the error to the error handlers from the last registered to the first,
    /// until one halts.
    pub fn invoke(&self, req: &mut Request, res: Response) -> (d: Dispatch)
        ensures
            dispatch_follows(
                self.spec_handlers().len(),
                self.spec_error_handlers().len(),
                d.steps@,
                d.consulted@,
                d.answers@,
                d.outcome,
            ),
            self.spec_handlers().len() == 0 ==> d.outcome == Outcome::Exhausted(res),
    {
        let n = self.handlers.len();
        let mut steps: Vec<Step> = Vec::new();
        if n == 0 {
            return Dispatch { outcome: Outcome::Exhausted(res), steps, consulted: Vec::new(), answers: Vec::new() };
        }
        let mut current = res;
        let mut i: usize = 0;
        loop
            invariant
                n == self.handlers@.len(),
                i < n,
                steps@.len() == i,
                forall|j: int| 0 <= j < i ==> steps@[j] == Step::Continued,
            decreases n - i,
        {
            let result = self.handlers[i].invoke(req, current);
            let step = match &result {
                Ok(Action::Continue(_)) => Step::Continued,
                Ok(Action::Halt(_)) => Step::Halted,
                Err(_) => Step::Failed,
            };
            steps.push(step);
            match after_middleware(i, n, result) {
                Next::Run(j, x) => {
                    i = j;
                    current = x;
                },
                Next::Done(outcome) => {
                    return Dispatch { outcome, steps, consulted: Vec::new(), answers: Vec::new() };
                },
                Next::Recover(err) => {
                    let (outcome, consulted, answers) = self.recover(err, req);
                    return Dispatch { outcome, steps, consulted, answers };
                },
            }
        }
    }
}

} // verus!
