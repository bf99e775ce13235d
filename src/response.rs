//! The response under construction: status and headers that may change until
//! the response starts streaming, then a body that grows until it is
//! finalized.
use vstd::prelude::*;
use vstd::string::StringExecFns;
use vstd::string::StringSliceAdditionalSpecFns;
use crate::middleware::{Action, MiddlewareResult};
use crate::nickel_error::{NickelError, NickelErrorKind};
use crate::string_map::StringMap;
use crate::date::{END_OF_HTTP_DATES, date_now, http_date_of};

verus! {

/// Where a response is in its life.
#[derive(PartialEq, Eq, Structural, Clone, Copy, Debug)]
pub enum ResponseState {
    /// Status and headers may still change.
    NotStarted,
    /// Status and headers are sent; only the body may grow.
    Streaming,
    /// Nothing more may be written.
    Finalized,
}

/// `headers` with `value` under `name`, unless `name` has a value already.
pub open spec fn with_fallback(headers: Map<Seq<char>, Seq<char>>, name: Seq<char>, value: Seq<char>) -> Map<Seq<char>, Seq<char>> {
    if headers.contains_key(name) {
        headers
    } else {
        headers.insert(name, value)
    }
}

/// The headers that starting a response adds where they are missing:
/// `Date` where a date is given, `Server` and `Content-Type`.
pub open spec fn start_headers(headers: Map<Seq<char>, Seq<char>>, date: Option<Seq<char>>) -> Map<Seq<char>, Seq<char>> {
    let dated = match date {
        Some(d) => with_fallback(headers, "Date"@, d),
        None => headers,
    };
    with_fallback(with_fallback(dated, "Server"@, "Nickel"@), "Content-Type"@, "text/html"@)
}

/// The view of an optional date as text.
pub open spec fn date_view(date: Option<String>) -> Option<Seq<char>> {
    match date {
        Some(d) => Some(d@),
        None => None,
    }
}

/// A response: status, headers, body and state.
pub struct Response {
    status: u16,
    headers: StringMap<String>,
    body: Vec<u8>,
    state: ResponseState,
}

impl Response {
    pub closed spec fn spec_status(&self) -> u16 {
        self.status
    }

    pub closed spec fn spec_headers(&self) -> Map<Seq<char>, Seq<char>> {
        self.headers@.map_values(|v: String| v@)
    }

    pub closed spec fn spec_body(&self) -> Seq<u8> {
        self.body@
    }

    pub closed spec fn spec_state(&self) -> ResponseState {
        self.state
    }

    /// An empty response with status 200 that has not started.
    pub fn new() -> (r: Response)
        ensures
            r.spec_status() == 200,
            r.spec_headers() == Map::<Seq<char>, Seq<char>>::empty(),
            r.spec_body() == Seq::<u8>::empty(),
            r.spec_state() == ResponseState::NotStarted,
    {
        let r = Response {
            status: 200,
            headers: StringMap::new(),
            body: Vec::new(),
            state: ResponseState::NotStarted,
        };
        proof {
            assert(r.spec_headers() =~= Map::<Seq<char>, Seq<char>>::empty());
        }
        r
    }

    pub fn status(&self) -> (r: u16)
        ensures
            r == self.spec_status(),
    {
        self.status
    }

    pub fn state(&self) -> (r: ResponseState)
        ensures
            r == self.spec_state(),
    {
        self.state
    }

    pub fn body(&self) -> (r: &[u8])
        ensures
            r@ == self.spec_body(),
    {
        self.body.as_slice()
    }

    /// The headers.
    pub fn headers(&self) -> (r: &StringMap<String>)
        ensures
            r@.map_values(|v: String| v@) == self.spec_headers(),
    {
        &self.headers
    }

    /// The value of header `name`.
    pub fn header(&self, name: &str) -> (r: Option<&str>)
        ensures
            match r {
                Some(v) => self.spec_headers().contains_key(name@) && v@ == self.spec_headers()[name@],
                None => !self.spec_headers().contains_key(name@),
            },
    {
        match self.headers.get(name) {
            Some(v) => Some(v.as_str()),
            None => None,
        }
    }

    /// Sets the status while the response has not started; returns whether
    /// it did.
    pub fn set_status(&mut self, status: u16) -> (applied: bool)
        ensures
            applied == (old(self).spec_state() == ResponseState::NotStarted),
            final(self).spec_status() == if applied {
                status
            } else {
                old(self).spec_status()
            },
            final(self).spec_headers() == old(self).spec_headers(),
            final(self).spec_body() == old(self).spec_body(),
            final(self).spec_state() == old(self).spec_state(),
    {
        if self.state == ResponseState::NotStarted {
            self.status = status;
            true
        } else {
            false
        }
    }

    /// Sets header `name` while the response has not started; returns
    /// whether it did.
    pub fn set_header(&mut self, name: String, value: String) -> (applied: bool)
        ensures
            applied == (old(self).spec_state() == ResponseState::NotStarted),
            final(self).spec_headers() == if applied {
                old(self).spec_headers().insert(name@, value@)
            } else {
                old(self).spec_headers()
            },
            final(self).spec_status() == old(self).spec_status(),
            final(self).spec_body() == old(self).spec_body(),
            final(self).spec_state() == old(self).spec_state(),
    {
        if self.state == ResponseState::NotStarted {
            let ghost before = self.headers@;
            self.headers.insert(name, value);
            proof {
                assert(self.spec_headers() =~= before.map_values(|v: String| v@).insert(name@, value@));
            }
            true
        } else {
            false
        }
    }

    /// Sets header `name` while the response has not started and the header
    /// has no value yet; returns whether it did.
    pub fn set_header_fallback(&mut self, name: String, value: String) -> (applied: bool)
        ensures
            applied == (old(self).spec_state() == ResponseState::NotStarted
                && !old(self).spec_headers().contains_key(name@)),
            final(self).spec_headers() == if old(self).spec_state() == ResponseState::NotStarted {
                with_fallback(old(self).spec_headers(), name@, value@)
            } else {
                old(self).spec_headers()
            },
            final(self).spec_status() == old(self).spec_status(),
            final(self).spec_body() == old(self).spec_body(),
            final(self).spec_state() == old(self).spec_state(),
    {
        if self.state != ResponseState::NotStarted {
            return false;
        }
        match self.headers.get(name.as_str()) {
            Some(_) => false,
            None => self.set_header(name, value),
        }
    }

    /// Sends status and headers, filling in `Date` (where `date` is given),
    /// `Server` and `Content-Type` where they are missing; returns whether the
    /// response was not started before.
    pub fn start_with_date(&mut self, date: Option<String>) -> (started: bool)
        ensures
            started == (old(self).spec_state() == ResponseState::NotStarted),
            final(self).spec_state() == if started {
                ResponseState::Streaming
            } else {
                old(self).spec_state()
            },
            final(self).spec_headers() == if started {
                start_headers(old(self).spec_headers(), date_view(date))
            } else {
                old(self).spec_headers()
            },
            final(self).spec_status() == old(self).spec_status(),
            final(self).spec_body() == old(self).spec_body(),
    {
        if self.state != ResponseState::NotStarted {
            return false;
        }
        match date {
            Some(d) => {
                self.set_header_fallback(String::from_str("Date"), d);
            },
            None => {},
        }
        self.set_header_fallback(String::from_str("Server"), String::from_str("Nickel"));
        self.set_header_fallback(String::from_str("Content-Type"), String::from_str("text/html"));
        self.state = ResponseState::Streaming;
        true
    }

    /// Sends status and headers, filling in `Date` with the current date,
    /// `Server` and `Content-Type` where they are missing; returns whether the
    /// response was not started before.
    pub fn start(&mut self) -> (started: bool)
        ensures
            started == (old(self).spec_state() == ResponseState::NotStarted),
            final(self).spec_state() == if started {
                ResponseState::Streaming
            } else {
                old(self).spec_state()
            },
            started ==> exists|date: Option<Seq<char>>|
                (date matches Some(d) ==> exists|secs: nat| secs < END_OF_HTTP_DATES && d == http_date_of(secs))
                && final(self).spec_headers() == start_headers(old(self).spec_headers(), date),
            !started ==> final(self).spec_headers() == old(self).spec_headers(),
            final(self).spec_status() == old(self).spec_status(),
            final(self).spec_body() == old(self).spec_body(),
    {
        if self.state != ResponseState::NotStarted {
            return false;
        }
        let date = date_now();
        self.start_with_date(date)
    }

    /// Appends `data` to the body while the response streams; returns whether
    /// it did.
    pub fn write(&mut self, data: &[u8]) -> (written: bool)
        ensures
            written == (old(self).spec_state() == ResponseState::Streaming),
            final(self).spec_body() == if written {
                old(self).spec_body() + data@
            } else {
                old(self).spec_body()
            },
            final(self).spec_status() == old(self).spec_status(),
            final(self).spec_headers() == old(self).spec_headers(),
            final(self).spec_state() == old(self).spec_state(),
    {
        if self.state != ResponseState::Streaming {
            return false;
        }
        let ghost before = self.body@;
        let mut i: usize = 0;
        while i < data.len()
            invariant
                i <= data@.len(),
                self.body@ == before + data@.subrange(0, i as int),
                self.state == ResponseState::Streaming,
                self.status == old(self).status,
                self.headers == old(self).headers,
            decreases data@.len() - i,
        {
            self.body.push(data[i]);
            proof {
                assert(before + data@.subrange(0, i + 1) =~= before + data@.subrange(0, i as int).push(
                    data@[i as int],
                ));
            }
            i += 1;
        }
        proof {
            assert(data@.subrange(0, i as int) =~= data@);
        }
        true
    }

    /// Ends the response: nothing more may be written.
    pub fn end(&mut self)
        ensures
            final(self).spec_state() == ResponseState::Finalized,
            final(self).spec_status() == old(self).spec_status(),
            final(self).spec_headers() == old(self).spec_headers(),
            final(self).spec_body() == old(self).spec_body(),
    {
        self.state = ResponseState::Finalized;
    }

    /// Writes `text`, UTF-8 encoded, to the body and halts the pipeline with
    /// this response; fails where the response was finalized already.
    pub fn send(self, text: &str) -> (r: MiddlewareResult)
        ensures
            self.spec_state() == ResponseState::Finalized ==> r is Err,
            self.spec_state() != ResponseState::Finalized ==> (r matches Ok(Action::Halt(res))
                && res.spec_state() == ResponseState::Streaming
                && res.spec_status() == self.spec_status()
                && res.spec_body() == self.spec_body() + text.spec_bytes()
                && (self.spec_state() != ResponseState::NotStarted ==> res.spec_headers()
                == self.spec_headers())
                && (self.spec_state() == ResponseState::NotStarted ==> exists|date: Option<Seq<char>>|
                (date matches Some(d) ==> exists|secs: nat| secs < END_OF_HTTP_DATES && d == http_date_of(secs))
                && res.spec_headers() == start_headers(self.spec_headers(), date))),
    {
        let mut res = self;
        if res.state == ResponseState::Finalized {
            return Err(
                NickelError::new(String::from_str("response already finalized"), NickelErrorKind::Other),
            );
        }
        res.start();
        res.write(text.as_bytes());
        Ok(Action::Halt(res))
    }

    /// Fails with `status`, handing this response to the error handlers.
    pub fn error(self, status: u16, message: String) -> (r: MiddlewareResult)
        ensures
            r matches Err(e) && e.kind == NickelErrorKind::ErrorWithStatusCode(status)
                && e.message == message && e.stream == Some(self),
    {
        Err(NickelError::with_response(self, message, status))
    }

    /// Gives up on a response whose stream broke off: ends it and fails with
    /// an error that carries no response.
    pub fn bail(self, message: String) -> (r: MiddlewareResult)
        ensures
            r matches Err(e) && e.kind == NickelErrorKind::Other && e.message == message
                && e.stream is None,
    {
        let mut res = self;
        res.end();
        Err(NickelError::new(message, NickelErrorKind::Other))
    }
}

} // verus!
