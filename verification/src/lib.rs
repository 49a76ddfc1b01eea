//! A cooperative coroutine engine for protocol logic that performs no I/O.
//!
//! A protocol task only issues requests and consumes the responses that its
//! driver hands back, so the same task runs against sockets and timers or
//! against canned data. The task is an explicit state machine ([`Task`]); the
//! driver ([`Io`]) runs it one step at a time, from one call to the next, and a
//! step consumes the [`IoRequest`] of the step before, so that no step can be
//! answered twice.
//!
//! - [`slot`]: the one-item cell through which a step's request and response
//!   pass, and the errors of the engine.
//! - [`driver`]: a driver with copyable tokens, which reports each misuse.
//! - [`replay`]: a task run from a list of responses.
//! - [`mux`]: many tasks under one caller, each with an id.
//! - [`tlv`], [`pingpong`], [`tlv_pingpong`]: a framing layer, a message layer,
//!   and the second stacked on the first.

use vstd::prelude::*;

pub mod driver;
pub mod mux;
pub mod pingpong;
pub mod replay;
pub mod slot;
pub mod tlv;
pub mod tlv_pingpong;

use crate::slot::Channel;
use crate::slot::EngineError;
use core::marker::PhantomData;

verus! {

/// A protocol task: a coroutine written as an explicit state machine.
///
/// One step runs the task from the call in which it is suspended (or from its
/// beginning) to its next call (or to its end). `step` says which steps the
/// task can make; a task that states nothing of itself makes no call at all.
pub trait Task<Request, Response>: Sized {
    /// Whether the task, resumed with `response` (`None` at the very start),
    /// can run to a call with `request` (to its end where `request` is `None`)
    /// and be in the state `next` after that.
    open spec fn step(
        &self,
        response: Option<Response>,
        next: Self,
        request: Option<Request>,
    ) -> bool {
        next == *self && request is None
    }

    /// Runs one step. The call that ends the step is made with [`Sans::start`]
    /// or [`Sans::handle`] and handed back to the driver.
    fn resume(&mut self, response: SansResponse<'_, Response>) -> (call: Option<
        SansHandle<Request, Response>,
    >)
        ensures
            old(self).step(response@, *final(self), pending_of(call)),
            call is Some ==> pending_of(call) is Some,
    ;
}

/// The request that a step has ended with: that of its last call, if it made
/// one.
pub open spec fn pending_of<Request, Response>(
    call: Option<SansHandle<Request, Response>>,
) -> Option<Request> {
    match call {
        Some(call) => call.pending(),
        None => None,
    }
}

/// The view of what an `Option` holds.
pub open spec fn view_of<T: View>(value: Option<T>) -> Option<T::V> {
    match value {
        Some(value) => Some(value@),
        None => None,
    }
}

/// Whether no step of `task` that is resumed with `response` ends in a call.
pub open spec fn makes_no_call<Request, Response, T: Task<Request, Response>>(
    task: T,
    response: Option<Response>,
) -> bool {
    forall|next: T, request: Option<Request>| #[trigger]
        task.step(response, next, request) ==> request is None
}

/// What a suspended call answers when it is polled.
pub enum Poll<T> {
    /// The call has returned.
    Ready(T),
    /// The call is still waiting for its response.
    Pending,
}

/// A call of the task: first it carries the request to the slot, then it waits
/// there for the response.
pub struct SansHandle<Request, Response> {
    request: Option<Request>,
    _response: PhantomData<Response>,
}

/// The task's side of the engine: it makes the task's calls.
pub struct Sans<Request, Response> {
    _request: PhantomData<Request>,
    _response: PhantomData<Response>,
}

/// The response that resumes the task, valid for the one step that it starts.
pub struct SansResponse<'a, Response> {
    response: Option<&'a Response>,
}

/// The driver's side of the engine: it starts and resumes a task.
pub struct Io<Request, Response> {
    _request: PhantomData<Request>,
    _response: PhantomData<Response>,
}

/// A task suspended in a call, together with the request of that call.
pub struct IoRequest<Request, T> {
    request: Option<Request>,
    task: T,
}

impl<Request, Response> SansHandle<Request, Response> {
    /// The request that the call has not handed to the slot yet.
    pub closed spec fn pending(&self) -> Option<Request> {
        self.request
    }

    /// Advances the call against the slot. A call that still carries its
    /// request puts it into the empty slot and waits; after that it waits until
    /// the slot holds a response, which it takes out and returns.
    ///
    /// An occupied slot refuses the request, and a call that waits on an empty
    /// slot has nothing to wait for: both are reported, and nothing changes.
    pub fn poll<'a>(&mut self, ch: &mut Channel<'a, Request, Response>) -> (r: Result<
        Poll<SansResponse<'a, Response>>,
        EngineError,
    >)
        ensures
            match (old(self).pending(), *old(ch)) {
                (Some(request), Channel::Empty) => {
                    &&& r is Ok
                    &&& r.unwrap() is Pending
                    &&& *final(ch) == Channel::<Request, Response>::Tx(request)
                    &&& final(self).pending() is None
                },
                (None, Channel::Rx(response)) => {
                    &&& r is Ok
                    &&& r.unwrap() is Ready
                    &&& r.unwrap()->Ready_0@ == Some(*response)
                    &&& *final(ch) == Channel::<Request, Response>::Empty
                    &&& *final(self) == *old(self)
                },
                (None, Channel::Tx(_)) => {
                    &&& r is Ok
                    &&& r.unwrap() is Pending
                    &&& *final(ch) == *old(ch)
                    &&& *final(self) == *old(self)
                },
                (Some(_), _) => {
                    &&& r is Err
                    &&& Some(r->Err_0) == old(ch).occupied()
                    &&& *final(ch) == *old(ch)
                    &&& *final(self) == *old(self)
                },
                (None, Channel::Empty) => {
                    &&& r is Err
                    &&& r->Err_0 == EngineError::NoPendingRequest
                    &&& *final(ch) == *old(ch)
                    &&& *final(self) == *old(self)
                },
            },
    {
        if self.request.is_some() {
            match ch {
                Channel::Empty => {
                    let request = self.request.take();
                    *ch = Channel::Tx(request.unwrap());
                    Ok(Poll::Pending)
                },
                Channel::Tx(_) => Err(EngineError::RequestNotTaken),
                Channel::Rx(_) => Err(EngineError::ResponseNotTaken),
            }
        } else {
            match ch {
                Channel::Rx(response) => {
                    let response = SansResponse { response: Some(*response) };
                    *ch = Channel::Empty;
                    Ok(Poll::Ready(response))
                },
                Channel::Tx(_) => Ok(Poll::Pending),
                Channel::Empty => Err(EngineError::NoPendingRequest),
            }
        }
    }
}

impl<'a, Response> SansResponse<'a, Response> {
    /// The response that the handle carries; none at the task's very start.
    pub closed spec fn view(&self) -> Option<Response> {
        match self.response {
            Some(response) => Some(*response),
            None => None,
        }
    }

    /// The response from the driver, or `None` in the step that starts the task.
    pub fn response(&self) -> (r: Option<&'a Response>)
        ensures
            match r {
                Some(response) => self@ == Some(*response),
                None => self@ is None,
            },
    {
        self.response
    }
}

impl<Request, Response> Sans<Request, Response> {
    /// The one value of this type: it carries nothing but the two types.
    pub closed spec fn bound() -> Self {
        Sans { _request: PhantomData, _response: PhantomData }
    }

    /// The task's first call: no response has come before it.
    pub fn start(&self, request: Request) -> (call: SansHandle<Request, Response>)
        ensures
            call.pending() == Some(request),
    {
        SansHandle { request: Some(request), _response: PhantomData }
    }

    /// A later call. It takes the response of the call before, which ends
    /// there.
    pub fn handle(&self, _response: SansResponse<'_, Response>, request: Request) -> (call:
        SansHandle<Request, Response>)
        ensures
            call.pending() == Some(request),
    {
        SansHandle { request: Some(request), _response: PhantomData }
    }
}

impl<Request, T> IoRequest<Request, T> {
    /// The request that the driver holds for the caller.
    pub closed spec fn pending(&self) -> Option<Request> {
        self.request
    }

    /// The suspended task.
    pub closed spec fn task(&self) -> T {
        self.task
    }

    /// The request of the call in which the task is suspended.
    pub fn request(&self) -> (r: Option<&Request>)
        ensures
            match r {
                Some(request) => self.pending() == Some(*request),
                None => self.pending() is None,
            },
    {
        self.request.as_ref()
    }

    /// Hands the request over to the caller for good. The task stays
    /// suspended and can be resumed as before.
    pub fn take(&mut self) -> (r: Option<Request>)
        ensures
            r == old(self).pending(),
            final(self).pending() is None,
            final(self).task() == old(self).task(),
    {
        self.request.take()
    }

    /// Runs one step of the task through the slot `ch`, which holds the
    /// response for it or nothing, and keeps the request of the next call.
    fn run_async<'a, Response>(&mut self, ch: Channel<'a, Request, Response>) where
        T: Task<Request, Response>,

        requires
            ch.request() is None,
        ensures
            old(self).task.step(ch.response(), final(self).task, final(self).request),
    {
        let mut ch = ch;
        let response = wake(&mut ch);
        let call = self.task.resume(response);
        self.request = suspend(call, &mut ch);
    }
}

/// The first half of a step, before the task runs: the call in which the task
/// waits takes the response out of the slot. At the task's start nothing is in
/// flight, and the task is resumed with nothing.
pub(crate) fn wake<'a, Request, Response>(ch: &mut Channel<'a, Request, Response>) -> (response:
    SansResponse<'a, Response>)
    requires
        old(ch).request() is None,
    ensures
        response@ == old(ch).response(),
        *final(ch) == Channel::<Request, Response>::Empty,
{
    let mut waiting = SansHandle::<Request, Response> { request: None, _response: PhantomData };
    match waiting.poll(ch) {
        Ok(Poll::Ready(response)) => response,
        _ => SansResponse { response: None },
    }
}

/// The second half of a step, after the task has run: the call that ended the
/// step puts its request into the empty slot, and the driver takes it out.
pub(crate) fn suspend<'a, Request, Response>(
    call: Option<SansHandle<Request, Response>>,
    ch: &mut Channel<'a, Request, Response>,
) -> (request: Option<Request>)
    requires
        *old(ch) == Channel::<Request, Response>::Empty,
    ensures
        request == pending_of(call),
        *final(ch) == Channel::<Request, Response>::Empty,
{
    match call {
        Some(call) => {
            let mut call = call;
            let _ = call.poll(ch);
            match ch.take_request() {
                Ok(request) => Some(request),
                Err(_) => None,
            }
        },
        None => None,
    }
}

impl<Request, Response> Io<Request, Response> {
    /// The one value of this type: it carries nothing but the two types.
    pub closed spec fn bound() -> Self {
        Io { _request: PhantomData, _response: PhantomData }
    }

    /// Starts `task` and runs it to its first call or to its end.
    ///
    /// Returns the suspended task with the request of that call; `None` where
    /// the task ends without a call.
    pub fn start<T: Task<Request, Response>>(&self, task: T) -> (r: Option<IoRequest<Request, T>>)
        ensures
            match r {
                Some(handler) => handler.pending() is Some && task.step(
                    None,
                    handler.task(),
                    handler.pending(),
                ),
                None => exists|next: T| task.step(None, next, None),
            },
            makes_no_call(task, None) ==> r is None,
    {
        let mut handler = IoRequest { request: None, task };
        handler.run_async(Channel::<Request, Response>::Empty);
        if handler.request.is_some() {
            Some(handler)
        } else {
            None
        }
    }

    /// Resumes the task with the response to its pending request and runs it to
    /// its next call or to its end. The suspended task is used up: the step it
    /// stood for cannot be answered again.
    ///
    /// Returns the task suspended anew with the request of the next call;
    /// `None` where the task has ended.
    pub fn handle<T: Task<Request, Response>>(
        &self,
        handler: IoRequest<Request, T>,
        response: &Response,
    ) -> (r: Option<IoRequest<Request, T>>)
        ensures
            match r {
                Some(next) => next.pending() is Some && handler.task().step(
                    Some(*response),
                    next.task(),
                    next.pending(),
                ),
                None => exists|next: T| handler.task().step(Some(*response), next, None),
            },
            makes_no_call(handler.task(), Some(*response)) ==> r is None,
    {
        let mut next = handler;
        next.run_async(Channel::rx(response));
        assert(handler.task().step(Some(*response), next.task(), next.pending()));
        if next.request.is_some() {
            Some(next)
        } else {
            None
        }
    }
}

/// The two sides of one engine, bound to one request and one response type.
pub fn new<Request, Response>() -> (r: (Sans<Request, Response>, Io<Request, Response>))
    ensures
        r == (Sans::<Request, Response>::bound(), Io::<Request, Response>::bound()),
{
    (
        Sans { _request: PhantomData, _response: PhantomData },
        Io { _request: PhantomData, _response: PhantomData },
    )
}

} // verus!
