//! The suspension slot: the one-item exchange cell between a task and its driver.

use vstd::prelude::*;

verus! {

/// A use of the engine against its protocol.
#[derive(Clone, Copy, Debug, PartialEq, Eq, Structural)]
pub enum EngineError {
    /// A request is in flight that the driver has not taken yet.
    RequestNotTaken,
    /// A response is in flight that the task has not taken yet.
    ResponseNotTaken,
    /// Nothing is in flight: the task is not suspended in a call.
    NoPendingRequest,
    /// The token of an earlier step was presented again.
    HandleReused,
    /// No live task has the given id.
    UnknownTaskId,
}

/// The slot holds at most one item in flight: a request on its way from the
/// task to the driver, or a response on its way from the driver to the task.
pub enum Channel<'a, Request, Response> {
    /// A request the task has emitted.
    Tx(Request),
    /// A response the driver has delivered.
    Rx(&'a Response),
    /// Nothing is in flight.
    Empty,
}

impl<'a, Request, Response> Channel<'a, Request, Response> {
    /// The response in flight, if there is one.
    pub open spec fn response(self) -> Option<Response> {
        match self {
            Channel::Rx(response) => Some(*response),
            _ => None,
        }
    }

    /// The request in flight, if there is one.
    pub open spec fn request(self) -> Option<Request> {
        match self {
            Channel::Tx(request) => Some(request),
            _ => None,
        }
    }

    /// The error that a write into this slot meets, if the slot is occupied.
    pub open spec fn occupied(self) -> Option<EngineError> {
        match self {
            Channel::Tx(_) => Some(EngineError::RequestNotTaken),
            Channel::Rx(_) => Some(EngineError::ResponseNotTaken),
            Channel::Empty => None,
        }
    }

    /// A slot that carries `request` to the driver.
    pub fn tx(request: Request) -> (ch: Self)
        ensures
            ch == Channel::<Request, Response>::Tx(request),
    {
        Channel::Tx(request)
    }

    /// A slot that carries `response` to the task.
    pub fn rx(response: &'a Response) -> (ch: Self)
        ensures
            ch == Channel::<Request, Response>::Rx(response),
    {
        Channel::Rx(response)
    }

    /// Puts a request in flight. Only an empty slot accepts it; an occupied one
    /// is left as it was and the error says what it still holds.
    pub fn emit(&mut self, request: Request) -> (r: Result<(), EngineError>)
        ensures
            match old(self).occupied() {
                None => r is Ok && *final(self) == Channel::<Request, Response>::Tx(request),
                Some(e) => r == Err::<(), EngineError>(e) && *final(self) == *old(self),
            },
    {
        match self {
            Channel::Empty => {
                *self = Channel::Tx(request);
                Ok(())
            },
            Channel::Tx(_) => Err(EngineError::RequestNotTaken),
            Channel::Rx(_) => Err(EngineError::ResponseNotTaken),
        }
    }

    /// Puts a response in flight. Only an empty slot accepts it; an occupied one
    /// is left as it was and the error says what it still holds.
    pub fn deliver(&mut self, response: &'a Response) -> (r: Result<(), EngineError>)
        ensures
            match old(self).occupied() {
                None => r is Ok && *final(self) == Channel::<Request, Response>::Rx(response),
                Some(e) => r == Err::<(), EngineError>(e) && *final(self) == *old(self),
            },
    {
        match self {
            Channel::Empty => {
                *self = Channel::Rx(response);
                Ok(())
            },
            Channel::Tx(_) => Err(EngineError::RequestNotTaken),
            Channel::Rx(_) => Err(EngineError::ResponseNotTaken),
        }
    }

    /// Takes the request in flight out of the slot, for the driver. Where the
    /// slot holds a response instead, the error is `ResponseNotTaken`; where it
    /// holds nothing, `NoPendingRequest`. Either way the slot stays as it was.
    pub fn take_request(&mut self) -> (r: Result<Request, EngineError>)
        ensures
            match *old(self) {
                Channel::Tx(request) => r == Ok::<Request, EngineError>(request) && *final(self)
                    == Channel::<Request, Response>::Empty,
                Channel::Rx(_) => r == Err::<Request, EngineError>(EngineError::ResponseNotTaken)
                    && *final(self) == *old(self),
                Channel::Empty => r == Err::<Request, EngineError>(EngineError::NoPendingRequest)
                    && *final(self) == *old(self),
            },
    {
        let mut taken = Channel::Empty;
        core::mem::swap(self, &mut taken);
        match taken {
            Channel::Tx(request) => Ok(request),
            Channel::Rx(response) => {
                *self = Channel::Rx(response);
                Err(EngineError::ResponseNotTaken)
            },
            Channel::Empty => Err(EngineError::NoPendingRequest),
        }
    }

    /// Takes the response in flight out of the slot, for the task. Where the
    /// slot holds a request instead, the error is `RequestNotTaken`; where it
    /// holds nothing, `NoPendingRequest`. Either way the slot stays as it was.
    pub fn take_response(&mut self) -> (r: Result<&'a Response, EngineError>)
        ensures
            match *old(self) {
                Channel::Rx(response) => r == Ok::<&Response, EngineError>(response)
                    && *final(self) == Channel::<Request, Response>::Empty,
                Channel::Tx(_) => r == Err::<&Response, EngineError>(EngineError::RequestNotTaken)
                    && *final(self) == *old(self),
                Channel::Empty => r == Err::<&Response, EngineError>(
                    EngineError::NoPendingRequest,
                ) && *final(self) == *old(self),
            },
    {
        let mut taken = Channel::Empty;
        core::mem::swap(self, &mut taken);
        match taken {
            Channel::Rx(response) => Ok(response),
            Channel::Tx(request) => {
                *self = Channel::Tx(request);
                Err(EngineError::RequestNotTaken)
            },
            Channel::Empty => Err(EngineError::NoPendingRequest),
        }
    }
}

} // verus!
