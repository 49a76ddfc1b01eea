//! A driver that reports misuse instead of ruling it out by ownership.
//!
//! [`Io`] hands out a suspended task that a step uses up. This driver keeps the
//! task itself and hands out a token that can be copied; a generation count
//! tells the token of the pending step from the tokens of the steps before
//! it, and each misuse comes back as the error that names it.

use crate::slot::EngineError;
use crate::Io;
use crate::IoRequest;
use crate::Task;
use vstd::prelude::*;

verus! {

/// The right to answer one step of a driver's task. A token names its step by
/// the step's count alone.
#[derive(Clone, Copy, Debug, PartialEq, Eq, Structural)]
pub struct Token {
    generation: u64,
}

impl Token {
    /// The count of the step that the token belongs to.
    pub closed spec fn generation(&self) -> u64 {
        self.generation
    }
}

/// Where a driver's task is in its life.
pub enum Phase {
    /// The task has not been started.
    Fresh,
    /// The task is suspended in a call.
    Suspended,
    /// The task has ended.
    Finished,
}

/// The count after `generation`. It starts again at 0 after the largest.
pub open spec fn next_generation(generation: u64) -> u64 {
    if generation == u64::MAX {
        0
    } else {
        (generation + 1) as u64
    }
}

/// A task with the driver that steps it.
pub struct Driver<Request, Response, T> {
    io: Io<Request, Response>,
    fresh: Option<T>,
    suspended: Option<IoRequest<Request, T>>,
    generation: u64,
}

impl<Request, Response, T: Task<Request, Response>> Driver<Request, Response, T> {
    /// Where the task is in its life.
    pub closed spec fn phase(&self) -> Phase {
        if self.suspended is Some {
            Phase::Suspended
        } else if self.fresh is Some {
            Phase::Fresh
        } else {
            Phase::Finished
        }
    }

    /// The task, as long as it has not ended.
    pub closed spec fn task(&self) -> Option<T> {
        match (self.suspended, self.fresh) {
            (Some(suspended), _) => Some(suspended.task()),
            (None, fresh) => fresh,
        }
    }

    /// The request of the call in which the task is suspended.
    pub closed spec fn pending(&self) -> Option<Request> {
        match self.suspended {
            Some(suspended) => suspended.pending(),
            None => None,
        }
    }

    /// The count of the pending step.
    pub closed spec fn generation(&self) -> u64 {
        self.generation
    }

    /// Whether `token` is the token of the pending step.
    pub open spec fn accepts(&self, token: Token) -> bool {
        self.phase() is Suspended && token.generation() == self.generation()
    }

    /// The error that `token` meets, if it is not the token of the pending
    /// step: `HandleReused` where the task is suspended in another step,
    /// `NoPendingRequest` where it is not suspended at all.
    pub open spec fn refusal(&self, token: Token) -> Option<EngineError> {
        if self.accepts(token) {
            None
        } else if self.phase() is Suspended {
            Some(EngineError::HandleReused)
        } else {
            Some(EngineError::NoPendingRequest)
        }
    }

    /// A token answers one step only: once its step has run, the driver
    /// refuses it, whether the task is suspended again or has ended.
    pub proof fn law_used_token_is_refused(before: Self, token: Token, after: Self)
        requires
            before.accepts(token),
            after.generation() == next_generation(before.generation()),
        ensures
            after.refusal(token) is Some,
    {
    }

    /// A driver for `task`, which has not been started.
    pub fn new(io: Io<Request, Response>, task: T) -> (driver: Self)
        ensures
            driver.phase() is Fresh,
            driver.task() == Some(task),
            driver.generation() == 0,
    {
        Driver { io, fresh: Some(task), suspended: None, generation: 0 }
    }

    /// Starts the task and runs it to its first call or to its end.
    ///
    /// Returns the token of the first step, or `None` where the task has ended
    /// without a call. A task that is suspended has a request that nobody has
    /// answered yet (`RequestNotTaken`); one that has ended has nothing pending
    /// (`NoPendingRequest`). Neither is started again.
    pub fn start(&mut self) -> (r: Result<Option<Token>, EngineError>)
        ensures
            match old(self).phase() {
                Phase::Fresh => {
                    &&& r is Ok
                    &&& final(self).generation() == old(self).generation()
                    &&& match r.unwrap() {
                        Some(token) => {
                            &&& final(self).accepts(token)
                            &&& final(self).task() is Some
                            &&& final(self).pending() is Some
                            &&& old(self).task().unwrap().step(
                                None,
                                final(self).task().unwrap(),
                                final(self).pending(),
                            )
                        },
                        None => {
                            &&& final(self).phase() is Finished
                            &&& exists|next: T| old(self).task().unwrap().step(None, next, None)
                        },
                    }
                },
                Phase::Suspended => r == Err::<Option<Token>, EngineError>(
                    EngineError::RequestNotTaken,
                ) && *final(self) == *old(self),
                Phase::Finished => r == Err::<Option<Token>, EngineError>(
                    EngineError::NoPendingRequest,
                ) && *final(self) == *old(self),
            },
    {
        if self.suspended.is_some() {
            return Err(EngineError::RequestNotTaken);
        }
        match self.fresh.take() {
            None => Err(EngineError::NoPendingRequest),
            Some(task) => {
                self.suspended = self.io.start(task);
                if self.suspended.is_some() {
                    Ok(Some(Token { generation: self.generation }))
                } else {
                    Ok(None)
                }
            },
        }
    }

    /// Answers the pending step with `response` and runs the task to its next
    /// call or to its end.
    ///
    /// Only the token of the pending step is accepted, and a step that has run
    /// leaves its token behind: the same token is refused from then on. A
    /// refusal changes nothing. It is `HandleReused` for a token of another
    /// step, and `NoPendingRequest` where the task is not suspended at all.
    pub fn handle(&mut self, token: Token, response: &Response) -> (r: Result<
        Option<Token>,
        EngineError,
    >)
        ensures
            r is Ok <==> old(self).accepts(token),
            r is Err ==> Some(r->Err_0) == old(self).refusal(token) && *final(self) == *old(self),
            r is Ok ==> final(self).generation() == next_generation(old(self).generation()),
            r is Ok ==> final(self).refusal(token) is Some,
            r is Ok ==> match r.unwrap() {
                Some(next) => {
                    &&& final(self).accepts(next)
                    &&& final(self).task() is Some
                    &&& final(self).pending() is Some
                    &&& old(self).task().unwrap().step(
                        Some(*response),
                        final(self).task().unwrap(),
                        final(self).pending(),
                    )
                },
                None => {
                    &&& final(self).phase() is Finished
                    &&& exists|next: T| old(self).task().unwrap().step(Some(*response), next, None)
                },
            },
    {
        if self.suspended.is_none() {
            return Err(EngineError::NoPendingRequest);
        }
        if token.generation != self.generation {
            return Err(EngineError::HandleReused);
        }
        let suspended = self.suspended.take().unwrap();
        self.fresh = None;
        self.suspended = self.io.handle(suspended, response);
        proof {
            if self.suspended is None {
                let end = choose|next: T| suspended.task().step(Some(*response), next, None);
                assert(old(self).task().unwrap().step(Some(*response), end, None));
            }
        }
        self.generation = if self.generation == u64::MAX {
            0
        } else {
            self.generation + 1
        };
        if self.suspended.is_some() {
            Ok(Some(Token { generation: self.generation }))
        } else {
            Ok(None)
        }
    }

    /// The request of the call in which the task is suspended, if it is.
    pub fn request(&self) -> (r: Option<&Request>)
        ensures
            match r {
                Some(request) => self.pending() == Some(*request),
                None => self.pending() is None,
            },
    {
        match &self.suspended {
            Some(suspended) => suspended.request(),
            None => None,
        }
    }
}

} // verus!
