//! Running a task against canned responses.
//!
//! A task performs no I/O, so it can be run to its end from a list of
//! responses alone. The requests come out in the order in which the task
//! makes its calls, and each response answers the call before it.

use crate::Io;
use crate::IoRequest;
use crate::Task;
use vstd::prelude::*;

verus! {

/// Whether `task`, resumed with `first` and then answered with `responses` one
/// after the other, can issue exactly `requests`, in this order. The run is
/// over when the task has ended or when its call finds no response left.
pub open spec fn replays<Request, Response, T: Task<Request, Response>>(
    task: T,
    first: Option<Response>,
    responses: Seq<Response>,
    requests: Seq<Request>,
) -> bool
    decreases responses.len(),
{
    exists|next: T, request: Option<Request>|
        {
            &&& #[trigger] task.step(first, next, request)
            &&& match request {
                None => requests.len() == 0,
                Some(request) => {
                    &&& requests.len() > 0
                    &&& requests[0] == request
                    &&& if responses.len() == 0 {
                        requests.len() == 1
                    } else {
                        replays(
                            next,
                            Some(responses[0]),
                            responses.drop_first(),
                            requests.drop_first(),
                        )
                    }
                },
            }
        }
}

/// Whether a run that stands at `step`, with the responses from `k` on still
/// to come, can go on to issue exactly `rest`.
spec fn goes_on<Request, Response, T: Task<Request, Response>>(
    step: Option<IoRequest<Request, T>>,
    k: int,
    responses: Seq<Response>,
    rest: Seq<Request>,
) -> bool {
    match step {
        None => rest.len() == 0,
        Some(suspended) => {
            &&& rest.len() > 0
            &&& Some(rest[0]) == suspended.pending()
            &&& if k == responses.len() {
                rest.len() == 1
            } else {
                replays(
                    suspended.task(),
                    Some(responses[k]),
                    responses.skip(k + 1),
                    rest.drop_first(),
                )
            }
        },
    }
}

impl<Request, Response> Io<Request, Response> {
    /// Starts `task` and answers its calls with `responses`, one after the
    /// other, until the task has ended or a call finds no response left.
    ///
    /// Returns the requests of the task's calls, in the order of the calls.
    pub fn replay<T: Task<Request, Response>>(&self, task: T, responses: &Vec<Response>) -> (requests:
        Vec<Request>)
        ensures
            replays(task, None, responses@, requests@),
    {
        let mut requests: Vec<Request> = Vec::new();
        let mut step = self.start(task);
        let mut k: usize = 0;
        proof {
            assert forall|rest: Seq<Request>| #[trigger]
                goes_on(step, 0, responses@, rest) implies replays(
                task,
                None,
                responses@,
                requests@ + rest,
            ) by {
                assert(requests@ + rest =~= rest);
            }
        }
        loop
            invariant
                k <= responses@.len(),
                step is Some ==> step.unwrap().pending() is Some,
                forall|rest: Seq<Request>| #[trigger]
                    goes_on(step, k as int, responses@, rest) ==> replays(
                        task,
                        None,
                        responses@,
                        requests@ + rest,
                    ),
            decreases responses@.len() - k,
        {
            let mut suspended = match step {
                Some(suspended) => suspended,
                None => {
                    assert(goes_on(step, k as int, responses@, Seq::<Request>::empty()));
                    return requests;
                },
            };
            let ghost before = requests@;
            let ghost at = suspended;
            let request = match suspended.take() {
                Some(request) => request,
                None => { return requests; },
            };
            requests.push(request);
            if k == responses.len() {
                proof {
                    assert(goes_on(step, k as int, responses@, seq![request]));
                    assert(before + seq![request] =~= requests@);
                }
                return requests;
            }
            let next = self.handle(suspended, &responses[k]);
            proof {
                assert forall|rest: Seq<Request>| #[trigger]
                    goes_on(next, k + 1, responses@, rest) implies replays(
                    task,
                    None,
                    responses@,
                    requests@ + rest,
                ) by {
                    let whole = seq![request] + rest;
                    assert(whole.drop_first() =~= rest);
                    assert(before + whole =~= requests@ + rest);
                    let later = responses@.skip(k + 1);
                    if later.len() > 0 {
                        assert(later.drop_first() =~= responses@.skip(k + 2));
                    }
                    match next {
                        Some(then) => {
                            assert(at.task().step(
                                Some(responses@[k as int]),
                                then.task(),
                                then.pending(),
                            ));
                        },
                        None => {
                            let end = choose|end: T|
                                at.task().step(Some(responses@[k as int]), end, None);
                            assert(at.task().step(
                                Some(responses@[k as int]),
                                end,
                                None::<Request>,
                            ));
                        },
                    }
                    assert(goes_on(step, k as int, responses@, whole));
                }
            }
            step = next;
            k += 1;
        }
    }
}

} // verus!
