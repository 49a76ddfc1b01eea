//! A multiplexer: many suspended tasks under one caller.
//!
//! Each task gets an id when it is started; ids count up and are never given
//! twice. A response goes to the one task that its id names. A task may spawn
//! further tasks while it runs; every call of the multiplexer starts all the
//! tasks that wait to be started, so that the caller always holds the request
//! of every task that is suspended.

use crate::pending_of;
use crate::slot::Channel;
use crate::slot::EngineError;
use crate::suspend;
use crate::wake;
use crate::SansHandle;
use crate::SansResponse;
use crate::Task;
use core::marker::PhantomData;
use vstd::prelude::*;

verus! {

/// Where a running job leaves the jobs that it spawns.
pub struct Spawner<T> {
    tasks: Vec<T>,
}

impl<T> View for Spawner<T> {
    type V = Seq<T>;

    /// The jobs spawned, first come first.
    closed spec fn view(&self) -> Seq<T> {
        self.tasks@
    }
}

impl<T> Spawner<T> {
    /// A spawner that holds no job.
    pub fn new() -> (spawner: Self)
        ensures
            spawner@ == Seq::<T>::empty(),
    {
        Spawner { tasks: Vec::new() }
    }

    /// Registers `task`: it is started before the multiplexer returns to its
    /// caller.
    pub fn spawn(&mut self, task: T)
        ensures
            final(self)@ == old(self)@.push(task),
    {
        self.tasks.push(task);
    }
}

/// A task that runs under a multiplexer and may spawn others of its kind.
///
/// `step` says which steps the job can make; a job that states nothing of
/// itself makes no call and spawns nothing.
pub trait Job<Request, Response>: Sized {
    /// Whether the job, resumed with `response` (`None` at the very start),
    /// can spawn the jobs `spawned`, in this order, run to a call with
    /// `request` (to its end where `request` is `None`) and be in the state
    /// `next` after that.
    open spec fn step(
        &self,
        response: Option<Response>,
        next: Self,
        request: Option<Request>,
        spawned: Seq<Self>,
    ) -> bool {
        next == *self && request is None && spawned == Seq::<Self>::empty()
    }

    /// Runs one step. The job leaves what it spawns in `spawner`, which comes
    /// empty.
    fn resume(&mut self, response: SansResponse<'_, Response>, spawner: &mut Spawner<Self>) -> (call:
        Option<SansHandle<Request, Response>>)
        requires
            old(spawner)@.len() == 0,
        ensures
            old(self).step(response@, *final(self), pending_of(call), final(spawner)@),
            call is Some ==> pending_of(call) is Some,
    ;
}

/// A task that spawns nothing, as a job.
pub struct Solo<T> {
    pub task: T,
}

impl<Request, Response, T: Task<Request, Response>> Job<Request, Response> for Solo<T> {
    /// The job makes the steps of its task, and spawns nothing.
    open spec fn step(
        &self,
        response: Option<Response>,
        next: Self,
        request: Option<Request>,
        spawned: Seq<Self>,
    ) -> bool {
        self.task.step(response, next.task, request) && spawned == Seq::<Self>::empty()
    }

    fn resume(&mut self, response: SansResponse<'_, Response>, spawner: &mut Spawner<Self>) -> (call:
        Option<SansHandle<Request, Response>>) {
        assert(spawner@ =~= Seq::<Self>::empty());
        self.task.resume(response)
    }
}

/// What a multiplexer holds between two calls.
pub struct MuxView<T> {
    /// The suspended jobs, each with its id, in the order in which they were
    /// started.
    pub live: Seq<(u64, T)>,
    /// The jobs that wait to be started, first come first.
    pub queue: Seq<T>,
    /// The id that the next job gets.
    pub next_id: u64,
}

/// Whether a job with this id is suspended.
pub open spec fn holds<T>(live: Seq<(u64, T)>, id: u64) -> bool {
    exists|i: int| 0 <= i < live.len() && (#[trigger] live[i]).0 == id
}

/// The frontier with the request of job `id` added, if it has one.
pub open spec fn announced<Request>(
    frontier: Seq<(u64, Request)>,
    id: u64,
    request: Option<Request>,
) -> Seq<(u64, Request)> {
    match request {
        Some(request) => frontier.push((id, request)),
        None => frontier,
    }
}

/// The multiplexer after its first waiting job has been started and has
/// spawned `spawned`, called with `request` and become `next`. The job has
/// used up an id, also where it has ended at once.
pub open spec fn started<Request, T>(
    m: MuxView<T>,
    next: T,
    request: Option<Request>,
    spawned: Seq<T>,
) -> MuxView<T> {
    MuxView {
        live: if request is Some {
            m.live.push((m.next_id, next))
        } else {
            m.live
        },
        queue: m.queue.drop_first() + spawned,
        next_id: (m.next_id + 1) as u64,
    }
}

/// The multiplexer after the suspended job at `i` has been resumed and has
/// spawned `spawned`, called with `request` and become `next`. A job that has
/// ended leaves.
pub open spec fn resumed<Request, T>(
    m: MuxView<T>,
    i: int,
    next: T,
    request: Option<Request>,
    spawned: Seq<T>,
) -> MuxView<T> {
    MuxView {
        live: if request is Some {
            m.live.update(i, (m.live[i].0, next))
        } else {
            m.live.remove(i)
        },
        queue: m.queue + spawned,
        next_id: m.next_id,
    }
}

/// Whether starting the waiting jobs of `m` one after the other, those that
/// they spawn included, can lead to `end` and add the requests of the started
/// jobs to `frontier` so that it becomes `out`. The starting stops where no
/// job waits or no id is left.
pub open spec fn drains<Request, Response, T: Job<Request, Response>>(
    m: MuxView<T>,
    frontier: Seq<(u64, Request)>,
    end: MuxView<T>,
    out: Seq<(u64, Request)>,
) -> bool
    decreases u64::MAX - m.next_id,
{
    if m.queue.len() == 0 || m.next_id == u64::MAX {
        end == m && out == frontier
    } else {
        exists|next: T, request: Option<Request>, spawned: Seq<T>|
            {
                &&& #[trigger] m.queue[0].step(None, next, request, spawned)
                &&& drains::<Request, Response, T>(
                    started(m, next, request, spawned),
                    announced(frontier, m.next_id, request),
                    end,
                    out,
                )
            }
    }
}

/// Whether the ids in `s` rise from entry to entry and stay below `bound`.
pub open spec fn rising<A>(s: Seq<(u64, A)>, bound: u64) -> bool {
    &&& forall|i: int| 0 <= i < s.len() ==> (#[trigger] s[i]).0 < bound
    &&& forall|i: int, j: int| 0 <= i < j < s.len() ==> (#[trigger] s[i]).0 < (#[trigger] s[j]).0
}

/// Whether no two entries of `s` have the same id.
pub open spec fn distinct_ids<A>(s: Seq<(u64, A)>) -> bool {
    forall|i: int, j: int|
        0 <= i < s.len() && 0 <= j < s.len() && i != j ==> (#[trigger] s[i]).0 != (#[trigger] s[j]).0
}

/// The multiplexer.
pub struct Multiplexer<Request, Response, T> {
    live: Vec<(u64, T)>,
    queue: Vec<T>,
    next_id: u64,
    _request: PhantomData<Request>,
    _response: PhantomData<Response>,
}

impl<Request, Response, T> View for Multiplexer<Request, Response, T> {
    type V = MuxView<T>;

    /// The suspended jobs, the waiting jobs and the next id.
    closed spec fn view(&self) -> MuxView<T> {
        MuxView { live: self.live@, queue: self.queue@, next_id: self.next_id }
    }
}

/// Runs one step of `task` through the slot `ch`, which holds the response for
/// it or nothing.
fn run<'a, Request, Response, T: Job<Request, Response>>(
    task: &mut T,
    ch: Channel<'a, Request, Response>,
    spawner: &mut Spawner<T>,
) -> (request: Option<Request>)
    requires
        ch.request() is None,
        old(spawner)@.len() == 0,
    ensures
        old(task).step(ch.response(), *final(task), request, final(spawner)@),
{
    let mut ch = ch;
    let response = wake(&mut ch);
    let call = task.resume(response, spawner);
    suspend(call, &mut ch)
}

impl<Request, Response, T: Job<Request, Response>> Multiplexer<Request, Response, T> {
    /// Whether the multiplexer is in order: the ids of the suspended jobs rise
    /// in the order in which the jobs were started, and none has reached the
    /// id that the next job gets.
    pub open spec fn wf(&self) -> bool {
        rising(self@.live, self@.next_id)
    }

    /// A multiplexer without jobs. The first job will get the id 0.
    pub fn new() -> (mux: Self)
        ensures
            mux.wf(),
            mux@ == (MuxView::<T> { live: Seq::empty(), queue: Seq::empty(), next_id: 0 }),
    {
        Multiplexer {
            live: Vec::new(),
            queue: Vec::new(),
            next_id: 0,
            _request: PhantomData,
            _response: PhantomData,
        }
    }

    /// Registers `task`: the next call of `start` or `handle` starts it.
    pub fn spawn(&mut self, task: T)
        requires
            old(self).wf(),
        ensures
            final(self).wf(),
            final(self)@ == (MuxView {
                live: old(self)@.live,
                queue: old(self)@.queue.push(task),
                next_id: old(self)@.next_id,
            }),
    {
        self.queue.push(task);
    }

    /// Starts the waiting jobs, and those that they spawn, and adds the
    /// request of each to `frontier`.
    fn settle(&mut self, frontier: Vec<(u64, Request)>) -> (out: Vec<(u64, Request)>)
        requires
            old(self).wf(),
            rising(frontier@, old(self)@.next_id),
        ensures
            final(self).wf(),
            drains::<Request, Response, T>(old(self)@, frontier@, final(self)@, out@),
            distinct_ids(out@),
    {
        let mut out = frontier;
        while self.queue.len() > 0 && self.next_id < u64::MAX
            invariant
                forall|end: MuxView<T>, done: Seq<(u64, Request)>| #[trigger]
                    drains::<Request, Response, T>(self@, out@, end, done) ==> drains::<
                        Request,
                        Response,
                        T,
                    >(old(self)@, frontier@, end, done),
            decreases u64::MAX - self.next_id,
        {
            let ghost before = self@;
            let ghost announced_before = out@;
            let mut task = self.queue.remove(0);
            let id: u64 = self.next_id;
            self.next_id = id + 1;
            let mut spawner = Spawner::new();
            let request = run(&mut task, Channel::<Request, Response>::Empty, &mut spawner);
            let ghost spawned = spawner@;
            self.queue.append(&mut spawner.tasks);
            let ghost next = task;
            let ghost call = request;
            match request {
                Some(request) => {
                    self.live.push((id, task));
                    out.push((id, request));
                },
                None => {},
            }
            proof {
                assert(self@ == started(before, next, call, spawned));
                assert(out@ == announced(announced_before, id, call));
                assert forall|end: MuxView<T>, done: Seq<(u64, Request)>| #[trigger]
                    drains::<Request, Response, T>(self@, out@, end, done) implies drains::<
                    Request,
                    Response,
                    T,
                >(before, announced_before, end, done) by {
                    assert(before.queue[0].step(None, next, call, spawned));
                }
            }
        }
        proof {
            assert(drains::<Request, Response, T>(self@, out@, self@, out@));
            law_drain_gives_fresh_ids::<Request, Response, T>(old(self)@, frontier@, self@, out@);
        }
        out
    }

    /// Where the suspended job `id` stands among the suspended jobs.
    fn position(&self, id: u64) -> (r: Option<usize>)
        ensures
            match r {
                Some(i) => i < self@.live.len() && self@.live[i as int].0 == id,
                None => !holds(self@.live, id),
            },
    {
        let mut i: usize = 0;
        while i < self.live.len()
            invariant
                i <= self.live@.len(),
                forall|j: int| 0 <= j < i ==> (#[trigger] self.live@[j]).0 != id,
            decreases self.live@.len() - i,
        {
            if self.live[i].0 == id {
                return Some(i);
            }
            i += 1;
        }
        None
    }

    /// Takes the suspended job `id` out of the multiplexer and hands it to the
    /// caller as it is: it gets no further response, and its id is unknown
    /// from then on. No other job is touched, and none is started.
    ///
    /// Where no suspended job has this id, the error is `UnknownTaskId` and
    /// nothing has changed.
    pub fn cancel(&mut self, id: u64) -> (r: Result<T, EngineError>)
        requires
            old(self).wf(),
        ensures
            final(self).wf(),
            r is Ok <==> holds(old(self)@.live, id),
            r is Err ==> r->Err_0 == EngineError::UnknownTaskId && final(self)@ == old(self)@,
            r is Ok ==> exists|i: int|
                {
                    &&& 0 <= i < old(self)@.live.len()
                    &&& #[trigger] old(self)@.live[i] == (id, r.unwrap())
                    &&& final(self)@ == (MuxView {
                        live: old(self)@.live.remove(i),
                        queue: old(self)@.queue,
                        next_id: old(self)@.next_id,
                    })
                },
    {
        match self.position(id) {
            Some(i) => {
                let (_, task) = self.live.remove(i);
                Ok(task)
            },
            None => Err(EngineError::UnknownTaskId),
        }
    }

    /// Starts every waiting job, and every job that these spawn, and runs each
    /// to its first call or to its end.
    ///
    /// Returns the request of each job that has made a call, with the id that
    /// the job was given, in the order in which the jobs were started. The
    /// jobs that were suspended before stay as they are.
    pub fn start(&mut self) -> (frontier: Vec<(u64, Request)>)
        requires
            old(self).wf(),
        ensures
            final(self).wf(),
            drains::<Request, Response, T>(
                old(self)@,
                Seq::<(u64, Request)>::empty(),
                final(self)@,
                frontier@,
            ),
            distinct_ids(frontier@),
            begins_with(final(self)@.live, old(self)@.live),
    {
        let frontier = self.settle(Vec::new());
        proof {
            law_drain_keeps_the_suspended::<Request, Response, T>(
                old(self)@,
                Seq::empty(),
                self@,
                frontier@,
            );
        }
        frontier
    }

    /// Answers the job `id` with `response`, runs it to its next call or to its
    /// end, and starts every job that waits to be started.
    ///
    /// Returns the requests that this has brought: that of the job itself
    /// first, unless it has ended, then those of the jobs started. Every
    /// other suspended job stays as it is. Where no suspended job has this
    /// id, the error is `UnknownTaskId` and nothing has changed.
    pub fn handle(&mut self, id: u64, response: &Response) -> (r: Result<
        Vec<(u64, Request)>,
        EngineError,
    >)
        requires
            old(self).wf(),
        ensures
            final(self).wf(),
            r is Ok <==> holds(old(self)@.live, id),
            r is Err ==> r->Err_0 == EngineError::UnknownTaskId && final(self)@ == old(self)@,
            r is Ok ==> distinct_ids(r.unwrap()@),
            forall|j: int|
                0 <= j < old(self)@.live.len() && old(self)@.live[j].0 != id
                    ==> final(self)@.live.contains(#[trigger] old(self)@.live[j]),
            r is Ok ==> exists|i: int, next: T, request: Option<Request>, spawned: Seq<T>|
                {
                    &&& 0 <= i < old(self)@.live.len()
                    &&& old(self)@.live[i].0 == id
                    &&& #[trigger] old(self)@.live[i].1.step(
                        Some(*response),
                        next,
                        request,
                        spawned,
                    )
                    &&& drains::<Request, Response, T>(
                        resumed(old(self)@, i, next, request, spawned),
                        announced(Seq::empty(), id, request),
                        final(self)@,
                        r.unwrap()@,
                    )
                },
    {
        let i: usize = match self.position(id) {
            Some(i) => i,
            None => { return Err(EngineError::UnknownTaskId); },
        };
        let (_, task) = self.live.remove(i);
        let mut task = task;
        let mut spawner = Spawner::new();
        let request = run(&mut task, Channel::rx(response), &mut spawner);
        let ghost spawned = spawner@;
        let ghost next = task;
        let ghost call = request;
        self.queue.append(&mut spawner.tasks);
        let mut frontier: Vec<(u64, Request)> = Vec::new();
        match request {
            Some(request) => {
                self.live.insert(i, (id, task));
                frontier.push((id, request));
            },
            None => {},
        }
        proof {
            assert(self@.live =~= resumed(old(self)@, i as int, next, call, spawned).live);
            assert(frontier@ =~= announced(Seq::empty(), id, call));
        }
        let out = self.settle(frontier);
        proof {
            assert(old(self)@.live[i as int].1.step(Some(*response), next, call, spawned));
            assert(drains::<Request, Response, T>(
                resumed(old(self)@, i as int, next, call, spawned),
                announced(Seq::empty(), id, call),
                self@,
                out@,
            ));
            law_handle_keeps_the_others::<Request, Response, T>(
                old(self)@,
                i as int,
                next,
                call,
                spawned,
                self@,
                out@,
            );
        }
        Ok(out)
    }
}

/// Whether `s` begins with `p`.
pub open spec fn begins_with<A>(s: Seq<A>, p: Seq<A>) -> bool {
    p.len() <= s.len() && s.subrange(0, p.len() as int) == p
}

/// Whether `task` makes a call in its first step and spawns nothing there.
pub open spec fn calls_alone<Request, Response, T: Job<Request, Response>>(task: T) -> bool {
    forall|next: T, request: Option<Request>, spawned: Seq<T>| #[trigger]
        task.step(None, next, request, spawned) ==> request is Some && spawned.len() == 0
}

/// Ids that rise are distinct.
pub proof fn law_rising_ids_are_distinct<A>(s: Seq<(u64, A)>, bound: u64)
    requires
        rising(s, bound),
    ensures
        distinct_ids(s),
{
    assert forall|i: int, j: int| 0 <= i < s.len() && 0 <= j < s.len() && i != j implies (
    #[trigger] s[i]).0 != (#[trigger] s[j]).0 by {
        if i < j {
            assert(s[i].0 < s[j].0);
        } else {
            assert(s[j].0 < s[i].0);
        }
    }
}

/// Starting the waiting jobs touches nothing that was there: the jobs that
/// were suspended stay as they are, and the requests already in the frontier
/// stay where they are. When it is over, no job waits, unless the ids have run
/// out.
pub proof fn law_drain_keeps_the_suspended<Request, Response, T: Job<Request, Response>>(
    m: MuxView<T>,
    frontier: Seq<(u64, Request)>,
    end: MuxView<T>,
    out: Seq<(u64, Request)>,
)
    requires
        drains::<Request, Response, T>(m, frontier, end, out),
    ensures
        begins_with(end.live, m.live),
        begins_with(out, frontier),
        m.next_id <= end.next_id,
        end.queue.len() == 0 || end.next_id == u64::MAX,
    decreases u64::MAX - m.next_id,
{
    if m.queue.len() == 0 || m.next_id == u64::MAX {
        assert(end.live.subrange(0, m.live.len() as int) =~= m.live);
        assert(out.subrange(0, frontier.len() as int) =~= frontier);
    } else {
        let (next, request, spawned) = choose|next: T, request: Option<Request>, spawned: Seq<T>|
            {
                &&& #[trigger] m.queue[0].step(None, next, request, spawned)
                &&& drains::<Request, Response, T>(
                    started(m, next, request, spawned),
                    announced(frontier, m.next_id, request),
                    end,
                    out,
                )
            };
        let m1 = started(m, next, request, spawned);
        let f1 = announced(frontier, m.next_id, request);
        law_drain_keeps_the_suspended::<Request, Response, T>(m1, f1, end, out);
        assert(end.live.subrange(0, m.live.len() as int) =~= end.live.subrange(
            0,
            m1.live.len() as int,
        ).subrange(0, m.live.len() as int));
        assert(m1.live.subrange(0, m.live.len() as int) =~= m.live);
        assert(out.subrange(0, frontier.len() as int) =~= out.subrange(
            0,
            f1.len() as int,
        ).subrange(0, frontier.len() as int));
        assert(f1.subrange(0, frontier.len() as int) =~= frontier);
    }
}

/// Starting the waiting jobs gives out ids that rise: where the ids of the
/// suspended jobs and of the frontier rise below the next id before, they do
/// so after. No id is given twice.
pub proof fn law_drain_gives_fresh_ids<Request, Response, T: Job<Request, Response>>(
    m: MuxView<T>,
    frontier: Seq<(u64, Request)>,
    end: MuxView<T>,
    out: Seq<(u64, Request)>,
)
    requires
        drains::<Request, Response, T>(m, frontier, end, out),
        rising(m.live, m.next_id),
        rising(frontier, m.next_id),
    ensures
        rising(end.live, end.next_id),
        rising(out, end.next_id),
        distinct_ids(end.live),
        distinct_ids(out),
    decreases u64::MAX - m.next_id,
{
    if m.queue.len() == 0 || m.next_id == u64::MAX {
    } else {
        let (next, request, spawned) = choose|next: T, request: Option<Request>, spawned: Seq<T>|
            {
                &&& #[trigger] m.queue[0].step(None, next, request, spawned)
                &&& drains::<Request, Response, T>(
                    started(m, next, request, spawned),
                    announced(frontier, m.next_id, request),
                    end,
                    out,
                )
            };
        let m1 = started(m, next, request, spawned);
        let f1 = announced(frontier, m.next_id, request);
        assert(rising(m1.live, m1.next_id));
        assert(rising(f1, m1.next_id));
        law_drain_gives_fresh_ids::<Request, Response, T>(m1, f1, end, out);
    }
    law_rising_ids_are_distinct(end.live, end.next_id);
    law_rising_ids_are_distinct(out, end.next_id);
}

/// Where each of the `k` waiting jobs makes a first call and spawns nothing,
/// and `k` ids are left, starting them brings exactly `k` requests, under the
/// `k` ids that follow one another, and every one of the jobs is suspended
/// after that.
pub proof fn law_start_announces_each_job<Request, Response, T: Job<Request, Response>>(
    m: MuxView<T>,
    frontier: Seq<(u64, Request)>,
    end: MuxView<T>,
    out: Seq<(u64, Request)>,
)
    requires
        drains::<Request, Response, T>(m, frontier, end, out),
        forall|i: int|
            0 <= i < m.queue.len() ==> calls_alone::<Request, Response, T>(#[trigger] m.queue[i]),
        m.next_id + m.queue.len() <= u64::MAX,
    ensures
        out.len() == frontier.len() + m.queue.len(),
        end.live.len() == m.live.len() + m.queue.len(),
        end.queue.len() == 0,
        end.next_id == m.next_id + m.queue.len(),
        forall|i: int|
            0 <= i < m.queue.len() ==> (#[trigger] out[frontier.len() + i]).0 == m.next_id + i,
        forall|i: int|
            0 <= i < m.queue.len() ==> (#[trigger] end.live[m.live.len() + i]).0 == m.next_id + i,
    decreases u64::MAX - m.next_id,
{
    if m.queue.len() == 0 || m.next_id == u64::MAX {
    } else {
        let (next, request, spawned) = choose|next: T, request: Option<Request>, spawned: Seq<T>|
            {
                &&& #[trigger] m.queue[0].step(None, next, request, spawned)
                &&& drains::<Request, Response, T>(
                    started(m, next, request, spawned),
                    announced(frontier, m.next_id, request),
                    end,
                    out,
                )
            };
        let m1 = started(m, next, request, spawned);
        let f1 = announced(frontier, m.next_id, request);
        assert(calls_alone::<Request, Response, T>(m.queue[0]));
        assert(request is Some && spawned.len() == 0);
        assert(m1.queue =~= m.queue.drop_first());
        assert forall|i: int| 0 <= i < m1.queue.len() implies calls_alone::<Request, Response, T>(
            #[trigger] m1.queue[i],
        ) by {
            assert(m1.queue[i] == m.queue[i + 1]);
        }
        law_start_announces_each_job::<Request, Response, T>(m1, f1, end, out);
        law_drain_keeps_the_suspended::<Request, Response, T>(m1, f1, end, out);
        assert forall|i: int| 0 <= i < m.queue.len() implies (#[trigger] out[frontier.len()
            + i]).0 == m.next_id + i by {
            if i == 0 {
                assert(out.subrange(0, f1.len() as int)[frontier.len() as int] == f1[frontier.len() as int]);
            } else {
                assert(out[f1.len() + (i - 1)].0 == m1.next_id + (i - 1));
            }
        }
        assert forall|i: int| 0 <= i < m.queue.len() implies (#[trigger] end.live[m.live.len()
            + i]).0 == m.next_id + i by {
            if i == 0 {
                assert(end.live.subrange(0, m1.live.len() as int)[m.live.len() as int]
                    == m1.live[m.live.len() as int]);
            } else {
                assert(end.live[m1.live.len() + (i - 1)].0 == m1.next_id + (i - 1));
            }
        }
    }
}

/// Answering one job leaves every other suspended job as it was, under its
/// id: whatever the answered job does and spawns, the others are still
/// suspended after the call, each in the state it was in.
pub proof fn law_handle_keeps_the_others<Request, Response, T: Job<Request, Response>>(
    m: MuxView<T>,
    i: int,
    next: T,
    request: Option<Request>,
    spawned: Seq<T>,
    end: MuxView<T>,
    out: Seq<(u64, Request)>,
)
    requires
        0 <= i < m.live.len(),
        drains::<Request, Response, T>(
            resumed(m, i, next, request, spawned),
            announced(Seq::empty(), m.live[i].0, request),
            end,
            out,
        ),
    ensures
        forall|j: int| 0 <= j < m.live.len() && j != i ==> end.live.contains(#[trigger] m.live[j]),
{
    let m1 = resumed(m, i, next, request, spawned);
    law_drain_keeps_the_suspended::<Request, Response, T>(
        m1,
        announced(Seq::empty(), m.live[i].0, request),
        end,
        out,
    );
    assert forall|j: int| 0 <= j < m.live.len() && j != i implies end.live.contains(
        #[trigger] m.live[j],
    ) by {
        let k = if request is Some || j < i {
            j
        } else {
            j - 1
        };
        assert(m1.live[k] == m.live[j]);
        assert(end.live.subrange(0, m1.live.len() as int)[k] == end.live[k]);
    }
}

} // verus!
