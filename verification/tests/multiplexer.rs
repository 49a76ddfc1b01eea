use asansio::mux::Job;
use asansio::mux::Multiplexer;
use asansio::mux::Solo;
use asansio::mux::Spawner;
use asansio::slot::EngineError;
use asansio::tlv::Tlv;
use asansio::tlv::TlvRequest;
use asansio::tlv::TlvResponse;
use asansio::Sans;
use asansio::SansHandle;
use asansio::SansResponse;

/// Calls `calls` times with `name * 100 + n` for the n-th call. After its
/// first response it spawns one child for each name in `children`.
struct Worker {
    sans: Sans<u32, u32>,
    name: u32,
    calls: u32,
    made: u32,
    children: Vec<u32>,
}

impl Worker {
    fn new(name: u32, calls: u32) -> Self {
        let (sans, _) = asansio::new::<u32, u32>();
        Worker { sans, name, calls, made: 0, children: Vec::new() }
    }

    fn with_children(name: u32, calls: u32, children: Vec<u32>) -> Self {
        let (sans, _) = asansio::new::<u32, u32>();
        Worker { sans, name, calls, made: 0, children }
    }
}

impl Job<u32, u32> for Worker {
    fn resume(
        &mut self,
        response: SansResponse<'_, u32>,
        spawner: &mut Spawner<Self>,
    ) -> Option<SansHandle<u32, u32>> {
        if response.response().is_some() {
            for child in self.children.drain(..) {
                spawner.spawn(Worker::new(child, 1));
            }
        }
        if self.made == self.calls {
            return None;
        }
        self.made += 1;
        Some(self.sans.handle(response, self.name * 100 + self.made))
    }
}

#[test]
fn start_gives_each_task_an_id() {
    let mut mux = Multiplexer::<u32, u32, Worker>::new();
    mux.spawn(Worker::new(1, 2));
    mux.spawn(Worker::new(2, 2));
    mux.spawn(Worker::new(3, 2));
    assert_eq!(mux.start(), vec![(0, 101), (1, 201), (2, 301)]);
    assert_eq!(mux.start(), vec![]);
}

#[test]
fn start_of_nothing_is_empty() {
    let mut mux = Multiplexer::<u32, u32, Worker>::new();
    assert_eq!(mux.start(), vec![]);
}

#[test]
fn task_that_ends_at_once_uses_an_id() {
    let mut mux = Multiplexer::<u32, u32, Worker>::new();
    mux.spawn(Worker::new(1, 1));
    mux.spawn(Worker::new(2, 0));
    mux.spawn(Worker::new(3, 1));
    assert_eq!(mux.start(), vec![(0, 101), (2, 301)]);
    assert_eq!(mux.handle(1, &0), Err(EngineError::UnknownTaskId));
}

#[test]
fn answers_in_any_order() {
    let mut mux = Multiplexer::<u32, u32, Worker>::new();
    mux.spawn(Worker::new(1, 3));
    mux.spawn(Worker::new(2, 3));
    mux.spawn(Worker::new(3, 3));
    assert_eq!(mux.start().len(), 3);

    assert_eq!(mux.handle(2, &0), Ok(vec![(2, 302)]));
    assert_eq!(mux.handle(0, &0), Ok(vec![(0, 102)]));
    assert_eq!(mux.handle(2, &0), Ok(vec![(2, 303)]));
    assert_eq!(mux.handle(1, &0), Ok(vec![(1, 202)]));
    assert_eq!(mux.handle(0, &0), Ok(vec![(0, 103)]));
    assert_eq!(mux.handle(1, &0), Ok(vec![(1, 203)]));
}

#[test]
fn unknown_id_is_an_error() {
    let mut mux = Multiplexer::<u32, u32, Worker>::new();
    assert_eq!(mux.handle(0, &0), Err(EngineError::UnknownTaskId));
    mux.spawn(Worker::new(1, 1));
    // Registered, but not started: it has no id yet.
    assert_eq!(mux.handle(0, &0), Err(EngineError::UnknownTaskId));
    assert_eq!(mux.start(), vec![(0, 101)]);
    assert_eq!(mux.handle(7, &0), Err(EngineError::UnknownTaskId));
    // The error has changed nothing.
    assert_eq!(mux.handle(0, &0), Ok(vec![]));
}

#[test]
fn ended_task_is_unknown() {
    let mut mux = Multiplexer::<u32, u32, Worker>::new();
    mux.spawn(Worker::new(1, 1));
    mux.spawn(Worker::new(2, 2));
    assert_eq!(mux.start(), vec![(0, 101), (1, 201)]);
    assert_eq!(mux.handle(0, &0), Ok(vec![]));
    assert_eq!(mux.handle(0, &0), Err(EngineError::UnknownTaskId));
    assert_eq!(mux.handle(1, &0), Ok(vec![(1, 202)]));
    // Ids are not given again.
    mux.spawn(Worker::new(3, 1));
    assert_eq!(mux.start(), vec![(2, 301)]);
}

#[test]
fn spawned_tasks_are_started_in_the_same_call() {
    let mut mux = Multiplexer::<u32, u32, Worker>::new();
    mux.spawn(Worker::with_children(1, 2, vec![5, 6]));
    mux.spawn(Worker::new(2, 1));
    assert_eq!(mux.start(), vec![(0, 101), (1, 201)]);

    assert_eq!(mux.handle(0, &0), Ok(vec![(0, 102), (2, 501), (3, 601)]));
    assert_eq!(mux.handle(3, &0), Ok(vec![]));
    assert_eq!(mux.handle(2, &0), Ok(vec![]));
    assert_eq!(mux.handle(1, &0), Ok(vec![]));
    assert_eq!(mux.handle(0, &0), Ok(vec![]));
    assert_eq!(mux.handle(0, &0), Err(EngineError::UnknownTaskId));
}

#[test]
fn task_that_ends_can_still_spawn() {
    let mut mux = Multiplexer::<u32, u32, Worker>::new();
    mux.spawn(Worker::with_children(1, 1, vec![7]));
    assert_eq!(mux.start(), vec![(0, 101)]);
    assert_eq!(mux.handle(0, &0), Ok(vec![(1, 701)]));
    assert_eq!(mux.handle(0, &0), Err(EngineError::UnknownTaskId));
}

#[test]
fn handle_starts_what_was_registered_since() {
    let mut mux = Multiplexer::<u32, u32, Worker>::new();
    mux.spawn(Worker::new(1, 2));
    assert_eq!(mux.start(), vec![(0, 101)]);
    mux.spawn(Worker::new(2, 1));
    assert_eq!(mux.handle(0, &0), Ok(vec![(0, 102), (1, 201)]));
}

#[test]
fn plain_tasks_under_the_multiplexer() {
    let mut mux = Multiplexer::<TlvRequest, TlvResponse, Solo<Tlv>>::new();
    let (sans, _) = asansio::new::<TlvRequest, TlvResponse>();
    mux.spawn(Solo { task: Tlv::new(sans) });
    let (sans, _) = asansio::new::<TlvRequest, TlvResponse>();
    mux.spawn(Solo { task: Tlv::new(sans) });
    assert_eq!(mux.start(), vec![(0, TlvRequest::ReadPayload), (1, TlvRequest::ReadPayload)]);

    // Each task has its own bytes.
    assert_eq!(
        mux.handle(0, &TlvResponse::ReadPayload { payload: vec![4, 1] }),
        Ok(vec![(0, TlvRequest::ReadPayload)])
    );
    assert_eq!(
        mux.handle(1, &TlvResponse::ReadPayload { payload: vec![8, 0] }),
        Ok(vec![(1, TlvRequest::Read { tag: 8, val: vec![] })])
    );
    assert_eq!(
        mux.handle(0, &TlvResponse::ReadPayload { payload: vec![9] }),
        Ok(vec![(0, TlvRequest::Read { tag: 4, val: vec![9] })])
    );
}

#[test]
fn cancelled_task_is_gone() {
    let mut mux = Multiplexer::<u32, u32, Worker>::new();
    mux.spawn(Worker::new(1, 2));
    mux.spawn(Worker::new(2, 2));
    mux.spawn(Worker::new(3, 2));
    assert_eq!(mux.start().len(), 3);

    let cancelled = mux.cancel(1).unwrap();
    assert_eq!(cancelled.name, 2);
    assert_eq!(cancelled.made, 1);
    assert!(matches!(mux.cancel(1), Err(EngineError::UnknownTaskId)));
    assert_eq!(mux.handle(1, &0), Err(EngineError::UnknownTaskId));

    // The others go on as if nothing had happened.
    assert_eq!(mux.handle(2, &0), Ok(vec![(2, 302)]));
    assert_eq!(mux.handle(0, &0), Ok(vec![(0, 102)]));
    assert!(matches!(mux.cancel(9), Err(EngineError::UnknownTaskId)));
}

#[test]
fn cancel_does_not_start_waiting_tasks() {
    let mut mux = Multiplexer::<u32, u32, Worker>::new();
    mux.spawn(Worker::new(1, 1));
    assert_eq!(mux.start(), vec![(0, 101)]);
    mux.spawn(Worker::new(2, 1));
    assert!(mux.cancel(0).is_ok());
    assert_eq!(mux.start(), vec![(1, 201)]);
}
