use asansio::driver::Driver;
use asansio::slot::Channel;
use asansio::slot::EngineError;
use asansio::Poll;
use asansio::Sans;
use asansio::SansHandle;
use asansio::SansResponse;
use asansio::Task;

/// Calls with 10, 20, ... as often as `calls` says, and adds up the responses.
struct Counter {
    sans: Sans<u32, u32>,
    calls: u32,
    made: u32,
    sum: u32,
}

impl Counter {
    fn new(sans: Sans<u32, u32>, calls: u32) -> Self {
        Counter { sans, calls, made: 0, sum: 0 }
    }
}

impl Task<u32, u32> for Counter {
    fn resume(&mut self, response: SansResponse<'_, u32>) -> Option<SansHandle<u32, u32>> {
        if let Some(value) = response.response() {
            self.sum += *value;
        }
        if self.made == self.calls {
            return None;
        }
        self.made += 1;
        Some(self.sans.handle(response, self.made * 10))
    }
}

#[test]
fn slot_accepts_one_item_at_a_time() {
    let first = 7u32;
    let second = 8u32;
    let mut slot: Channel<'_, u32, u32> = Channel::Empty;
    assert_eq!(slot.emit(1), Ok(()));
    assert_eq!(slot.emit(2), Err(EngineError::RequestNotTaken));
    assert_eq!(slot.deliver(&first), Err(EngineError::RequestNotTaken));
    assert_eq!(slot.take_request(), Ok(1));
    assert!(matches!(slot, Channel::Empty));

    assert_eq!(slot.deliver(&first), Ok(()));
    assert_eq!(slot.deliver(&second), Err(EngineError::ResponseNotTaken));
    assert_eq!(slot.emit(3), Err(EngineError::ResponseNotTaken));
    assert_eq!(slot.take_response(), Ok(&7));
    assert!(matches!(slot, Channel::Empty));
}

#[test]
fn slot_reports_what_is_not_there() {
    let response = 7u32;
    let mut slot: Channel<'_, u32, u32> = Channel::Empty;
    assert_eq!(slot.take_request(), Err(EngineError::NoPendingRequest));
    assert_eq!(slot.take_response(), Err(EngineError::NoPendingRequest));

    let mut slot: Channel<'_, u32, u32> = Channel::tx(5);
    assert_eq!(slot.take_response(), Err(EngineError::RequestNotTaken));
    assert!(matches!(slot, Channel::Tx(5)));

    let mut slot: Channel<'_, u32, u32> = Channel::rx(&response);
    assert_eq!(slot.take_request(), Err(EngineError::ResponseNotTaken));
    assert!(matches!(slot, Channel::Rx(&7)));
}

#[test]
fn call_carries_request_then_waits_for_response() {
    let (sans, _) = asansio::new::<u32, u32>();
    let response = 99u32;
    let mut slot: Channel<'_, u32, u32> = Channel::Empty;

    let mut call = sans.start(41);
    assert!(matches!(call.poll(&mut slot), Ok(Poll::Pending)));
    assert!(matches!(slot, Channel::Tx(41)));

    // The request is still in flight: the call waits.
    assert!(matches!(call.poll(&mut slot), Ok(Poll::Pending)));
    assert!(matches!(slot, Channel::Tx(41)));

    assert_eq!(slot.take_request(), Ok(41));
    assert!(matches!(call.poll(&mut slot), Err(EngineError::NoPendingRequest)));

    assert_eq!(slot.deliver(&response), Ok(()));
    match call.poll(&mut slot) {
        Ok(Poll::Ready(answer)) => assert_eq!(answer.response(), Some(&99)),
        _ => panic!("the call should have returned"),
    }
    assert!(matches!(slot, Channel::Empty));
}

#[test]
fn call_does_not_overwrite_the_slot() {
    let (sans, _) = asansio::new::<u32, u32>();
    let response = 99u32;

    let mut slot: Channel<'_, u32, u32> = Channel::tx(1);
    let mut call = sans.start(2);
    assert!(matches!(call.poll(&mut slot), Err(EngineError::RequestNotTaken)));
    assert!(matches!(slot, Channel::Tx(1)));

    let mut slot: Channel<'_, u32, u32> = Channel::rx(&response);
    assert!(matches!(call.poll(&mut slot), Err(EngineError::ResponseNotTaken)));
    assert!(matches!(slot, Channel::Rx(&99)));

    // The call has kept its request and hands it over once the slot is free.
    let mut slot: Channel<'_, u32, u32> = Channel::Empty;
    assert!(matches!(call.poll(&mut slot), Ok(Poll::Pending)));
    assert!(matches!(slot, Channel::Tx(2)));
}

#[test]
fn requests_come_in_the_order_of_the_calls() {
    let (sans, io) = asansio::new::<u32, u32>();
    let mut step = io.start(Counter::new(sans, 3));
    let mut seen = Vec::new();
    while let Some(mut suspended) = step {
        assert_eq!(suspended.request().copied(), Some(10 * (seen.len() as u32 + 1)));
        seen.push(suspended.take().unwrap());
        assert!(suspended.request().is_none());
        step = io.handle(suspended, &1);
    }
    assert_eq!(seen, vec![10, 20, 30]);
}

#[test]
fn task_without_a_call_is_over_at_once() {
    let (sans, io) = asansio::new::<u32, u32>();
    assert!(io.start(Counter::new(sans, 0)).is_none());

    let (sans, io) = asansio::new::<u32, u32>();
    let mut driver = Driver::new(io, Counter::new(sans, 0));
    assert_eq!(driver.start(), Ok(None));
    assert!(driver.request().is_none());
    assert_eq!(driver.start(), Err(EngineError::NoPendingRequest));
}

#[test]
fn token_answers_one_step_only() {
    let (sans, io) = asansio::new::<u32, u32>();
    let mut driver = Driver::new(io, Counter::new(sans, 3));

    let first = driver.start().unwrap().unwrap();
    assert_eq!(driver.request(), Some(&10));

    let second = driver.handle(first, &1).unwrap().unwrap();
    assert_eq!(driver.request(), Some(&20));
    assert_ne!(first, second);

    // The same token again: refused, and the pending request is untouched.
    assert_eq!(driver.handle(first, &5), Err(EngineError::HandleReused));
    assert_eq!(driver.request(), Some(&20));

    let third = driver.handle(second, &1).unwrap().unwrap();
    assert_eq!(driver.request(), Some(&30));
    assert_eq!(driver.handle(second, &5), Err(EngineError::HandleReused));
    assert_eq!(driver.handle(first, &5), Err(EngineError::HandleReused));

    assert_eq!(driver.handle(third, &1), Ok(None));
    assert!(driver.request().is_none());
    assert_eq!(driver.handle(third, &1), Err(EngineError::NoPendingRequest));
}

#[test]
fn driver_refuses_a_second_start() {
    let (sans, io) = asansio::new::<u32, u32>();
    let mut driver = Driver::new(io, Counter::new(sans, 1));
    let token = driver.start().unwrap().unwrap();
    assert_eq!(driver.start(), Err(EngineError::RequestNotTaken));
    assert_eq!(driver.request(), Some(&10));
    assert_eq!(driver.handle(token, &1), Ok(None));
    assert_eq!(driver.start(), Err(EngineError::NoPendingRequest));
}

#[test]
fn driver_refuses_an_answer_before_the_start() {
    let (sans, io) = asansio::new::<u32, u32>();
    let mut other = Driver::new(io, Counter::new(sans, 1));
    let token = other.start().unwrap().unwrap();

    let (sans, io) = asansio::new::<u32, u32>();
    let mut driver = Driver::new(io, Counter::new(sans, 1));
    assert_eq!(driver.handle(token, &1), Err(EngineError::NoPendingRequest));
    assert!(driver.request().is_none());
    assert!(driver.start().unwrap().is_some());
}

#[test]
fn replay_answers_call_after_call() {
    let (sans, io) = asansio::new::<u32, u32>();
    assert_eq!(io.replay(Counter::new(sans, 3), &vec![1, 1, 1]), vec![10, 20, 30]);
}

#[test]
fn replay_stops_where_the_task_ends() {
    let (sans, io) = asansio::new::<u32, u32>();
    assert_eq!(io.replay(Counter::new(sans, 2), &vec![1, 1, 1, 1, 1]), vec![10, 20]);

    let (sans, io) = asansio::new::<u32, u32>();
    assert_eq!(io.replay(Counter::new(sans, 0), &vec![1, 1]), vec![]);
}

#[test]
fn replay_stops_where_the_responses_end() {
    let (sans, io) = asansio::new::<u32, u32>();
    assert_eq!(io.replay(Counter::new(sans, 5), &vec![1, 1]), vec![10, 20, 30]);

    let (sans, io) = asansio::new::<u32, u32>();
    assert_eq!(io.replay(Counter::new(sans, 5), &vec![]), vec![10]);
}
