use mini_runtime::runtime::runtime::{Phase, Runtime, RuntimeError, Spawned};
use mini_runtime::runtime::task_handle::TaskHandle;
use mini_runtime::runtime::thread_pool::{Dispatch, MAX_WORKERS};
use std::sync::mpsc::{channel, Receiver, Sender};

fn queues(n: usize) -> (Vec<Sender<usize>>, Vec<Receiver<usize>>) {
    let mut senders = Vec::new();
    let mut receivers = Vec::new();
    for _ in 0..n {
        let (s, r) = channel::<usize>();
        senders.push(s);
        receivers.push(r);
    }
    (senders, receivers)
}

/// The number of the task, whether the pool took it, by which worker, and
/// which task the record names.
fn taken(spawned: Result<Spawned, RuntimeError>) -> (usize, bool, usize, usize) {
    let spawned = spawned.unwrap_or_else(|e| panic!("the task was refused: {:?}", e));
    let id = spawned.handle.get_task();
    match spawned.dispatch {
        Dispatch::Sent { worker, queued } => (id, true, worker, queued.get_task()),
        Dispatch::Failed { worker, refused } => (id, false, worker, refused.get_task()),
    }
}

fn refusal(built: Result<Runtime, RuntimeError>) -> RuntimeError {
    match built {
        Ok(_) => panic!("the runtime was built"),
        Err(error) => error,
    }
}

#[test]
fn a_runtime_without_workers_is_refused() {
    assert!(matches!(refusal(Runtime::build(Vec::new(), 4)), RuntimeError::NoWorkers));
    assert!(matches!(refusal(Runtime::build(Vec::new(), 0)), RuntimeError::NoWorkers));
}

#[test]
fn a_runtime_with_more_workers_than_the_machine_has_is_refused() {
    let (senders, _receivers) = queues(5);
    assert!(matches!(refusal(Runtime::build(senders, 4)), RuntimeError::TooManyWorkers));
    let (senders, _receivers) = queues(1);
    assert!(matches!(refusal(Runtime::build(senders, 0)), RuntimeError::TooManyWorkers));
}

#[test]
fn a_runtime_with_more_workers_than_a_pool_holds_is_refused() {
    let (senders, _receivers) = queues(MAX_WORKERS + 1);
    assert!(matches!(refusal(Runtime::build(senders, usize::MAX)), RuntimeError::TooManyWorkers));
}

#[test]
fn a_runtime_is_built_with_as_many_workers_as_the_machine_has() {
    let (senders, _receivers) = queues(4);
    let runtime = Runtime::build(senders, 4).unwrap_or_else(|_| panic!("four workers fit"));
    assert_eq!(runtime.get_phase(), Phase::Built);
    assert_eq!(runtime.workers(), 4);
    assert_eq!(runtime.get_pool().worker(3).unwrap().get_name(), "thread-3");
}

#[test]
fn a_runtime_is_started_once() {
    let (senders, _receivers) = queues(2);
    let mut runtime = Runtime::build(senders, 4).unwrap_or_else(|_| panic!("two workers fit"));
    assert_eq!(runtime.init().ok(), Some(TaskHandle::new(0)));
    assert_eq!(runtime.get_phase(), Phase::Running);
    assert!(matches!(runtime.init(), Err(RuntimeError::AlreadyStarted)));
    runtime.shutdown();
    assert!(matches!(runtime.init(), Err(RuntimeError::Stopped)));
}

#[test]
fn spawned_tasks_get_numbers_in_turn() {
    let (senders, receivers) = queues(2);
    let mut runtime = Runtime::build(senders, 4).unwrap_or_else(|_| panic!("two workers fit"));
    assert_eq!(runtime.init().ok(), Some(TaskHandle::new(0)));
    assert_eq!(taken(runtime.spawn()), (1, true, 0, 1));
    assert_eq!(taken(runtime.spawn()), (2, true, 1, 2));
    assert_eq!(receivers[0].try_recv().unwrap(), 1);
    assert_eq!(receivers[1].try_recv().unwrap(), 2);
}

#[test]
fn tasks_may_be_spawned_before_the_runtime_is_started() {
    let (senders, receivers) = queues(1);
    let mut runtime = Runtime::build(senders, 4).unwrap_or_else(|_| panic!("one worker fits"));
    assert_eq!(taken(runtime.spawn()), (0, true, 0, 0));
    assert_eq!(runtime.init().ok(), Some(TaskHandle::new(1)));
    assert_eq!(receivers[0].try_recv().unwrap(), 0);
}

#[test]
fn spawn_after_shutdown_is_refused() {
    let (senders, receivers) = queues(2);
    let mut runtime = Runtime::build(senders, 4).unwrap_or_else(|_| panic!("two workers fit"));
    runtime.init().unwrap_or_else(|e| panic!("{:?}", e));
    runtime.shutdown();
    assert_eq!(runtime.get_phase(), Phase::Stopped);
    assert!(matches!(runtime.spawn(), Err(RuntimeError::Stopped)));
    assert!(receivers[0].try_recv().is_err());
    assert!(receivers[1].try_recv().is_err());
}

#[test]
fn a_worker_that_died_is_restarted_and_the_others_go_on() {
    let (senders, mut receivers) = queues(2);
    let mut runtime = Runtime::build(senders, 4).unwrap_or_else(|_| panic!("two workers fit"));
    runtime.init().unwrap_or_else(|e| panic!("{:?}", e));
    let mut delivered = Vec::new();
    let mut restarts = 0;
    let mut fresh_receiver = None;
    for round in 0..10 {
        if round == 4 {
            // the worker that the next task goes to dies
            let position = runtime.get_pool().select();
            let (_sender, dead) = channel::<usize>();
            drop(std::mem::replace(&mut receivers[position], dead));
        }
        let spawned = runtime.spawn().unwrap_or_else(|e| panic!("{:?}", e));
        match spawned.dispatch {
            Dispatch::Sent { queued, .. } => {
                assert_eq!(queued.get_task(), spawned.handle.get_task());
                delivered.push(spawned.handle.get_task())
            }
            Dispatch::Failed { worker, refused } => {
                let task = refused.get_task();
                assert_eq!(task, spawned.handle.get_task());
                let (sender, receiver) = channel::<usize>();
                let again = runtime.recover(worker, sender, task);
                assert_eq!(again.unwrap_or_else(|e| panic!("{:?}", e)).get_task(), task);
                assert_eq!(receiver.try_recv().unwrap(), task);
                assert_eq!(runtime.get_pool().worker(worker).unwrap().get_amount_sent(), 1);
                fresh_receiver = Some(receiver);
                restarts += 1;
                delivered.push(task);
            },
        }
    }
    assert_eq!(restarts, 1);
    assert_eq!(delivered, (1..=10).collect::<Vec<usize>>());
    assert!(fresh_receiver.as_ref().unwrap().try_recv().is_ok());
    // the runtime still takes tasks
    assert!(matches!(
        runtime.spawn(),
        Ok(Spawned { dispatch: Dispatch::Sent { .. }, .. })
    ));
}

#[test]
fn a_second_refusal_is_reported_to_the_spawner() {
    let (senders, receivers) = queues(1);
    let mut runtime = Runtime::build(senders, 4).unwrap_or_else(|_| panic!("one worker fits"));
    drop(receivers);
    assert_eq!(taken(runtime.spawn()), (0, false, 0, 0));
    let (sender, receiver) = channel::<usize>();
    drop(receiver);
    match runtime.recover(0, sender, 0) {
        Err(RuntimeError::PoolDispatchFailed { refused }) => assert_eq!(refused.get_task(), 0),
        other => panic!("the second refusal is reported: {:?}", other),
    }
    let (sender, _receiver) = channel::<usize>();
    assert!(matches!(runtime.recover(3, sender, 0), Err(RuntimeError::UnknownWorker)));
}
