use mini_runtime::runtime::channel::{Queued, Refused};
use mini_runtime::runtime::thread_pool::{Dispatch, PoolError, ThreadPool};
use mini_runtime::runtime::worker_thread::WorkerThread;
use std::sync::mpsc::{channel, Receiver, Sender};

/// Whether the task was taken, by which worker, and which task the record
/// names.
fn outcome(dispatch: Dispatch) -> (bool, usize, usize) {
    match dispatch {
        Dispatch::Sent { worker, queued } => (true, worker, queued.get_task()),
        Dispatch::Failed { worker, refused } => (false, worker, refused.get_task()),
    }
}

fn answer(sent: Result<Queued, Refused>) -> Result<usize, usize> {
    match sent {
        Ok(queued) => Ok(queued.get_task()),
        Err(refused) => Err(refused.get_task()),
    }
}

fn queues(n: usize) -> (Vec<Sender<usize>>, Vec<Receiver<usize>>) {
    let mut senders = Vec::new();
    let mut receivers = Vec::new();
    for _ in 0..n {
        let (s, r) = channel::<usize>();
        senders.push(s);
        receivers.push(r);
    }
    (senders, receivers)
}

#[test]
fn worker_counts_what_it_is_sent() {
    let (sender, receiver) = channel::<usize>();
    let mut worker = WorkerThread::new(3, None, sender);
    assert_eq!(worker.get_amount_sent(), 0);
    assert_eq!(answer(worker.send(11)), Ok(11));
    assert_eq!(answer(worker.send(12)), Ok(12));
    assert_eq!(worker.get_amount_sent(), 2);
    assert_eq!(receiver.recv().unwrap(), 11);
    assert_eq!(receiver.recv().unwrap(), 12);
}

#[test]
fn worker_without_a_name_is_unnamed() {
    let (sender, _receiver) = channel::<usize>();
    let worker = WorkerThread::new(0, None, sender);
    assert_eq!(worker.get_name(), "unnamed");
}

#[test]
fn worker_keeps_the_name_it_was_given() {
    let (sender, _receiver) = channel::<usize>();
    let worker = WorkerThread::new(0, Some(String::from("reader")), sender);
    assert_eq!(worker.get_name(), "reader");
}

#[test]
fn worker_hands_the_task_back_when_its_thread_is_gone() {
    let (sender, receiver) = channel::<usize>();
    let mut worker = WorkerThread::new(0, None, sender);
    assert_eq!(answer(worker.send(1)), Ok(1));
    drop(receiver);
    assert_eq!(answer(worker.send(2)), Err(2));
    assert_eq!(worker.get_amount_sent(), 1);
}

#[test]
fn worker_starts_counting_again_on_a_new_thread() {
    let (sender, receiver) = channel::<usize>();
    let mut worker = WorkerThread::new(5, Some(String::from("thread-5")), sender);
    assert_eq!(answer(worker.send(1)), Ok(1));
    drop(receiver);
    let (fresh, fresh_receiver) = channel::<usize>();
    worker.recreate_thread(fresh);
    assert_eq!(worker.get_amount_sent(), 0);
    assert_eq!(worker.get_name(), "thread-5");
    assert_eq!(answer(worker.send(9)), Ok(9));
    assert_eq!(fresh_receiver.recv().unwrap(), 9);
    assert_eq!(worker.get_amount_sent(), 1);
}

#[test]
fn thread_amount_is_between_one_and_the_machine() {
    assert!(!WorkerThread::ok_thread_amount(0, 4));
    assert!(WorkerThread::ok_thread_amount(1, 4));
    assert!(WorkerThread::ok_thread_amount(4, 4));
    assert!(!WorkerThread::ok_thread_amount(5, 4));
    assert!(!WorkerThread::ok_thread_amount(1, 0));
}

#[test]
fn pool_names_its_workers_by_position() {
    let (senders, _receivers) = queues(13);
    let pool = ThreadPool::new(senders, 16);
    assert_eq!(pool.len(), 13);
    assert_eq!(pool.worker(0).unwrap().get_name(), "thread-0");
    assert_eq!(pool.worker(9).unwrap().get_name(), "thread-9");
    assert_eq!(pool.worker(10).unwrap().get_name(), "thread-10");
    assert_eq!(pool.worker(12).unwrap().get_name(), "thread-12");
    assert!(pool.worker(13).is_none());
}

#[test]
fn pool_prefers_idle_workers_first() {
    let (senders, receivers) = queues(3);
    let mut pool = ThreadPool::new(senders, 8);
    assert_eq!(pool.select(), 0);
    assert_eq!(outcome(pool.distribute_task(7)), (true, 0, 7));
    assert_eq!(outcome(pool.distribute_task(8)), (true, 1, 8));
    assert_eq!(outcome(pool.distribute_task(9)), (true, 2, 9));
    assert_eq!(receivers[0].try_recv().unwrap(), 7);
    assert_eq!(receivers[1].try_recv().unwrap(), 8);
    assert_eq!(receivers[2].try_recv().unwrap(), 9);
}

#[test]
fn pool_without_idle_workers_picks_the_busiest_lowest_first() {
    let (senders, receivers) = queues(3);
    let mut pool = ThreadPool::new(senders, 8);
    for task in 0..3 {
        pool.distribute_task(task);
    }
    // every count is one: the first of the level workers is picked
    assert_eq!(outcome(pool.distribute_task(10)), (true, 0, 10));
    // worker 0 now has the highest count and keeps being picked
    assert_eq!(outcome(pool.distribute_task(11)), (true, 0, 11));
    assert_eq!(pool.worker(0).unwrap().get_amount_sent(), 3);
    assert_eq!(pool.worker(1).unwrap().get_amount_sent(), 1);
    assert_eq!(pool.worker(2).unwrap().get_amount_sent(), 1);
    assert_eq!(receivers[0].try_iter().collect::<Vec<usize>>(), vec![0, 10, 11]);
}

#[test]
fn pool_reports_a_worker_whose_thread_is_gone() {
    let (senders, mut receivers) = queues(2);
    let mut pool = ThreadPool::new(senders, 8);
    drop(receivers.remove(0));
    assert_eq!(outcome(pool.distribute_task(4)), (false, 0, 4));
    assert_eq!(pool.worker(0).unwrap().get_amount_sent(), 0);
    assert_eq!(pool.worker(1).unwrap().get_amount_sent(), 0);
}

#[test]
fn pool_offers_the_task_again_after_a_restart() {
    let (senders, mut receivers) = queues(2);
    let mut pool = ThreadPool::new(senders, 8);
    drop(receivers.remove(0));
    assert_eq!(outcome(pool.distribute_task(4)), (false, 0, 4));
    let (fresh, fresh_receiver) = channel::<usize>();
    assert_eq!(pool.recover(0, fresh, 4).unwrap().get_task(), 4);
    assert_eq!(fresh_receiver.try_recv().unwrap(), 4);
    assert_eq!(pool.worker(0).unwrap().get_amount_sent(), 1);
    assert_eq!(pool.worker(0).unwrap().get_name(), "thread-0");
    // the next task goes to the worker that is still idle
    assert_eq!(outcome(pool.distribute_task(5)), (true, 1, 5));
}

#[test]
fn pool_gives_up_after_a_second_refusal() {
    let (senders, mut receivers) = queues(1);
    let mut pool = ThreadPool::new(senders, 8);
    drop(receivers.remove(0));
    assert_eq!(outcome(pool.distribute_task(4)), (false, 0, 4));
    let (fresh, fresh_receiver) = channel::<usize>();
    drop(fresh_receiver);
    match pool.recover(0, fresh, 4) {
        Err(PoolError::DispatchFailed { refused }) => assert_eq!(refused.get_task(), 4),
        other => panic!("the second refusal is final: {:?}", other),
    }
    assert_eq!(pool.worker(0).unwrap().get_amount_sent(), 0);
}

#[test]
fn pool_knows_no_worker_beyond_its_size() {
    let (senders, _receivers) = queues(2);
    let mut pool = ThreadPool::new(senders, 8);
    let (fresh, _fresh_receiver) = channel::<usize>();
    assert!(matches!(
        pool.recover(2, fresh, 4),
        Err(PoolError::UnknownWorker { worker: 2 })
    ));
}

#[test]
fn a_worker_counts_what_its_queue_answered() {
    let (sender, receiver) = channel::<usize>();
    let (other, other_receiver) = channel::<usize>();
    let mut source = WorkerThread::new(0, None, other);
    let mut worker = WorkerThread::new(1, None, sender);
    // an offer that was taken is counted, and handed on as it came
    let taken = source.send(21);
    assert_eq!(answer(worker.settle_send(taken)), Ok(21));
    assert_eq!(worker.get_amount_sent(), 1);
    // an offer that was refused is not
    drop(other_receiver);
    let refused = source.send(22);
    assert_eq!(answer(worker.settle_send(refused)), Err(22));
    assert_eq!(worker.get_amount_sent(), 1);
    assert!(receiver.try_recv().is_err());
}

#[test]
fn the_task_that_is_sent_is_the_task_that_arrives() {
    let (senders, receivers) = queues(2);
    let mut pool = ThreadPool::new(senders, 8);
    for task in [40, 41, 42, 43] {
        let (sent, worker, named) = outcome(pool.distribute_task(task));
        assert!(sent);
        assert_eq!(named, task);
        assert_eq!(receivers[worker].try_recv().unwrap(), task);
    }
    // nothing was put anywhere else
    assert!(receivers[0].try_recv().is_err());
    assert!(receivers[1].try_recv().is_err());
}

#[test]
fn after_a_restart_the_same_task_goes_to_the_new_queue_only() {
    let (senders, mut receivers) = queues(2);
    let mut pool = ThreadPool::new(senders, 8);
    drop(receivers.remove(0));
    assert_eq!(outcome(pool.distribute_task(4)), (false, 0, 4));
    let (fresh, fresh_receiver) = channel::<usize>();
    assert_eq!(pool.recover(0, fresh, 4).unwrap().get_task(), 4);
    assert_eq!(fresh_receiver.try_iter().collect::<Vec<usize>>(), vec![4]);
    assert!(receivers[0].try_recv().is_err());
}
