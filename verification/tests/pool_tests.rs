use threaded_http::pool::RecvOutcome;
use threaded_http::pool::WorkerAction;
use threaded_http::pool::worker_step;
use threaded_http::ThreadPool;

#[test]
fn test_thread_pool_creation() {
    let pool = ThreadPool::new(4);
    assert_eq!(pool.worker_count(), 4);
}

#[test]
fn test_thread_pool_execute() {
    let mut pool = ThreadPool::new(2);

    pool.execute(42);

    let result = pool.dispatch_next();
    assert_eq!(result, 42);
}

#[test]
fn pool_has_exactly_the_requested_workers() {
    for size in [1usize, 2, 7, 16] {
        let pool = ThreadPool::new(size);
        assert_eq!(pool.worker_count(), size);
    }
}

#[test]
fn distinct_jobs_each_executed_exactly_once() {
    let mut pool = ThreadPool::new(4);
    for id in 0..10u64 {
        pool.execute(id);
    }
    pool.close();
    let executed = pool.executed_ids();
    assert_eq!(executed.len(), 10);
    for id in 0..10u64 {
        assert_eq!(executed.iter().filter(|&&j| j == id).count(), 1);
    }
}

#[test]
fn graceful_shutdown_executes_all_and_stops_workers() {
    let mut pool = ThreadPool::new(3);
    pool.execute(1);
    pool.execute(2);
    pool.execute(3);
    assert!(!pool.is_shut_down());
    pool.close();
    assert!(pool.is_shut_down());
    assert_eq!(pool.executed_ids(), &vec![1, 2, 3]);
    assert_eq!(pool.worker_count(), 3);
}

#[test]
fn submission_after_shutdown_is_silently_dropped() {
    let mut pool = ThreadPool::new(2);
    pool.execute(5);
    pool.close();
    pool.execute(7);
    assert_eq!(pool.executed_ids(), &vec![5]);
    assert!(pool.is_shut_down());
}

#[test]
fn jobs_are_dispatched_in_send_order() {
    let mut pool = ThreadPool::new(2);
    pool.execute(5);
    pool.execute(6);
    pool.execute(7);
    assert_eq!(pool.dispatch_next(), 5);
    assert_eq!(pool.dispatch_next(), 6);
    pool.close();
    assert_eq!(pool.executed_ids(), &vec![5, 6, 7]);
}

#[test]
fn closing_twice_changes_nothing() {
    let mut pool = ThreadPool::new(2);
    pool.execute(9);
    pool.close();
    pool.close();
    assert_eq!(pool.executed_ids(), &vec![9]);
    assert!(pool.is_shut_down());
}

#[test]
fn worker_runs_jobs_and_exits_on_terminate_or_disconnect() {
    assert_eq!(worker_step(RecvOutcome::NewJob), WorkerAction::RunJob);
    assert_eq!(worker_step(RecvOutcome::Terminate), WorkerAction::Exit);
    assert_eq!(worker_step(RecvOutcome::Disconnected), WorkerAction::Exit);
}
