use backend::threadpool::{Step, ThreadPool, WorkerState};

fn running(pool: &ThreadPool<u32>) -> usize {
    (0..pool.len()).filter(|w| pool.state(*w) == Some(WorkerState::Busy)).count()
}

#[test]
fn a_new_pool_is_idle_and_open() {
    let pool: ThreadPool<u32> = ThreadPool::new(3);
    assert_eq!(pool.len(), 3);
    assert_eq!(pool.queued(), 0);
    assert!(!pool.is_closing());
    assert!(!pool.is_torn_down());
    for w in 0..3 {
        assert_eq!(pool.state(w), Some(WorkerState::Idle));
    }
    assert_eq!(pool.state(3), None);
}

#[test]
fn jobs_are_handed_out_first_come_first_served() {
    let mut pool: ThreadPool<u32> = ThreadPool::new(2);
    for job in [10, 20, 30] {
        assert_eq!(pool.execute(job), Ok(()));
    }
    assert_eq!(pool.queued(), 3);
    assert!(matches!(pool.take(1), Step::Run(10)));
    assert!(matches!(pool.take(0), Step::Run(20)));
    assert_eq!(pool.state(0), Some(WorkerState::Busy));
    assert_eq!(pool.state(1), Some(WorkerState::Busy));
    pool.finish(1, false);
    assert_eq!(pool.state(1), Some(WorkerState::Idle));
    assert!(matches!(pool.take(1), Step::Run(30)));
    assert_eq!(pool.queued(), 0);
}

#[test]
fn an_idle_worker_waits_on_an_empty_queue() {
    let mut pool: ThreadPool<u32> = ThreadPool::new(1);
    assert!(matches!(pool.take(0), Step::Wait));
    assert_eq!(pool.state(0), Some(WorkerState::Idle));
}

#[test]
fn more_jobs_than_workers_all_complete_with_at_most_that_many_running() {
    let workers = 3;
    let jobs = 10u32;
    let mut pool: ThreadPool<u32> = ThreadPool::new(workers);
    for job in 0..jobs {
        pool.execute(job).unwrap();
    }
    let mut held: Vec<Option<u32>> = vec![None; workers];
    let mut completed: Vec<u32> = Vec::new();
    let mut most = 0;
    let mut round = 0;
    while completed.len() < jobs as usize {
        // every idle worker asks for work
        for w in 0..workers {
            if pool.state(w) == Some(WorkerState::Idle) {
                if let Step::Run(job) = pool.take(w) {
                    held[w] = Some(job);
                }
            }
        }
        assert!(running(&pool) <= workers);
        most = most.max(running(&pool));
        // one busy worker finishes, a different one each round
        let busy: Vec<usize> = (0..workers).filter(|w| held[*w].is_some()).collect();
        let w = busy[round % busy.len()];
        completed.push(held[w].take().unwrap());
        pool.finish(w, false);
        round += 1;
    }
    assert_eq!(most, workers);
    let mut sorted = completed.clone();
    sorted.sort();
    assert_eq!(sorted, (0..jobs).collect::<Vec<u32>>());
    assert_eq!(pool.queued(), 0);
    assert_eq!(running(&pool), 0);
}

#[test]
fn execute_fails_once_shutdown_has_begun() {
    let mut pool: ThreadPool<u32> = ThreadPool::new(2);
    pool.execute(1).unwrap();
    pool.shutdown();
    assert!(pool.is_closing());
    assert_eq!(pool.execute(2), Err(2));
    assert_eq!(pool.execute(3), Err(3));
    assert_eq!(pool.queued(), 1);
}

#[test]
fn workers_finish_the_jobs_before_they_take_a_sentinel() {
    let mut pool: ThreadPool<u32> = ThreadPool::new(2);
    pool.execute(1).unwrap();
    pool.execute(2).unwrap();
    pool.execute(3).unwrap();
    pool.shutdown();
    assert!(matches!(pool.take(0), Step::Run(1)));
    assert!(matches!(pool.take(1), Step::Run(2)));
    pool.finish(0, false);
    assert!(matches!(pool.take(0), Step::Run(3)));
    pool.finish(1, false);
    assert!(matches!(pool.take(1), Step::Exit));
    assert_eq!(pool.state(1), Some(WorkerState::Exited));
    assert!(!pool.is_torn_down());
    pool.finish(0, false);
    assert!(matches!(pool.take(0), Step::Exit));
    assert!(pool.is_torn_down());
    assert_eq!(pool.queued(), 0);
}

#[test]
fn shutdown_queues_one_sentinel_per_worker_once() {
    let mut pool: ThreadPool<u32> = ThreadPool::new(3);
    pool.shutdown();
    pool.shutdown();
    let mut exits = 0;
    for w in 0..3 {
        if let Step::Exit = pool.take(w) {
            exits += 1;
        }
    }
    assert_eq!(exits, 3);
    assert!(pool.is_torn_down());
    pool.shutdown();
    assert!(pool.is_torn_down());
    assert_eq!(pool.execute(9), Err(9));
}

#[test]
fn a_job_can_ask_for_shutdown() {
    let mut pool: ThreadPool<u32> = ThreadPool::new(2);
    pool.execute(1).unwrap();
    pool.execute(2).unwrap();
    assert!(matches!(pool.take(0), Step::Run(1)));
    pool.finish(0, true);
    assert!(pool.is_closing());
    assert_eq!(pool.execute(3), Err(3));
    // the job that waited is still run
    assert!(matches!(pool.take(1), Step::Run(2)));
    assert!(matches!(pool.take(0), Step::Exit));
    pool.finish(1, true);
    assert!(matches!(pool.take(1), Step::Exit));
    assert!(pool.is_torn_down());
}
