use std::sync::atomic::AtomicUsize;
use std::time::Duration;
use std::time::Instant;
use std::sync::atomic::Ordering;
use std::sync::mpsc::channel;
use std::sync::Arc;

use ezcfg::thread_pool::ThreadPool;

fn assert_send<T: Send>() {}

#[test]
fn it_should_create_successfully() {
    let _ = ThreadPool::new(4);
}

#[test]
#[should_panic]
fn it_should_panic_with_zero_size() {
    ThreadPool::new(0);
}

#[test]
fn shutdown_on_an_idle_pool_is_a_no_op() {
    let pool = ThreadPool::new(2);
    pool.shutdown();

    let counter = Arc::new(AtomicUsize::new(0));
    for _ in 0..5 {
        let counter = counter.clone();
        pool.execute(move || {
            counter.fetch_add(1, Ordering::SeqCst);
        });
    }
    pool.join();
    assert_eq!(5, counter.load(Ordering::SeqCst));
}

#[test]
fn it_should_work_with_repeate_join() {
    let pool = ThreadPool::new(4);
    let counter = Arc::new(AtomicUsize::new(0));

    for _ in 0..50 {
        let test_count = counter.clone();
        pool.execute(move || {
            test_count.fetch_add(1, Ordering::Release);
        });
    }
    pool.join();
    assert_eq!(50, counter.load(Ordering::Acquire));

    for _ in 0..50 {
        let test_count = counter.clone();
        pool.execute(move || {
            test_count.fetch_add(1, Ordering::Relaxed);
        });
    }
    pool.join();
    assert_eq!(100, counter.load(Ordering::Relaxed));
}

#[test]
fn it_should_recovery_from_sub_thread_panic() {
    let pool = ThreadPool::new(8);

    for _ in 0..8 {
        pool.execute(move || panic!(""));
    }
    pool.join();

    assert_eq!(pool.panicing_count(), 8);

    let (tx, rx) = channel();
    for _ in 0..8 {
        let tx = tx.clone();
        pool.execute(move || {
            tx.send(1).unwrap();
        });
    }

    assert_eq!(rx.iter().take(8).fold(0, |acc, num| acc + num), 8);
}

#[test]
fn it_should_run_large_num_of_tasks_in_parallel() {
    let pool = ThreadPool::new(num_cpus::get().max(1));

    let task_count: usize = 1_000;

    let (sender, receiver) = channel::<usize>();
    let sender = Arc::new(sender);

    for _ in 0..task_count {
        let sender = sender.clone();
        pool.execute(move || {
            sender.send(1).unwrap();
        })
    }
    pool.join();

    assert_eq!(receiver.iter().take(task_count).sum::<usize>(), task_count);
}

#[test]
fn it_should_implement_send() {
    assert_send::<ThreadPool>();
}

#[test]
fn drain_leaves_no_work_behind() {
    let pool = ThreadPool::new(3);
    for _ in 0..20 {
        pool.execute(|| {});
    }
    pool.join();
    assert_eq!(pool.actived_count(), 0);
    assert_eq!(pool.pending_count(), 0);
}

#[test]
fn join_is_idempotent_on_an_idle_pool() {
    let pool = ThreadPool::new(2);
    pool.join();
    pool.join();
    assert_eq!(pool.actived_count(), 0);
    assert_eq!(pool.pending_count(), 0);
}

#[test]
fn cloned_handles_submit_to_the_same_pool() {
    let pool = ThreadPool::new(4);
    let counter = Arc::new(AtomicUsize::new(0));
    let k: usize = 25;

    // Two submitter jobs run on two workers, so the clones submit
    // concurrently from two different threads.
    for _ in 0..2 {
        let submitter = pool.clone();
        let counter = counter.clone();
        pool.execute(move || {
            for _ in 0..k {
                let counter = counter.clone();
                submitter.execute(move || {
                    counter.fetch_add(1, Ordering::SeqCst);
                });
            }
        });
    }
    pool.join();
    assert_eq!(2 * k, counter.load(Ordering::SeqCst));
    assert_eq!(pool.pending_count(), 0);
}

#[test]
fn jobs_run_in_parallel_not_serialized() {
    let jobs: u32 = 8;
    let wait = Duration::from_millis(150);
    let pool = ThreadPool::new(4);

    let start = Instant::now();
    for _ in 0..jobs {
        pool.execute(move || {
            // Hold a worker for the duration by spinning on the clock.
            let begin = Instant::now();
            while begin.elapsed() < wait {}
        });
    }
    pool.join();

    assert!(start.elapsed() < wait * jobs);
}

#[test]
fn failures_do_not_leak_into_healthy_jobs() {
    let pool = ThreadPool::new(4);
    let counter = Arc::new(AtomicUsize::new(0));
    for i in 0..10 {
        let counter = counter.clone();
        pool.execute(move || {
            if i % 2 == 0 {
                panic!();
            }
            counter.fetch_add(1, Ordering::SeqCst);
        });
    }
    pool.join();
    assert_eq!(pool.panicing_count(), 5);
    assert_eq!(counter.load(Ordering::SeqCst), 5);
    assert_eq!(pool.actived_count(), 0);
    assert_eq!(pool.pending_count(), 0);
}
