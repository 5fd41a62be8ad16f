use rustyserver::channel::Channel;
use rustyserver::message::Message;
use rustyserver::pool::PoolState;
use rustyserver::pool_error::PoolError;
use rustyserver::worker::run_worker;

#[test]
fn zero_size_is_a_configuration_error() {
    let r = PoolState::new(0);
    assert!(matches!(r, Err(PoolError::ZeroSize)));
}

#[test]
fn pool_has_exactly_the_requested_workers() {
    let p = PoolState::new(3).unwrap();
    assert_eq!(p.workers.len(), 3);
    for (i, w) in p.workers.iter().enumerate() {
        assert_eq!(w.id, i);
        assert!(w.handle_present);
    }
    assert!(p.channel.receiver_attached);
    assert_eq!(p.channel.queue.len(), 0);
    assert_eq!(p.submitted, 0);
}

#[test]
fn submissions_get_consecutive_ordinals_in_queue_order() {
    let mut p = PoolState::new(2).unwrap();
    for expected in 0..5usize {
        let id = p.submit().unwrap();
        assert_eq!(id, expected);
    }
    assert_eq!(p.submitted, 5);
    assert_eq!(
        p.channel.queue,
        vec![
            Message::NewJob(0),
            Message::NewJob(1),
            Message::NewJob(2),
            Message::NewJob(3),
            Message::NewJob(4),
        ]
    );
}

#[test]
fn five_items_on_two_workers_each_run_exactly_once() {
    let mut p = PoolState::new(2).unwrap();
    for _ in 0..5usize {
        p.submit().unwrap();
    }
    p.shutdown();

    // The workers drain the queue one after the other (dequeueing is
    // serialized); collect everything they ran.
    let mut channel = p.channel;
    let mut collector: Vec<usize> = Vec::new();
    let first = run_worker(&mut channel);
    collector.extend(first.iter());
    let second = run_worker(&mut channel);
    collector.extend(second.iter());

    assert_eq!(collector.len(), 5);
    let mut sorted = collector.clone();
    sorted.sort();
    assert_eq!(sorted, vec![0, 1, 2, 3, 4]);
}

#[test]
fn single_worker_runs_items_in_submission_order() {
    let mut p = PoolState::new(1).unwrap();
    let a = p.submit().unwrap();
    let b = p.submit().unwrap();
    assert!(a < b);
    p.shutdown();
    let mut channel = p.channel;
    let executed = run_worker(&mut channel);
    // The single worker finishes the first item before it dequeues the
    // second: execution order is exactly submission order.
    assert_eq!(executed, vec![a, b]);
}

#[test]
fn shutdown_with_no_work_leaves_only_stop_signals() {
    let mut p = PoolState::new(3).unwrap();
    p.shutdown();
    assert_eq!(
        p.channel.queue,
        vec![Message::Terminate, Message::Terminate, Message::Terminate]
    );
    for w in p.workers.iter() {
        assert!(!w.handle_present);
    }
    assert!(!p.channel.receiver_attached);
}

#[test]
fn shutdown_twice_does_not_double_join() {
    let mut p = PoolState::new(2).unwrap();
    p.submit().unwrap();
    p.shutdown();
    let queue_after_first = p.channel.queue.clone();
    let workers_after_first = p.workers.clone();
    p.shutdown();
    // Nothing changes: no new stop signals, no handle joined twice.
    assert_eq!(p.channel.queue, queue_after_first);
    assert_eq!(p.workers, workers_after_first);
    for w in p.workers.iter() {
        assert!(!w.handle_present);
    }
}

#[test]
fn joining_a_worker_takes_the_handle_only_once() {
    let mut p = PoolState::new(2).unwrap();
    assert!(p.join_worker(1));
    assert!(!p.join_worker(1));
    assert!(!p.workers[1].handle_present);
    assert!(p.workers[0].handle_present);
}

#[test]
fn submitting_after_shutdown_is_refused() {
    let mut p = PoolState::new(2).unwrap();
    p.shutdown();
    let r = p.submit();
    assert!(matches!(r, Err(PoolError::Disconnected)));
    assert_eq!(p.submitted, 0);
}

#[test]
fn channel_delivers_in_send_order_exactly_once() {
    let mut c = Channel::new();
    c.send(Message::NewJob(4)).unwrap();
    c.send(Message::Terminate).unwrap();
    c.send(Message::NewJob(6)).unwrap();
    assert_eq!(c.recv(), Some(Message::NewJob(4)));
    assert_eq!(c.recv(), Some(Message::Terminate));
    assert_eq!(c.recv(), Some(Message::NewJob(6)));
    assert_eq!(c.recv(), None);
}

#[test]
fn sending_on_a_closed_channel_is_refused() {
    let mut c = Channel::new();
    c.send(Message::NewJob(0)).unwrap();
    c.close_receiver();
    let r = c.send(Message::NewJob(1));
    assert!(matches!(r, Err(PoolError::Disconnected)));
    assert_eq!(c.queue, vec![Message::NewJob(0)]);
}

#[test]
fn error_descriptions_name_the_fault() {
    assert_eq!(PoolError::ZeroSize.describe(), "pool size must be positive");
    assert_eq!(
        PoolError::Disconnected.describe(),
        "the pool has shut down and accepts no work"
    );
}
