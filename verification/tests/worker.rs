use rustyserver::channel::Channel;
use rustyserver::message::Message;
use rustyserver::worker::finish_job;
use rustyserver::worker::observe_message;
use rustyserver::worker::run_worker;
use rustyserver::worker::worker_step;
use rustyserver::worker::WorkerAction;
use rustyserver::worker::WorkerPhase;

#[test]
fn a_work_message_is_run_and_a_stop_signal_stops() {
    assert_eq!(worker_step(Message::NewJob(5)), WorkerAction::Run(5));
    assert_eq!(worker_step(Message::Terminate), WorkerAction::Stop);
}

#[test]
fn phases_move_as_the_state_machine_says() {
    let waiting = WorkerPhase::Waiting;
    let executing = observe_message(waiting, Message::NewJob(0));
    assert_eq!(executing, WorkerPhase::Executing);
    assert_eq!(finish_job(executing), WorkerPhase::Waiting);
    assert_eq!(
        observe_message(WorkerPhase::Waiting, Message::Terminate),
        WorkerPhase::Stopped
    );
}

#[test]
fn a_worker_runs_everything_before_the_first_stop_signal() {
    let mut c = Channel::new();
    c.send(Message::NewJob(0)).unwrap();
    c.send(Message::NewJob(1)).unwrap();
    c.send(Message::Terminate).unwrap();
    c.send(Message::NewJob(2)).unwrap();
    let executed = run_worker(&mut c);
    assert_eq!(executed, vec![0, 1]);
    // The stop signal was consumed; work behind it stays queued.
    assert_eq!(c.queue, vec![Message::NewJob(2)]);
}

#[test]
fn a_worker_on_an_empty_queue_runs_nothing() {
    let mut c = Channel::new();
    let executed = run_worker(&mut c);
    assert!(executed.is_empty());
    assert!(c.queue.is_empty());
}
