use fedetivity::determinator::Determinator;
use fedetivity::messages::{Activity, Job};

#[test]
fn test_that_determinator_handles_activity() {
    let worker: Vec<Job> = vec![];
    let mut received = worker;
    let sut = Determinator::start(7u32);
    received.push(sut.handle(Activity));
    assert_eq!(vec![Job], received);
}

#[test]
fn determinator_keeps_its_worker() {
    let sut = Determinator::start(String::from("worker"));
    assert_eq!(sut.worker(), "worker");
}

#[test]
fn determinator_gives_one_job_per_activity() {
    let sut = Determinator::start(());
    let jobs: Vec<Job> = (0..5).map(|_| sut.handle(Activity)).collect();
    assert_eq!(jobs, vec![Job; 5]);
}
