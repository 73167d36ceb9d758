use my_thread::{
    JitterSource, MyThread, NoJitter, SchedError, Scheduler, TestScheduler, Thread,
    ThreadRngJitter,
};

#[test]
fn one_unit_fixed_quantum() {
    // One unit of runtime 25 with the quantum fixed at 10: it consumes
    // 10, 10, 5 over three steps, the clock ends at 25, and the unit is
    // retired on the third step since 5 < 10. Each record shows the time at
    // the top of the step and the runtime left after the step's consumption.
    let mut s: TestScheduler<NoJitter> = TestScheduler::new();
    s.add_threads(MyThread::new(1, "THREAD_1", 25));
    let r = s.run();
    assert!(r.is_ok());
    assert_eq!(s.get_time(), 25);
    let lines = s.log_lines();
    assert_eq!(lines.len(), 3);
    assert_eq!(
        lines[0],
        "   0 TestShed scheduled id: 1\nname: THREAD_1\nruntime: 15"
    );
    assert_eq!(
        lines[1],
        "  10 TestShed scheduled id: 1\nname: THREAD_1\nruntime: 5"
    );
    assert_eq!(
        lines[2],
        "  20 TestShed scheduled id: 1\nname: THREAD_1\nruntime: 0"
    );
}

#[test]
fn two_units_no_jitter() {
    // Units of runtimes [5, 15] with the quantum fixed at 10: the first
    // consumes 5 (< 10) and retires at once; the second consumes 10 and is
    // re-enqueued, consumes its remaining 5 and retires. Three steps in
    // all; the clock ends at 5 + 10 + 5 = 20.
    let mut s: TestScheduler<NoJitter> = TestScheduler::new();
    s.add_threads(MyThread::new(1, "A", 5));
    s.add_threads(MyThread::new(2, "B", 15));
    let r = s.run();
    assert!(r.is_ok());
    assert_eq!(s.get_time(), 20);
    let lines = s.log_lines();
    assert_eq!(lines.len(), 3);
    assert_eq!(lines[0], "   0 TestShed scheduled id: 1\nname: A\nruntime: 0");
    assert_eq!(lines[1], "   5 TestShed scheduled id: 2\nname: B\nruntime: 5");
    assert_eq!(lines[2], "  15 TestShed scheduled id: 2\nname: B\nruntime: 0");
}

#[test]
fn empty_scheduler_rejected() {
    // Running an empty scheduler fails at once with EmptyQueue and changes
    // nothing.
    let mut s: TestScheduler<NoJitter> = TestScheduler::new();
    let r = s.run();
    assert_eq!(r, Err(SchedError::EmptyQueue));
    assert_eq!(s.get_time(), 0);
    assert!(s.log_lines().is_empty());
}

#[test]
fn conservation_with_random_jitter() {
    // Whatever the jitter draws, the clock ends at exactly the sum of the
    // initial runtimes: every tick of work is accounted for once.
    let mut s: TestScheduler<ThreadRngJitter> = TestScheduler::new();
    s.add_threads(MyThread::new(1, "THREAD_1", 18));
    s.add_threads(MyThread::new(2, "THREAD_2", 32));
    s.add_threads(MyThread::new(3, "THREAD_3", 25));
    let r = s.run();
    assert!(r.is_ok());
    assert_eq!(s.get_time(), 18 + 32 + 25);
}

#[test]
fn clock_advances_by_consumed_ticks() {
    // Stepping by hand with the quantum fixed at 10: each step advances the
    // clock by exactly the ticks consumed (10, 10, 5 for a unit of 25),
    // never by the nominal quantum when they differ.
    let mut s: TestScheduler<NoJitter> = TestScheduler::new();
    s.add_threads(MyThread::new(1, "A", 25));
    assert!(s.dispatch_step().is_ok());
    assert_eq!(s.get_time(), 10);
    assert!(s.dispatch_step().is_ok());
    assert_eq!(s.get_time(), 20);
    assert!(s.dispatch_step().is_ok());
    assert_eq!(s.get_time(), 25);
    // The unit was retired on the third step: nothing is left to dispatch.
    assert_eq!(s.dispatch_step(), Err(SchedError::EmptyQueue));
    assert_eq!(s.get_time(), 25);
}

#[test]
fn retired_unit_never_dispatched_again() {
    // Unit 1 consumes fewer ticks than requested on its first dispatch and
    // is retired: every later log record belongs to unit 2.
    let mut s: TestScheduler<NoJitter> = TestScheduler::new();
    s.add_threads(MyThread::new(1, "A", 5));
    s.add_threads(MyThread::new(2, "B", 15));
    let r = s.run();
    assert!(r.is_ok());
    let lines = s.log_lines();
    assert_eq!(lines.len(), 3);
    assert!(lines[0].contains("id: 1\n"));
    for line in lines.iter().skip(1) {
        assert!(line.contains("id: 2\n"));
    }
}

#[test]
fn requeue_on_exact_quantum() {
    // A unit whose runtime equals the requested quantum uses the full
    // quantum, so it is re-enqueued with zero runtime left and retired on
    // one extra dispatch that consumes nothing.
    let mut s: TestScheduler<NoJitter> = TestScheduler::new();
    s.add_threads(MyThread::new(1, "A", 10));
    let r = s.run();
    assert!(r.is_ok());
    assert_eq!(s.get_time(), 10);
    let lines = s.log_lines();
    assert_eq!(lines.len(), 2);
    assert_eq!(lines[0], "   0 TestShed scheduled id: 1\nname: A\nruntime: 0");
    assert_eq!(lines[1], "  10 TestShed scheduled id: 1\nname: A\nruntime: 0");
}

#[test]
fn zero_interval_rejected() {
    // A zero-tick request always fails with InvalidInterval and leaves the
    // remaining runtime unchanged.
    let mut t = MyThread::new(1, "A", 25);
    assert_eq!(t.do_work(0), Err(SchedError::InvalidInterval));
    assert_eq!(t.remaining_runtime(), 25);
    // Still true after some work has been done.
    assert_eq!(t.do_work(10), Ok(10));
    assert_eq!(t.do_work(0), Err(SchedError::InvalidInterval));
    assert_eq!(t.remaining_runtime(), 15);
}

#[test]
fn do_work_consumes_up_to_request() {
    let mut t = MyThread::new(1, "A", 25);
    // More work remains than requested: the full request is consumed.
    assert_eq!(t.do_work(10), Ok(10));
    assert_eq!(t.remaining_runtime(), 15);
    // The request exceeds what is left: only the remainder is consumed and
    // the runtime reaches zero.
    assert_eq!(t.do_work(100), Ok(15));
    assert_eq!(t.remaining_runtime(), 0);
    // A finished unit consumes nothing.
    assert_eq!(t.do_work(10), Ok(0));
    assert_eq!(t.remaining_runtime(), 0);
}

#[test]
fn do_work_exact_request_signals_nothing() {
    // Consuming exactly the requested ticks does not signal completion,
    // even though the runtime is now zero.
    let mut t = MyThread::new(1, "A", 10);
    assert_eq!(t.do_work(10), Ok(10));
    assert_eq!(t.remaining_runtime(), 0);
}

#[test]
fn explicit_quantum_steps() {
    // Driving the steps with an explicit quantum: the clock follows the
    // consumed ticks for whatever quantum each step requests.
    let mut s: TestScheduler<NoJitter> = TestScheduler::new();
    s.add_threads(MyThread::new(1, "A", 25));
    assert!(s.dispatch_step_at(10).is_ok());
    assert_eq!(s.get_time(), 10);
    // A quantum larger than the remaining 15 retires the unit at once.
    assert!(s.dispatch_step_at(25).is_ok());
    assert_eq!(s.get_time(), 25);
    assert_eq!(s.dispatch_step_at(10), Err(SchedError::EmptyQueue));
}

#[test]
fn zero_quantum_aborts_step() {
    // A zero quantum is rejected by the unit; the error propagates after
    // the unit has already left the queue, and nothing else changes.
    let mut s: TestScheduler<NoJitter> = TestScheduler::new();
    s.add_threads(MyThread::new(1, "A", 25));
    assert_eq!(s.dispatch_step_at(0), Err(SchedError::InvalidInterval));
    assert_eq!(s.get_time(), 0);
    assert!(s.log_lines().is_empty());
    assert_eq!(s.dispatch_step_at(10), Err(SchedError::EmptyQueue));
}

#[test]
fn no_jitter_draw_is_zero_when_allowed() {
    let mut j = NoJitter::source();
    assert_eq!(j.draw(-5, 5), 0);
    assert_eq!(j.draw(0, 0), 0);
    assert_eq!(j.draw(2, 5), 2);
    assert_eq!(j.draw(-5, -2), -2);
}

#[test]
fn thread_rng_draw_stays_in_range() {
    let mut j = ThreadRngJitter::source();
    for _ in 0..200 {
        let v: i64 = j.draw(-5, 5);
        assert!((-5..=5).contains(&v));
    }
    // A singleton range leaves the generator no choice.
    assert_eq!(j.draw(3, 3), 3);
}

#[test]
fn scheduler_identity() {
    let s: TestScheduler<NoJitter> = TestScheduler::new();
    assert_eq!(TestScheduler::<NoJitter>::get_name(), "TestShed");
    assert_eq!(s.get_time(), 0);
    assert!(s.log_lines().is_empty());
    let line = s.log_scheduling(&MyThread::new(7, "X", 3));
    assert_eq!(line, "   0 TestShed scheduled id: 7\nname: X\nruntime: 3");
}

#[test]
fn error_messages() {
    assert_eq!(
        SchedError::InvalidInterval.message(),
        "invalid scheduling interval"
    );
    assert_eq!(
        SchedError::EmptyQueue.message(),
        "unexpectedly empty threads queue"
    );
}

#[test]
fn long_run_keeps_conservation_and_padding() {
    // A long run crosses the four-character padding boundary of the time
    // column: once the clock reaches 1000 the padding disappears.
    let mut s: TestScheduler<NoJitter> = TestScheduler::new();
    s.add_threads(MyThread::new(1, "T", 2500));
    let r = s.run();
    assert!(r.is_ok());
    assert_eq!(s.get_time(), 2500);
    let lines = s.log_lines();
    // 250 full quanta drain the runtime exactly, so the unit is re-enqueued
    // once more with nothing left and retired on a 251st dispatch.
    assert_eq!(lines.len(), 251);
    assert!(lines[99].starts_with(" 990 TestShed scheduled"));
    assert!(lines[100].starts_with("1000 TestShed scheduled"));
    assert!(lines[249].starts_with("2490 TestShed scheduled id: 1\nname: T\nruntime: 0"));
    assert!(lines[250].starts_with("2500 TestShed scheduled id: 1\nname: T\nruntime: 0"));
}
