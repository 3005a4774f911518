use pcemu::scheduler::{Scheduler, SchedulerThread, SchedulerThreadEntry, JIFFIES_PER_SECOND};

#[test]
fn a_thread_derives_its_scalar_from_the_frequency() {
    let thread = SchedulerThread::new(4_772_727);
    assert_eq!(thread.frequency, 4_772_727);
    assert_eq!(thread.scalar, u64::MAX as u128 / 4_772_727);
    assert_eq!(thread.scalar, 3_865_032_312_493);
    assert_eq!(thread.steps, 0);
    assert_eq!(thread.next_event_time, 0);
    assert!(thread.entries.is_empty());
    assert_eq!(JIFFIES_PER_SECOND, u64::MAX as u128);
    assert_eq!(SchedulerThread::new(1).scalar, u64::MAX as u128);
}

#[test]
fn step_adds_cycles_times_scalar_and_runs_the_component() {
    let mut thread = SchedulerThread::new(4);
    let done = thread.step(8, |cycles| cycles + 1);
    assert_eq!(done, 9);
    assert_eq!(thread.steps, 8 * (u64::MAX as u128 / 4));
    let done = thread.step(0, |_| 7);
    assert_eq!(done, 7);
    assert_eq!(thread.steps, 8 * (u64::MAX as u128 / 4));
}

#[test]
fn synchronize_rebases_on_the_slowest_thread() {
    let mut first = SchedulerThread::new(1);
    let mut second = SchedulerThread::new(2);
    let mut third = SchedulerThread::new(4);
    {
        let mut scheduler = Scheduler::new();
        scheduler.threads.push(&mut first);
        scheduler.threads.push(&mut second);
        scheduler.threads.push(&mut third);
        scheduler.threads[2].step(8, |cycles| cycles);
        scheduler.synchronize();
        let least = scheduler.threads.iter().map(|t| t.steps).min().unwrap();
        assert_eq!(least, 0);
        assert_eq!(scheduler.minimum(), 0);
    }
    let quarter = u64::MAX as u128 / 4;
    assert_eq!(first.steps, 0);
    assert_eq!(second.steps, 0);
    assert_eq!(third.steps, 8 * quarter);
    // eight cycles at four times the frequency of the first thread are two
    // of its cycles, up to the rounding of the scalars
    assert_eq!(third.steps, 2 * first.scalar - 6);
    assert_eq!(third.steps / first.scalar, 1);
}

#[test]
fn synchronize_keeps_the_distances_between_threads() {
    let mut threads: Vec<SchedulerThread> = Vec::new();
    for (freq, cycles) in [(1u128, 3u128), (2, 4), (4, 20)] {
        let mut thread = SchedulerThread::new(freq);
        thread.step(cycles, |c| c);
        threads.push(thread);
    }
    let before: Vec<u128> = threads.iter().map(|t| t.steps).collect();
    let least = *before.iter().min().unwrap();
    {
        let mut scheduler = Scheduler::new();
        for thread in threads.iter_mut() {
            scheduler.threads.push(thread);
        }
        assert_eq!(scheduler.minimum(), least);
        scheduler.synchronize();
    }
    let after: Vec<u128> = threads.iter().map(|t| t.steps).collect();
    assert_eq!(*after.iter().min().unwrap(), 0);
    for i in 0..3 {
        assert_eq!(after[i], before[i] - least);
        for j in 0..3 {
            assert_eq!(before[i] <= before[j], after[i] <= after[j]);
        }
    }
    assert_eq!(threads[0].frequency, 1);
    assert_eq!(threads[2].scalar, u64::MAX as u128 / 4);
    // a second pass changes nothing
    {
        let mut scheduler = Scheduler::new();
        for thread in threads.iter_mut() {
            scheduler.threads.push(thread);
        }
        scheduler.synchronize();
    }
    let again: Vec<u128> = threads.iter().map(|t| t.steps).collect();
    assert_eq!(again, after);
}

#[test]
fn synchronize_without_threads_does_nothing() {
    let mut scheduler = Scheduler::default();
    scheduler.synchronize();
    assert!(scheduler.threads.is_empty());
    assert_eq!(scheduler.minimum(), 0);
}

#[test]
fn step_takes_a_component_with_state_of_its_own() {
    let mut thread = SchedulerThread::new(8);
    let mut total = 0u128;
    let done = thread.step(3, |cycles| {
        total += cycles;
        total
    });
    assert_eq!(done, 3);
    assert_eq!(total, 3);
    assert_eq!(thread.steps, 3 * (u64::MAX as u128 / 8));
}

#[test]
fn schedule_records_the_event_and_raises_what_is_due() {
    let mut thread = SchedulerThread::new(2);
    let scalar = thread.scalar;
    assert_eq!(thread.schedule(4, 11), Vec::<usize>::new());
    assert_eq!(
        thread.entries,
        vec![SchedulerThreadEntry {
            func: 11,
            time: 4 * scalar
        }]
    );
    // an event in no time is due at once
    assert_eq!(thread.schedule(0, 22), vec![22]);
    assert_eq!(thread.entries.len(), 2);
    assert_eq!(thread.next_event_time, 0);
    thread.step(4, |c| c);
    assert_eq!(thread.calculate_next_event(), vec![11, 22]);
    assert_eq!(thread.entries.len(), 2);
}

#[test]
fn thread_synchronize_counts_one_cycle() {
    let mut thread = SchedulerThread::new(2);
    let scalar = thread.scalar;
    thread.schedule(1, 5);
    thread.schedule(2, 6);
    assert_eq!(thread.synchronize(), vec![5]);
    assert_eq!(thread.steps, scalar);
    assert_eq!(thread.synchronize(), vec![5, 6]);
    assert_eq!(thread.steps, 2 * scalar);
    // nothing is looked at before the next event is due
    thread.next_event_time = 10 * scalar;
    assert_eq!(thread.synchronize(), Vec::<usize>::new());
    assert_eq!(thread.steps, 3 * scalar);
    assert_eq!(thread.next_event_time, 10 * scalar);
}
