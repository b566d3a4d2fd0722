use baby_fuzzer::corpus::EntryId;
use baby_fuzzer::scheduler::{QueueScheduler, SchedulerError};

fn scheduler_with(n: usize) -> QueueScheduler {
    let mut scheduler = QueueScheduler::new();
    for i in 0..n {
        scheduler.on_add(EntryId(i));
    }
    scheduler
}

#[test]
fn empty_scheduler_has_nothing_to_give() {
    let mut scheduler = QueueScheduler::new();
    assert_eq!(scheduler.next(), Err(SchedulerError::Empty));
    assert_eq!(scheduler.next(), Err(SchedulerError::Empty));
    assert_eq!(scheduler.len(), 0);
}

#[test]
fn one_round_visits_every_entry_once() {
    for n in 1..8usize {
        let mut scheduler = scheduler_with(n);
        let mut seen: Vec<usize> = Vec::new();
        for _ in 0..n {
            seen.push(scheduler.next().unwrap().0);
        }
        assert_eq!(seen, (0..n).collect::<Vec<usize>>());
    }
}

#[test]
fn a_round_from_the_middle_visits_every_entry_once() {
    let mut scheduler = scheduler_with(5);
    scheduler.next().unwrap();
    scheduler.next().unwrap();
    let mut seen: Vec<usize> = Vec::new();
    for _ in 0..5 {
        seen.push(scheduler.next().unwrap().0);
    }
    assert_eq!(seen, vec![2, 3, 4, 0, 1]);
    seen.sort();
    assert_eq!(seen, vec![0, 1, 2, 3, 4]);
}

#[test]
fn the_queue_wraps_to_the_start() {
    let mut scheduler = scheduler_with(3);
    let picks: Vec<usize> = (0..7).map(|_| scheduler.next().unwrap().0).collect();
    assert_eq!(picks, vec![0, 1, 2, 0, 1, 2, 0]);
}

#[test]
fn a_new_entry_is_visited_when_its_turn_comes() {
    let mut scheduler = scheduler_with(1);
    assert_eq!(scheduler.next(), Ok(EntryId(0)));
    scheduler.on_add(EntryId(1));
    assert_eq!(scheduler.next(), Ok(EntryId(1)));
    assert_eq!(scheduler.next(), Ok(EntryId(0)));
    scheduler.on_add(EntryId(2));
    assert_eq!(scheduler.next(), Ok(EntryId(1)));
    assert_eq!(scheduler.next(), Ok(EntryId(2)));
    assert_eq!(scheduler.next(), Ok(EntryId(0)));
}

#[test]
fn an_entry_is_queued_once() {
    let mut scheduler = QueueScheduler::new();
    scheduler.on_add(EntryId(4));
    scheduler.on_add(EntryId(4));
    scheduler.on_add(EntryId(9));
    assert_eq!(scheduler.len(), 2);
    assert!(scheduler.knows(EntryId(4)));
    assert!(scheduler.knows(EntryId(9)));
    assert!(!scheduler.knows(EntryId(0)));
    assert_eq!(scheduler.next(), Ok(EntryId(4)));
    assert_eq!(scheduler.next(), Ok(EntryId(9)));
    assert_eq!(scheduler.next(), Ok(EntryId(4)));
}
