use live_counter::broadcast::{Broadcast, RecvResult};
use live_counter::counter_use_case::{CounterUseCase, CHANNEL_CAPACITY};
use live_counter::models::Counter;
use live_counter::repositories::{CounterRepository, InMemoryCounterRepository};

#[test]
fn counter_new_holds_value() {
    assert_eq!(Counter::new(-7).value, -7);
    assert_eq!(Counter::default().value, 0);
}

#[test]
fn repository_starts_at_initial_value() {
    let repo = InMemoryCounterRepository::new(42);
    assert_eq!(repo.get_value(), 42);
}

#[test]
fn repository_increment_and_decrement() {
    let mut repo = InMemoryCounterRepository::new(10);
    repo.increment();
    assert_eq!(repo.get_value(), 11);
    repo.decrement();
    repo.decrement();
    assert_eq!(repo.get_value(), 9);
}

#[test]
fn repository_wraps_at_the_ends() {
    let mut repo = InMemoryCounterRepository::new(i32::MAX);
    repo.increment();
    assert_eq!(repo.get_value(), i32::MIN);
    repo.decrement();
    assert_eq!(repo.get_value(), i32::MAX);
}

#[test]
fn increment_increment_decrement_reads_one_and_announces_in_order() {
    let mut uc = CounterUseCase::new(InMemoryCounterRepository::new(0));
    let mut sub = uc.subscribe();
    uc.increment();
    uc.increment();
    uc.decrement();
    assert_eq!(uc.get_value(), 1);
    assert_eq!(uc.recv(&mut sub), RecvResult::Value(1));
    assert_eq!(uc.recv(&mut sub), RecvResult::Value(2));
    assert_eq!(uc.recv(&mut sub), RecvResult::Value(1));
    assert_eq!(uc.recv(&mut sub), RecvResult::Empty);
}

#[test]
fn sequential_changes_give_initial_plus_net() {
    let mut uc = CounterUseCase::new(InMemoryCounterRepository::new(100));
    for _ in 0..7 {
        uc.increment();
    }
    for _ in 0..3 {
        uc.decrement();
    }
    assert_eq!(uc.get_value(), 104);
    assert_eq!(uc.announced_count(), 10);
}

#[test]
fn changes_in_another_order_give_the_same_value() {
    let mut a = CounterUseCase::new(InMemoryCounterRepository::new(-5));
    let mut b = CounterUseCase::new(InMemoryCounterRepository::new(-5));
    a.increment();
    a.decrement();
    a.increment();
    a.increment();
    b.decrement();
    b.increment();
    b.increment();
    b.increment();
    assert_eq!(a.get_value(), b.get_value());
    assert_eq!(a.get_value(), -3);
}

#[test]
fn subscriber_that_keeps_up_receives_every_value() {
    let mut uc = CounterUseCase::new(InMemoryCounterRepository::new(0));
    let mut sub = uc.subscribe();
    let mut seen = Vec::new();
    for _ in 0..20 {
        uc.increment();
        match uc.recv(&mut sub) {
            RecvResult::Value(v) => seen.push(v),
            other => panic!("unexpected {:?}", other),
        }
    }
    assert_eq!(seen, (1..=20).collect::<Vec<i32>>());
}

#[test]
fn stalled_subscriber_loses_only_the_oldest_values() {
    let mut uc = CounterUseCase::new(InMemoryCounterRepository::new(0));
    let mut sub = uc.subscribe();
    for _ in 0..8 {
        uc.increment();
    }
    assert_eq!(uc.recv(&mut sub), RecvResult::Lagged(3));
    for v in 4..=8 {
        assert_eq!(uc.recv(&mut sub), RecvResult::Value(v));
    }
    assert_eq!(uc.recv(&mut sub), RecvResult::Empty);
    uc.decrement();
    assert_eq!(uc.recv(&mut sub), RecvResult::Value(7));
}

#[test]
fn subscriber_exactly_capacity_behind_loses_nothing() {
    let mut uc = CounterUseCase::new(InMemoryCounterRepository::new(0));
    let mut sub = uc.subscribe();
    for _ in 0..CHANNEL_CAPACITY {
        uc.increment();
    }
    for v in 1..=5 {
        assert_eq!(uc.recv(&mut sub), RecvResult::Value(v));
    }
    assert_eq!(uc.recv(&mut sub), RecvResult::Empty);
}

#[test]
fn late_subscriber_sees_no_history() {
    let mut uc = CounterUseCase::new(InMemoryCounterRepository::new(0));
    uc.increment();
    uc.increment();
    uc.increment();
    let mut late = uc.subscribe();
    assert_eq!(uc.recv(&mut late), RecvResult::Empty);
    uc.decrement();
    assert_eq!(uc.recv(&mut late), RecvResult::Value(2));
    assert_eq!(uc.recv(&mut late), RecvResult::Empty);
}

#[test]
fn subscribers_consume_independently() {
    let mut uc = CounterUseCase::new(InMemoryCounterRepository::new(0));
    let mut a = uc.subscribe();
    let mut b = uc.subscribe();
    uc.increment();
    uc.increment();
    assert_eq!(uc.recv(&mut a), RecvResult::Value(1));
    assert_eq!(uc.recv(&mut a), RecvResult::Value(2));
    assert_eq!(uc.recv(&mut b), RecvResult::Value(1));
    assert_eq!(uc.recv(&mut a), RecvResult::Empty);
    assert_eq!(uc.recv(&mut b), RecvResult::Value(2));
}

#[test]
fn publish_with_no_subscriber_is_fine() {
    let mut chan = Broadcast::new(2);
    chan.publish(1);
    chan.publish(2);
    chan.publish(3);
    assert_eq!(chan.published(), 3);
    let mut sub = chan.subscribe();
    assert_eq!(chan.recv(&mut sub), RecvResult::Empty);
}

#[test]
fn channel_of_capacity_one_keeps_the_latest() {
    let mut chan = Broadcast::new(1);
    let mut sub = chan.subscribe();
    chan.publish(10);
    chan.publish(20);
    chan.publish(30);
    assert_eq!(chan.recv(&mut sub), RecvResult::Lagged(2));
    assert_eq!(chan.recv(&mut sub), RecvResult::Value(30));
    assert_eq!(chan.recv(&mut sub), RecvResult::Empty);
}
