use livestore::{
    Control, Duration, Entry, ExpireAction, ExpireEvent, ExpireMode, ExpireTask, Instant,
    LiveStore, LiveValue, StoreOptions, Uuid,
};

#[derive(Clone, PartialEq, Eq, Debug)]
struct Foo {
    bar: u32,
    baz: u64,
}

impl LiveValue for Foo {
    type Message = ();
    type MutError = ();
    type Mutation = ();

    fn mutate(entry: &Entry<Self>, _mutation: &()) -> Result<Self, ()> {
        Ok(Foo { bar: entry.bar, baz: entry.baz + 1 })
    }
}

fn foo(bar: u32, baz: u64) -> Foo {
    Foo { bar, baz }
}

fn let_pass(store: &mut LiveStore<Foo>, span: Duration) {
    let until = store.now().nanos + span.nanos;
    while store.now().nanos <= until {}
}

fn at(nanos: u128) -> Instant {
    Instant { nanos }
}

#[test]
fn on_expire() {
    let mut store = LiveStore::<Foo>::new()
        .with_options(StoreOptions {
            expire_check_freq: Some(Duration::from_secs(1)),
            expire_mode: ExpireMode::Timeout(Duration::from_millis(1)),
            ..Default::default()
        })
        .on_expire()
        .done();
    let mut expired: Vec<Foo> = Vec::new();
    let mut task = ExpireTask::start(store.options()).unwrap();
    assert_eq!(task.period, Duration::from_secs(1));

    let f1 = foo(0, 1);
    let f2 = foo(1, 2);
    let f3 = foo(2, 3);

    let k1 = store.init(f1.clone());
    let k2 = store.init(f2.clone());
    let k3 = store.init(f3.clone());

    assert_eq!(task.step(ExpireEvent::Tick { alive: true }), ExpireAction::Wait);
    let_pass(&mut store, Duration::from_millis(2));
    assert_eq!(task.step(ExpireEvent::Tick { alive: true }), ExpireAction::Check);
    if let Some(found) = store.check_expired() {
        expired.extend(found.iter().map(|(_, item)| item.value.as_ref().clone()));
    }

    assert!(store.fetch(&k1).is_none());
    assert!(store.fetch(&k2).is_none());
    assert!(store.fetch(&k3).is_none());

    for foo in [f1, f2, f3] {
        if !expired.contains(&foo) {
            panic!("{:?}, {:?}", foo, expired)
        }
    }
    assert_eq!(expired.len(), 3);
    assert!(store.check_expired().is_none());
}

#[test]
fn only_entries_before_the_limit_expire() {
    let mut store = LiveStore::<Foo>::default();
    for n in 0..10 {
        store.init_at(&Uuid::from_u128(n), foo(n as u32, 0), at(n * 10), at(0));
    }
    let expired = store.expire_with(&at(50), &vec![Uuid::from_u128(2)]);
    let mut found: Vec<u32> = expired.iter().map(|(_, entry)| entry.bar).collect();
    found.sort();
    assert_eq!(found, vec![0, 1, 3, 4]);
    for (key, entry) in expired.iter() {
        assert_eq!(key.as_u128(), entry.bar as u128);
    }
    for n in 0..10 {
        let here = store.fetch(&Uuid::from_u128(n));
        assert_eq!(here.is_some(), n == 2 || n >= 5);
    }
    assert!(store.expire_with(&at(50), &vec![Uuid::from_u128(2)]).is_empty());
}

#[test]
fn locked_entries_do_not_expire() {
    let mut store = LiveStore::<Foo>::default();
    let (one, two) = (Uuid::from_u128(1), Uuid::from_u128(2));
    store.init_at(&one, foo(1, 1), at(5), at(5));
    store.init_at(&two, foo(2, 2), at(5), at(5));
    let guard = match store.acquire(&one, None) {
        livestore::Attempt::Done(guard) => guard,
        _ => panic!("the lock was held"),
    };
    let expired = store.collect_expired_by_timeout(&at(6));
    assert_eq!(expired.len(), 1);
    assert_eq!(expired[0].0, two);
    assert_eq!(*expired[0].1, foo(2, 2));
    assert!(store.fetch(&one).is_some());
    drop(guard);
    store.expire_by_timeout(&at(5));
    assert!(store.fetch(&one).is_some());
    store.expire_by_timeout(&at(6));
    assert!(store.fetch(&one).is_none());
}

#[test]
fn expiry_closes_the_channel_without_a_word() {
    let mut store = LiveStore::<Foo>::default();
    let (_, mut watch) = store.init_and_watch(foo(1, 1));
    let_pass(&mut store, Duration { nanos: 1 });
    let now = store.now();
    store.expire_by_timeout(&now);
    assert!(matches!(
        watch.rx.try_recv(),
        Err(tokio::sync::broadcast::error::TryRecvError::Closed)
    ));
}

#[test]
fn without_a_callback_the_expired_are_not_handed_out() {
    let mut store = LiveStore::<Foo>::new()
        .with_options(StoreOptions {
            expire_mode: ExpireMode::Timeout(Duration { nanos: 10 }),
            ..Default::default()
        })
        .done();
    let key = Uuid::from_u128(1);
    store.init_at(&key, foo(1, 1), at(100), at(100));
    assert!(store.check_expired_with(&at(5), &vec![]).is_none());
    assert!(store.fetch(&key).is_some());
    assert!(store.check_expired_with(&at(110), &vec![]).is_none());
    assert!(store.fetch(&key).is_some());
    assert!(store.check_expired_with(&at(111), &vec![]).is_none());
    assert!(store.fetch(&key).is_none());
}

#[test]
fn a_change_puts_off_expiry() {
    let mut store = LiveStore::<Foo>::default();
    let key = Uuid::from_u128(1);
    store.init_at(&key, foo(1, 1), at(5), at(5));
    let mut guard = match store.acquire(&key, None) {
        livestore::Attempt::Done(guard) => guard,
        _ => panic!("the lock was held"),
    };
    let after = guard.mutate_with(&mut store, (), Ok(foo(1, 2)), at(20)).unwrap();
    drop(guard);
    assert_eq!(after.last_change, at(20));
    assert_eq!(after.create_time, at(5));
    store.expire_by_timeout(&at(20));
    assert!(store.fetch(&key).is_some());
    store.expire_by_timeout(&at(21));
    assert!(store.fetch(&key).is_none());
}

#[test]
fn the_task_stops() {
    let options = StoreOptions {
        expire_check_freq: Some(Duration::from_millis(7)),
        ..Default::default()
    };
    assert!(ExpireTask::start(&StoreOptions::default()).is_none());

    let mut task = ExpireTask::start(&options).unwrap();
    assert_eq!(task.step(ExpireEvent::Interrupt), ExpireAction::Wait);
    assert_eq!(task.step(ExpireEvent::Tick { alive: false }), ExpireAction::Wait);
    assert_eq!(task.control(), Control::Continue);
    assert_eq!(task.step(ExpireEvent::Tick { alive: false }), ExpireAction::Stop);
    assert_eq!(task.control(), Control::Break);
    assert_eq!(task.step(ExpireEvent::Tick { alive: true }), ExpireAction::Stop);

    let mut task = ExpireTask::start(&options).unwrap();
    assert_eq!(task.step(ExpireEvent::Tick { alive: true }), ExpireAction::Wait);
    assert_eq!(task.step(ExpireEvent::Tick { alive: true }), ExpireAction::Check);
    assert_eq!(task.step(ExpireEvent::Interrupt), ExpireAction::Stop);
    assert_eq!(task.control(), Control::Break);
}

#[test]
fn default_options() {
    let store = LiveStore::<Foo>::default();
    let options = store.options();
    assert_eq!(options.channel_cap, 4);
    assert_eq!(options.shard_amt, None);
    assert_eq!(options.expire_check_freq, None);
    assert_eq!(options.expire_mode, ExpireMode::Timeout(Duration::from_secs(3600)));
}

#[test]
fn shard_amounts_are_powers_of_two() {
    for amt in [1, 2, 64] {
        let mut store = LiveStore::<Foo>::new()
            .with_options(StoreOptions { shard_amt: Some(amt), ..Default::default() })
            .done();
        let key = store.init(foo(amt as u32, 0));
        assert_eq!(store.fetch(&key).unwrap().bar, amt as u32);
    }
}

#[test]
fn times() {
    assert_eq!(Duration::from_secs(2).nanos, 2_000_000_000);
    assert_eq!(Duration::from_secs(u64::MAX).nanos, 18_446_744_073_709_551_615_000_000_000);
    assert_eq!(Duration::from_millis(3).nanos, 3_000_000);
    assert_eq!(at(10).minus(Duration { nanos: 4 }), at(6));
    assert_eq!(at(10).minus(Duration { nanos: 11 }), at(0));
    assert!(at(1).is_before(&at(2)));
    assert!(!at(2).is_before(&at(2)));
}

#[test]
fn the_clock_moves() {
    let mut store = LiveStore::<Foo>::default();
    let then = store.now();
    let_pass(&mut store, Duration::from_millis(1));
    assert!(store.now().nanos > then.nanos);
}

#[test]
fn entries_carry_the_time_of_the_call() {
    let mut store = LiveStore::<Foo>::default();
    let before = store.now();
    let key = store.init(foo(1, 1));
    let after = store.now();
    let made = store.fetch(&key).unwrap();
    assert!(before.nanos <= made.last_change.nanos);
    assert!(made.last_change.nanos <= made.create_time.nanos);
    assert!(made.create_time.nanos <= after.nanos);

    let_pass(&mut store, Duration::from_millis(1));
    store.broadcast(&key, ());
    assert_eq!(store.fetch(&key).unwrap().last_change, made.last_change);
    let mut guard = match store.acquire(&key, None) {
        livestore::Attempt::Done(guard) => guard,
        _ => panic!("the lock was held"),
    };
    let before = store.now();
    guard.set(&mut store, foo(2, 2));
    let after = store.now();
    let changed = store.fetch(&key).unwrap();
    assert!(before.nanos <= changed.last_change.nanos);
    assert!(changed.last_change.nanos <= after.nanos);
    assert!(made.last_change.nanos < changed.last_change.nanos);
    assert_eq!(changed.create_time, made.create_time);
    assert_eq!(guard.as_entry().last_change, changed.last_change);
}
