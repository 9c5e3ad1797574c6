use livestore::{
    Attempt, Entry, LiveStore, LiveValue, LockGuard, Next, Received, StoreOptions, Update, Uuid,
};
use tokio::sync::broadcast::error::TryRecvError;

#[derive(Clone, PartialEq, Eq, Debug)]
struct Foo {
    bar: u32,
    baz: u64,
}

#[derive(Clone, PartialEq, Eq, Debug)]
enum FooMutation {
    SetBar(u32),
    SetBaz(u64),
}

#[derive(Clone, PartialEq, Eq, Debug)]
struct BarWas42;

impl LiveValue for Foo {
    type Message = &'static str;
    type MutError = BarWas42;
    type Mutation = FooMutation;

    fn mutate(entry: &Entry<Self>, mutation: &Self::Mutation) -> Result<Self, Self::MutError> {
        match *mutation {
            FooMutation::SetBar(42) => Err(BarWas42),
            FooMutation::SetBar(bar) => Ok(Foo { bar, baz: entry.baz }),
            FooMutation::SetBaz(baz) => Ok(Foo { bar: entry.bar, baz }),
        }
    }
}

fn foo(bar: u32, baz: u64) -> Foo {
    Foo { bar, baz }
}

fn done<T, B>(attempt: Attempt<T, B>) -> T {
    match attempt {
        Attempt::Done(result) => result,
        Attempt::Missing => panic!("there is no entry"),
        Attempt::Busy(_, _) => panic!("the lock is held"),
    }
}

fn is_missing<T, B>(attempt: &Attempt<T, B>) -> bool {
    matches!(attempt, Attempt::Missing)
}

fn received(watch: &mut livestore::Watch<Foo>) -> Option<Update<Foo>> {
    loop {
        let received = match watch.rx.try_recv() {
            Ok(update) => Received::Update(update),
            Err(TryRecvError::Closed) => Received::Closed,
            Err(TryRecvError::Lagged(lost)) => Received::Lagged(lost),
            Err(TryRecvError::Empty) => panic!("nothing was sent"),
        };
        match watch.next(received) {
            Next::Ready(update) => return update,
            Next::Again(_) => {}
        }
    }
}

fn is_quiet(watch: &mut livestore::Watch<Foo>) -> bool {
    matches!(watch.rx.try_recv(), Err(TryRecvError::Empty))
}

#[test]
fn mutate() {
    let mut store = LiveStore::<Foo>::default();
    let key = store.init(foo(0, 1));
    done(store.mutate(&key, FooMutation::SetBar(6), None)).unwrap();
    done(store.mutate(&key, FooMutation::SetBaz(9), None)).unwrap();
    let val = done(store.remove(&key, None));
    assert_eq!(val.bar, 6);
    assert_eq!(val.baz, 9);
}

#[test]
fn subscribe() {
    let mut store = LiveStore::<Foo>::default();
    let key = store.init(foo(0, 1));
    let mut watch = store.watch(&key).unwrap();

    done(store.mutate(&key, FooMutation::SetBar(6), None)).unwrap();
    done(store.mutate(&key, FooMutation::SetBaz(9), None)).unwrap();
    let val = done(store.remove(&key, None));

    let mut seen = foo(0, 0);
    while let Some(update) = received(&mut watch) {
        if let Update::Mutate { mutn, .. } = update {
            match mutn {
                FooMutation::SetBar(bar) => seen.bar = bar,
                FooMutation::SetBaz(baz) => seen.baz = baz,
            }
        }
    }

    assert_eq!(val.bar, 6);
    assert_eq!(val.baz, 9);
    assert_eq!(seen.bar, 6);
    assert_eq!(seen.baz, 9);
    assert!(store.fetch(&key).is_none());
}

#[test]
fn random_keys_are_version_four_and_differ() {
    let mut store = LiveStore::<Foo>::default();
    let one = store.init(foo(1, 1));
    let two = store.init(foo(2, 2));
    assert_ne!(one, two);
    for key in [one, two] {
        let key = uuid::Uuid::from_u128(key.as_u128());
        assert_eq!(key.get_version_num(), 4);
        assert_eq!(key.get_variant(), uuid::Variant::RFC4122);
    }
    assert_eq!(*store.fetch(&one).unwrap(), foo(1, 1));
    assert_eq!(*store.fetch(&two).unwrap(), foo(2, 2));
}

#[test]
fn create_does_not_overwrite() {
    let mut store = LiveStore::<Foo>::default();
    let key = Uuid::from_u128(7);
    assert!(store.create(&key, foo(1, 1)).is_none());
    let existing = store.create(&key, foo(2, 2)).unwrap();
    assert_eq!(*existing, foo(1, 1));
    assert_eq!(*store.fetch(&key).unwrap(), foo(1, 1));
}

#[test]
fn assign_does_not_create() {
    let mut store = LiveStore::<Foo>::default();
    let key = Uuid::from_u128(7);
    assert!(is_missing(&store.assign(&key, foo(1, 1), None)));
    assert!(store.fetch(&key).is_none());
    assert!(is_missing(&store.assign_and_watch(&key, foo(1, 1), None)));
    assert!(is_missing(&store.assign_and_acquire(&key, foo(1, 1), None)));
    assert!(is_missing(&store.mutate(&key, FooMutation::SetBar(1), None)));
    assert!(is_missing(&store.remove(&key, None)));
    assert!(is_missing(&store.acquire(&key, None)));
    assert!(store.fetch(&key).is_none());
}

#[test]
fn assign_returns_what_was_there_and_tells() {
    let mut store = LiveStore::<Foo>::default();
    let (key, mut watch) = store.init_and_watch(foo(1, 1));
    let made = store.fetch(&key).unwrap();
    let before = done(store.assign(&key, foo(2, 2), None));
    assert_eq!(*before, foo(1, 1));
    let now = store.fetch(&key).unwrap();
    assert_eq!(*now, foo(2, 2));
    assert_eq!(now.create_time, made.create_time);
    assert!(now.last_change.nanos >= made.last_change.nanos);
    match received(&mut watch) {
        Some(Update::Overwrite { msg, new, old }) => {
            assert!(msg.is_none());
            assert_eq!(*new, foo(2, 2));
            assert_eq!(*old, foo(1, 1));
            assert_eq!(new.last_change, now.last_change);
        }
        _ => panic!("not an overwrite"),
    }
    assert!(is_quiet(&mut watch));
}

#[test]
fn insert_creates_or_assigns() {
    let mut store = LiveStore::<Foo>::default();
    let key = Uuid::from_u128(7);
    assert!(done(store.insert(&key, foo(1, 1), None)).is_none());
    let mut watch = store.watch(&key).unwrap();
    let old = done(store.insert(&key, foo(2, 2), None)).unwrap();
    assert_eq!(*old, foo(1, 1));
    let old = done(store.insert_and_watch(&key, foo(3, 3), None)).unwrap();
    assert_eq!(*old, foo(2, 2));
    assert_eq!(*store.fetch(&key).unwrap(), foo(3, 3));
    assert!(matches!(received(&mut watch), Some(Update::Overwrite { .. })));
    assert!(matches!(received(&mut watch), Some(Update::Overwrite { .. })));
    assert!(is_quiet(&mut watch));
}

#[test]
fn failed_mutation_changes_nothing() {
    let mut store = LiveStore::<Foo>::default();
    let (key, mut watch) = store.init_and_watch(foo(1, 1));
    let before = store.fetch(&key).unwrap();
    let result = done(store.mutate(&key, FooMutation::SetBar(42), None));
    assert_eq!(result.err(), Some(BarWas42));
    let after = store.fetch(&key).unwrap();
    assert_eq!(*after, foo(1, 1));
    assert_eq!(after.last_change, before.last_change);
    assert!(is_quiet(&mut watch));
}

#[test]
fn mutation_is_told_with_both_entries() {
    let mut store = LiveStore::<Foo>::default();
    let (key, mut watch) = store.init_and_watch(foo(1, 1));
    let after = done(store.mutate(&key, FooMutation::SetBaz(5), None)).unwrap();
    assert_eq!(*after, foo(1, 5));
    match received(&mut watch) {
        Some(Update::Mutate { mutn, new, old }) => {
            assert_eq!(mutn, FooMutation::SetBaz(5));
            assert_eq!(*new, foo(1, 5));
            assert_eq!(*old, foo(1, 1));
        }
        _ => panic!("not a mutation"),
    }
}

#[test]
fn messages_reach_subscribers_and_change_nothing() {
    let mut store = LiveStore::<Foo>::default();
    let key = Uuid::from_u128(7);
    assert_eq!(store.broadcast(&key, "lost"), Some("lost"));
    let (existing, mut watch) = store.create_and_watch(&key, foo(1, 1));
    assert!(existing.is_none());
    assert_eq!(store.broadcast(&key, "hello"), None);
    match received(&mut watch) {
        Some(Update::Message { msg, val }) => {
            assert_eq!(msg, "hello");
            assert_eq!(*val, foo(1, 1));
        }
        _ => panic!("not a message"),
    }
    assert_eq!(*store.fetch(&key).unwrap(), foo(1, 1));
    let (existing, _) = store.create_and_watch(&key, foo(2, 2));
    assert_eq!(*existing.unwrap(), foo(1, 1));
}

#[test]
fn subscribers_hear_only_what_comes_later() {
    let mut store = LiveStore::<Foo>::default();
    let key = store.init(foo(1, 1));
    done(store.assign(&key, foo(2, 2), None));
    let (entry, mut watch) = store.fetch_and_watch(&key).unwrap();
    assert_eq!(*entry, foo(2, 2));
    assert!(is_quiet(&mut watch));
    let (before, mut late) = done(store.assign_and_watch(&key, foo(3, 3), None));
    assert_eq!(*before, foo(2, 2));
    assert!(is_quiet(&mut late));
    match received(&mut watch) {
        Some(Update::Overwrite { new, old, .. }) => {
            assert_eq!(*new, foo(3, 3));
            assert_eq!(*old, foo(2, 2));
        }
        _ => panic!("not an overwrite"),
    }
    assert!(store.watch(&Uuid::from_u128(8)).is_none());
    assert!(store.fetch_and_watch(&Uuid::from_u128(8)).is_none());
}

#[test]
fn slow_subscribers_lose_the_oldest_updates() {
    let mut store = LiveStore::<Foo>::default();
    let (key, mut watch) = store.init_and_watch(foo(0, 0));
    for bar in 1..=6 {
        done(store.mutate(&key, FooMutation::SetBar(bar), None)).unwrap();
    }
    match watch.rx.try_recv() {
        Err(TryRecvError::Lagged(lost)) => {
            assert_eq!(lost, 2);
            assert!(matches!(watch.next(Received::Lagged(lost)), Next::Again(2)));
        }
        _ => panic!("nothing was lost"),
    }
    for expected in 3..=6 {
        match received(&mut watch) {
            Some(Update::Mutate { mutn, .. }) => assert_eq!(mutn, FooMutation::SetBar(expected)),
            _ => panic!("not a mutation"),
        }
    }
    assert!(is_quiet(&mut watch));
}

#[test]
fn queues_are_rounded_up_to_a_power_of_two() {
    let options = StoreOptions { channel_cap: 3, ..Default::default() };
    let mut store = LiveStore::<Foo>::new().with_options(options).done();
    let (key, mut watch) = store.init_and_watch(foo(0, 0));
    for bar in 1..=4 {
        done(store.mutate(&key, FooMutation::SetBar(bar), None)).unwrap();
    }
    for expected in 1..=4 {
        match watch.rx.try_recv() {
            Ok(Update::Mutate { mutn, .. }) => assert_eq!(mutn, FooMutation::SetBar(expected)),
            _ => panic!("not a mutation"),
        }
    }
    for bar in 1..=5 {
        done(store.mutate(&key, FooMutation::SetBar(bar), None)).unwrap();
    }
    assert!(matches!(watch.rx.try_recv(), Err(TryRecvError::Lagged(1))));
}

#[test]
fn locks_of_different_entries_are_apart() {
    let mut store = LiveStore::<Foo>::default();
    let (one, two) = (store.init(foo(1, 1)), store.init(foo(2, 2)));
    let guard = done(store.acquire(&one, None));
    assert!(matches!(store.remove(&one, None), Attempt::Busy(_, ())));
    assert_eq!(*done(store.assign(&two, foo(3, 3), None)), foo(2, 2));
    let other = done(store.acquire(&two, None));
    assert!(guard.holds(&store) && other.holds(&store));
}

#[test]
fn a_failed_mutation_of_an_entry_that_is_gone_gives_the_error() {
    let mut store = LiveStore::<Foo>::default();
    let mut empty = LiveStore::<Foo>::default();
    let mut guard = store.init_and_acquire(foo(1, 1));
    assert_eq!(guard.mutate(&mut empty, FooMutation::SetBar(42)).err(), Some(BarWas42));
    assert_eq!(guard.value(), &foo(1, 1));
}

#[test]
fn removal_is_told_and_closes_the_channel() {
    let mut store = LiveStore::<Foo>::default();
    let (key, mut watch) = store.init_and_watch(foo(1, 1));
    let removed = done(store.remove(&key, None));
    assert_eq!(*removed, foo(1, 1));
    match received(&mut watch) {
        Some(Update::Remove { msg, val, key: at }) => {
            assert!(msg.is_none());
            assert_eq!(*val, foo(1, 1));
            assert_eq!(at, key);
        }
        _ => panic!("not a removal"),
    }
    assert!(received(&mut watch).is_none());
    assert!(store.fetch(&key).is_none());
    assert!(store.create(&key, foo(2, 2)).is_none());
    assert_eq!(*store.fetch(&key).unwrap(), foo(2, 2));
}

#[test]
fn other_keys_are_left_alone() {
    let mut store = LiveStore::<Foo>::default();
    let keys: Vec<Uuid> = (0..50).map(|n| Uuid::from_u128(n)).collect();
    for (n, key) in keys.iter().enumerate() {
        assert!(store.create(key, foo(n as u32, 0)).is_none());
    }
    for key in keys.iter().step_by(2) {
        done(store.remove(key, None));
    }
    for (n, key) in keys.iter().enumerate() {
        if n % 2 == 0 {
            assert!(store.fetch(key).is_none());
        } else {
            assert_eq!(*store.fetch(key).unwrap(), foo(n as u32, 0));
        }
    }
    for n in 100..150 {
        assert!(store.create(&Uuid::from_u128(n), foo(n as u32, 1)).is_none());
    }
    for n in 100..150 {
        assert_eq!(*store.fetch(&Uuid::from_u128(n)).unwrap(), foo(n as u32, 1));
    }
    assert_eq!(*store.fetch(&keys[1]).unwrap(), foo(1, 0));
}

#[test]
fn held_entries_are_busy() {
    let mut store = LiveStore::<Foo>::default();
    let key = store.init(foo(1, 1));
    let guard = done(store.acquire(&key, None));
    assert_eq!(guard.key(), &key);
    assert_eq!(guard.value(), &foo(1, 1));

    assert!(matches!(store.acquire(&key, None), Attempt::Busy(_, ())));
    assert!(matches!(store.remove(&key, None), Attempt::Busy(_, ())));
    match store.assign(&key, foo(2, 2), None) {
        Attempt::Busy(_, back) => assert_eq!(back, foo(2, 2)),
        _ => panic!("the lock was free"),
    }
    match store.insert(&key, foo(3, 3), None) {
        Attempt::Busy(_, back) => assert_eq!(back, foo(3, 3)),
        _ => panic!("the lock was free"),
    }
    match store.mutate(&key, FooMutation::SetBar(4), None) {
        Attempt::Busy(_, back) => assert_eq!(back, FooMutation::SetBar(4)),
        _ => panic!("the lock was free"),
    }
    match store.create_and_acquire(&key, foo(5, 5), None) {
        Attempt::Busy(_, back) => assert_eq!(back, foo(5, 5)),
        _ => panic!("the lock was free"),
    }
    assert!(matches!(store.assign_and_watch(&key, foo(6, 6), None), Attempt::Busy(_, _)));
    assert!(matches!(store.assign_and_acquire(&key, foo(6, 6), None), Attempt::Busy(_, _)));
    assert_eq!(*store.fetch(&key).unwrap(), foo(1, 1));

    drop(guard);
    assert_eq!(*done(store.assign(&key, foo(2, 2), None)), foo(1, 1));
}

#[test]
fn waiting_for_the_lock_succeeds() {
    let mut store = LiveStore::<Foo>::default();
    let key = store.init(foo(1, 1));
    let guard = done(store.acquire(&key, None));
    let (lock, back) = match store.assign(&key, foo(2, 2), None) {
        Attempt::Busy(lock, back) => (lock, back),
        _ => panic!("the lock was free"),
    };
    drop(guard);
    let waited = LockGuard::from_owned(lock.into_mutex().try_lock_owned().unwrap());
    assert_eq!(*done(store.assign(&key, back, Some(waited))), foo(1, 1));
    assert_eq!(*store.fetch(&key).unwrap(), foo(2, 2));
}

#[test]
fn a_guard_serves_for_as_long_as_the_entry_is_there() {
    let mut store = LiveStore::<Foo>::default();
    let key = store.init(foo(1, 1));
    let mut guard = done(store.acquire(&key, None));
    let (lock, _) = match store.acquire(&key, None) {
        Attempt::Busy(lock, back) => (lock, back),
        _ => panic!("the lock was free"),
    };
    guard.set(&mut store, foo(2, 2));
    guard.mutate(&mut store, FooMutation::SetBar(3)).unwrap();
    drop(guard);
    let waited = LockGuard::from_owned(lock.into_mutex().try_lock_owned().unwrap());
    assert!(store.broadcast(&key, "hello").is_none());
    assert!(matches!(store.remove(&key, None), Attempt::Busy(_, ())));
    assert_eq!(*done(store.remove(&key, Some(waited))), foo(3, 2));
    assert!(store.fetch(&key).is_none());
}

#[test]
fn a_guard_of_an_entry_that_was_replaced_does_not_serve() {
    let mut store = LiveStore::<Foo>::default();
    let key = store.init(foo(1, 1));
    let guard = done(store.acquire(&key, None));
    let (lock, _) = match store.acquire(&key, None) {
        Attempt::Busy(lock, back) => (lock, back),
        _ => panic!("the lock was free"),
    };
    guard.delete(&mut store);
    assert!(store.create(&key, foo(2, 2)).is_none());
    let holder = done(store.acquire(&key, None));
    let waited = LockGuard::from_owned(lock.into_mutex().try_lock_owned().unwrap());
    match store.assign(&key, foo(3, 3), Some(waited)) {
        Attempt::Busy(_, back) => assert_eq!(back, foo(3, 3)),
        _ => panic!("the lock of another entry was taken for its own"),
    }
    assert_eq!(*store.fetch(&key).unwrap(), foo(2, 2));
    drop(holder);
}

#[test]
fn an_insert_that_waited_for_a_removed_entry_creates() {
    let mut store = LiveStore::<Foo>::default();
    let key = store.init(foo(1, 1));
    let guard = done(store.acquire(&key, None));
    let (lock, back) = match store.insert(&key, foo(2, 2), None) {
        Attempt::Busy(lock, back) => (lock, back),
        _ => panic!("the lock was free"),
    };
    guard.delete(&mut store);
    let waited = LockGuard::from_owned(lock.into_mutex().try_lock_owned().unwrap());
    assert!(done(store.insert(&key, back, Some(waited))).is_none());
    assert_eq!(*store.fetch(&key).unwrap(), foo(2, 2));
}

#[test]
fn settling_a_claim() {
    let mut store = LiveStore::<Foo>::default();
    let one = store.init(foo(1, 1));
    let two = store.init(foo(2, 2));
    assert!(livestore::lock::settle_claim(None, true, None).is_none());
    assert!(matches!(store.acquire_with(&one, None), Attempt::Busy(_, ())));
    assert!(matches!(
        store.assign_with(&two, foo(3, 3), None, livestore::Instant { nanos: 0 }),
        Attempt::Busy(_, _)
    ));
    assert!(matches!(store.remove_with(&two, None), Attempt::Busy(_, ())));
    assert_eq!(*store.fetch(&two).unwrap(), foo(2, 2));
}

#[test]
fn an_insert_overwrites_what_the_holder_left() {
    let mut store = LiveStore::<Foo>::default();
    let key = store.init(foo(0, 0));
    let mut watch = store.watch(&key).unwrap();
    let mut guard = done(store.acquire(&key, None));
    let (lock, back) = match store.insert(&key, foo(2, 2), None) {
        Attempt::Busy(lock, back) => (lock, back),
        _ => panic!("the lock was free"),
    };
    assert_eq!(*store.fetch(&key).unwrap(), foo(0, 0));
    guard.set(&mut store, foo(1, 1));
    drop(guard);
    let waited = LockGuard::from_owned(lock.into_mutex().try_lock_owned().unwrap());
    assert_eq!(*done(store.insert(&key, back, Some(waited))).unwrap(), foo(1, 1));
    assert_eq!(*store.fetch(&key).unwrap(), foo(2, 2));
    let set = received(&mut watch).unwrap();
    let inserted = received(&mut watch).unwrap();
    match (set, inserted) {
        (Update::Overwrite { new: left, .. }, Update::Overwrite { new, old, .. }) => {
            assert_eq!(*left, foo(1, 1));
            assert_eq!(*old, foo(1, 1));
            assert_eq!(*new, foo(2, 2));
        }
        _ => panic!("another update was sent"),
    }
}

#[test]
fn mutations_fold_and_their_updates_fit_together() {
    let mut store = LiveStore::<Foo>::default();
    let key = store.init(foo(0, 0));
    let mut watch = store.watch(&key).unwrap();
    let first = store.fetch(&key).unwrap();
    let one = done(store.mutate(&key, FooMutation::SetBar(1), None)).unwrap();
    assert!(store.broadcast(&key, "hello").is_none());
    assert!(done(store.mutate(&key, FooMutation::SetBar(42), None)).is_err());
    let two = done(store.mutate(&key, FooMutation::SetBaz(2), None)).unwrap();
    assert_eq!(*one, foo(1, 0));
    assert_eq!(*two, foo(1, 2));

    let mut last = first.clone();
    let mut told: Vec<FooMutation> = Vec::new();
    for _ in 0..3 {
        match received(&mut watch).unwrap() {
            Update::Mutate { mutn, new, old } => {
                assert_eq!(*old, *last);
                assert_eq!(old.last_change, last.last_change);
                assert_eq!(new.create_time, first.create_time);
                assert!(old.last_change.nanos <= new.last_change.nanos);
                told.push(mutn);
                last = new;
            }
            Update::Message { msg, val } => {
                assert_eq!(msg, "hello");
                assert_eq!(*val, *last);
            }
            _ => panic!("another update was sent"),
        }
    }
    assert_eq!(told, vec![FooMutation::SetBar(1), FooMutation::SetBaz(2)]);
    assert_eq!(*last, foo(1, 2));
    assert!(is_quiet(&mut watch));
}

#[test]
fn guards_know_their_lock() {
    let mut store = LiveStore::<Foo>::default();
    let (one, two) = (store.init(foo(1, 1)), store.init(foo(2, 2)));
    let (guard_one, guard_two) = (done(store.acquire(&one, None)), done(store.acquire(&two, None)));
    let lock_of = |key: &Uuid| match store.acquire(key, None) {
        Attempt::Busy(lock, ()) => lock,
        _ => panic!("the lock was free"),
    };
    let (lock_one, lock_two) = (lock_of(&one), lock_of(&two));
    assert!(guard_one.holds(&store));
    drop(guard_one);
    let held = LockGuard::from_owned(lock_one.clone().into_mutex().try_lock_owned().unwrap());
    assert!(held.guards(&lock_one));
    assert!(!held.guards(&lock_two));
    store.remove_with(&two, None);
    assert!(guard_two.holds(&store));
    let other = done(store.create_and_acquire(&Uuid::from_u128(7), foo(7, 7), None));
    assert!(other.holds(&store));
    assert!(!other.holds(&LiveStore::<Foo>::default()));
}
