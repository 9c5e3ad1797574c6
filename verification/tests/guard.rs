use livestore::{Attempt, Entry, LiveStore, LiveValue, Update, Uuid};
use tokio::sync::broadcast::error::TryRecvError;

#[derive(Clone, PartialEq, Eq, Debug)]
struct Count(u32);

impl LiveValue for Count {
    type Message = String;
    type MutError = String;
    type Mutation = i64;

    fn mutate(entry: &Entry<Self>, mutation: &Self::Mutation) -> Result<Self, Self::MutError> {
        match u32::try_from(entry.0 as i64 + mutation) {
            Ok(count) => Ok(Count(count)),
            Err(_) => Err("out of range".to_string()),
        }
    }
}

fn done<T, B>(attempt: Attempt<T, B>) -> T {
    match attempt {
        Attempt::Done(result) => result,
        _ => panic!("not done"),
    }
}

#[test]
fn init_and_acquire_holds_the_lock() {
    let mut store = LiveStore::<Count>::default();
    let guard = store.init_and_acquire(Count(1));
    let key = *guard.key();
    assert_eq!(guard.value(), &Count(1));
    assert_eq!(*store.fetch(&key).unwrap(), Count(1));
    assert!(matches!(store.acquire(&key, None), Attempt::Busy(_, _)));
    drop(guard);
    assert!(matches!(store.acquire(&key, None), Attempt::Done(_)));
}

#[test]
fn create_and_acquire_creates_once() {
    let mut store = LiveStore::<Count>::default();
    let key = Uuid::from_u128(3);
    let guard = done(store.create_and_acquire(&key, Count(1), None));
    assert_eq!(guard.value(), &Count(1));
    assert!(matches!(store.acquire(&key, None), Attempt::Busy(_, _)));
    drop(guard);
    let guard = done(store.create_and_acquire(&key, Count(2), None));
    assert_eq!(guard.value(), &Count(1));
    assert_eq!(guard.0, 1);
}

#[test]
fn guards_set_mutate_and_tell() {
    let mut store = LiveStore::<Count>::default();
    let key = store.init(Count(1));
    let mut guard = done(store.acquire(&key, None));
    let mut watch = guard.watch(&store).unwrap();

    guard.set(&mut store, Count(2));
    assert_eq!(guard.value(), &Count(2));
    assert_eq!(*store.fetch(&key).unwrap(), Count(2));

    guard.set_with_msg(&mut store, Count(3), "three".to_string());
    let after = guard.mutate(&mut store, 4).unwrap();
    assert_eq!(*after, Count(7));
    assert_eq!(guard.value(), &Count(7));
    let stored = store.fetch(&key).unwrap();
    assert_eq!(*stored, Count(7));
    assert_eq!(guard.last_change, stored.last_change);
    assert_eq!(guard.as_entry().create_time, stored.create_time);

    assert_eq!(guard.mutate(&mut store, -8).err(), Some("out of range".to_string()));
    assert_eq!(guard.value(), &Count(7));

    guard.broadcast(&mut store, "hello".to_string());

    match watch.rx.try_recv() {
        Ok(Update::Overwrite { msg, new, old }) => {
            assert_eq!(msg, None);
            assert_eq!((new.0, old.0), (2, 1));
        }
        _ => panic!("not an overwrite"),
    }
    match watch.rx.try_recv() {
        Ok(Update::Overwrite { msg, new, old }) => {
            assert_eq!(msg, Some("three".to_string()));
            assert_eq!((new.0, old.0), (3, 2));
        }
        _ => panic!("not an overwrite"),
    }
    match watch.rx.try_recv() {
        Ok(Update::Mutate { mutn, new, old }) => {
            assert_eq!(mutn, 4);
            assert_eq!((new.0, old.0), (7, 3));
        }
        _ => panic!("not a mutation"),
    }
    match watch.rx.try_recv() {
        Ok(Update::Message { msg, val }) => {
            assert_eq!(msg, "hello");
            assert_eq!(val.0, 7);
        }
        _ => panic!("not a message"),
    }
    assert!(matches!(watch.rx.try_recv(), Err(TryRecvError::Empty)));
}

#[test]
fn assign_and_acquire_guards_the_new_value() {
    let mut store = LiveStore::<Count>::default();
    let key = store.init(Count(1));
    let (before, guard) = done(store.assign_and_acquire(&key, Count(2), None));
    assert_eq!(*before, Count(1));
    assert_eq!(guard.value(), &Count(2));
    assert!(matches!(store.remove(&key, None), Attempt::Busy(_, _)));
}

#[test]
fn delete_with_msg_tells() {
    let mut store = LiveStore::<Count>::default();
    let (key, mut watch) = store.init_and_watch(Count(1));
    let guard = done(store.acquire(&key, None));
    guard.delete_with_msg(&mut store, "bye".to_string());
    assert!(store.fetch(&key).is_none());
    match watch.rx.try_recv() {
        Ok(Update::Remove { msg, val, key: at }) => {
            assert_eq!(msg, Some("bye".to_string()));
            assert_eq!(*val, Count(1));
            assert_eq!(at, key);
        }
        _ => panic!("not a removal"),
    }
    assert!(matches!(watch.rx.try_recv(), Err(TryRecvError::Closed)));
}

#[test]
fn guards_of_entries_that_are_gone_do_nothing() {
    let mut store = LiveStore::<Count>::default();
    let mut other = LiveStore::<Count>::default();
    let mut guard = store.init_and_acquire(Count(1));
    guard.set(&mut other, Count(2));
    assert_eq!(guard.value(), &Count(1));
    assert!(guard.watch(&other).is_none());
    guard.broadcast(&mut other, "nobody".to_string());
    guard.delete(&mut other);
    assert!(other.fetch(&Uuid::from_u128(0)).is_none());
}
