//! A statically typed key/value store for values that other tasks want to keep up with.
//!
//! A [`LiveStore`] holds values of one type by [`Uuid`]. All data is kept in memory as it is,
//! and is dropped with the store.
//!
//! **Entries.** An entry is a value with the times of its creation and of its last change.
//! Reading one gives a copy of it.
//!
//! **Updates.** Each entry has a broadcast channel. Whoever watches the entry is told when its
//! value is overwritten, when it is mutated and when it is removed. Messages can be sent on the
//! channel too; they do not alter the value.
//!
//! **Locks.** Each entry has a lock. To change an entry is to hold its lock, so a task that
//! reads an entry, computes something and writes it back does not race with others. The store
//! never waits for a lock: an operation that needs one returns an [`Attempt`], and when that is
//! [`Attempt::Busy`] the caller waits and asks again with the guard it got.
//!
//! **Expiration.** A store can be searched for entries that have not been changed for some
//! time, which are then removed unless their lock is held.

mod clock;
mod entries;
mod index;

pub mod builder;
pub mod channel;
pub mod effects;
pub mod expiry;
pub mod guard;
pub mod history;
pub mod key;
pub mod laws;
pub mod live;
pub mod lock;
pub mod operation;
pub mod options;
pub mod raw;
pub mod state;
pub mod storages;
pub mod store;
pub mod task;
pub mod time;

pub use builder::LiveStoreBuilder;
pub use channel::{Next, Received, Watch};
pub use guard::EntryGuard;
pub use key::Uuid;
pub use live::{Entry, LiveValue, Update};
pub use lock::{Attempt, EntryLock, LockGuard};
pub use options::{ExpireMode, StoreOptions};
pub use storages::{StoreType, Storages, StoragesBuilder};
pub use store::LiveStore;
pub use task::{Control, ExpireAction, ExpireEvent, ExpireTask};
pub use time::{Duration, Instant};
