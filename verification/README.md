# Livestore

A statically typed in-memory key/value store for real-time servers, verified with Verus.

- Insert, assign, create, fetch and remove entries by UUID.
- Watch an entry: its subscribers are told of overwrites, mutations, messages and removal.
- Hold the lock of an entry while reading, computing and writing back.
- Let entries expire that have not been changed for some time.

## Layout

`src/` is the library. All of it is verified.

| Module | Contents |
| --- | --- |
| `live` | the `LiveValue` trait, entries, and updates to subscribers |
| `state` | the mathematical content of a store, and what each operation does to it |
| `store` | the store: creating and reading (`store.rs`), operations under the lock of an entry (`store/locked.rs`), messages and expiration (`store/expire.rs`) |
| `guard` | entries whose lock is held |
| `entries`, `index` | entries in slots, and the `DashMap` that finds them by their keys |
| `raw`, `channel`, `lock` | an entry with its `tokio` broadcast channel and its `tokio` mutex |
| `expiry`, `task` | which entries expire, and the task that looks for them |
| `storages` | stores of different types, found by a perfect hash of the type |
| `builder`, `options`, `clock`, `time`, `key` | settings, times and keys |
| `operation`, `history`, `laws` | what is done to a store, and what holds of it as a whole |

`app/` shares a store between the tasks of an async runtime: it waits for locks, receives
updates, and runs the task that searches for expired entries.

## What is taken on trust

The calls into `dashmap`, `tokio`, `uuid`, `boomphf` and the clock of the standard library stand
behind small functions whose contracts are believed. Each says in its documentation which call it
makes and what it claims of it: among other things that a clock never goes back, and that a guard is
one of the lock it was got from. Which of several tasks gets a lock, what the clock shows and which
key is generated are left open.
