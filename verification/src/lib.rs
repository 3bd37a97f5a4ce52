//! Session actor subsystem for a live, multi-client counter service.
//!
//! A *session* is a named, server-resident unit of mutable state that any
//! number of clients may attach to concurrently. Each session is owned by a
//! single-writer actor: every mutation flows through one queue, is applied by
//! the domain engine, and the resulting responses are broadcast to every
//! attached connection. When the last connection detaches and an idle grace
//! period elapses, the actor terminates and hands its final state to durable
//! storage; a later attach reloads that state.
//!
//! This crate holds the verified core of that subsystem: the domain engine,
//! the wire codec, the actor's state machine, the per-connection adapter
//! decisions, and the registry's attach-or-create logic. The asynchronous
//! shell around it (sockets, channels, timers, storage) drives these
//! functions and performs the I/O they decide on.

pub mod actor;
pub mod adapter;
pub mod assets;
pub mod codec;
pub mod config;
pub mod domain;
pub mod registry;
