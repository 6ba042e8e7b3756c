//! Runtime substrate of an entity-component-system: presence indexes kept
//! as bitsets, storage backends consulted together with them, a component
//! store with an entity allocator that recycles freed indices, entity
//! builders, deferred command buffers, joins, the executor's retain step
//! and the stage plan of a tick.

pub mod bitset;
pub mod builder;
pub mod command;
pub mod ecs;
pub mod entity;
pub mod executor;
pub mod freelist;
pub mod join;
pub mod laws;
pub mod model;
pub mod schedule;
pub mod storage;
pub mod store;
