//! Core runtime fabric for a multiplayer voxel-world server: chunk and
//! palette storage, dimension and server state machines, the connection
//! protocol state machine, chunk streaming, and the event bus.
pub mod actor;
pub mod blocks;
pub mod chunk;
pub mod chunkload;
pub mod connection;
pub mod dimension;
pub mod events;
pub mod item;
pub mod registries;
pub mod registry;
pub mod section;
pub mod server;
pub mod text;
pub mod values;
pub mod wolf;
