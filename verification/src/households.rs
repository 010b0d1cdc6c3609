pub mod access_policy;
pub mod application;
pub mod broadcast_channel;
pub mod broadcast_events;
pub mod domain;
pub mod event_stream;
pub mod in_memory_repository;
pub mod laws;
pub mod ports;
pub mod stored_rows;
