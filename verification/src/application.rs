//! The service around the engine: which application to start, and the shapes
//! in which attractions, ratings and aggregates go out to clients.

pub mod app;
pub mod attraction_api;
pub mod similarity_api;
