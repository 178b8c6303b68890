//! The domain: attractions, their ratings and aggregates, and the engine that
//! reconciles and compares them.

pub mod aggregation;
pub mod attraction;
pub mod attraction_controller;
pub mod attraction_repository;
pub mod attraction_similarity;
pub mod exchange;
pub mod similarity_controller;
pub mod similarity_generator;
pub mod similarity_pass;
pub mod similarity_repository;
