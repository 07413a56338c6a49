//! A small inference-serving core: a name-keyed model cache with lazy
//! construction and time-based eviction, together with the dispatch rules
//! that route an inbound request to the image or text variant of a model.

pub mod dispatch;
pub mod envelope;
pub mod model_registry;
pub mod models;
