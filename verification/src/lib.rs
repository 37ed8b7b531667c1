//! Decision logic of a client for a model-tracking server: reference
//! validation, request and path planning, response classification and the
//! bounded retry of file transfers. Every network and filesystem effect is
//! left to the caller, which hands the outcome of each effect back as a value.
pub mod api;
