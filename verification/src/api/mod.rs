pub mod cards;
pub mod error;
pub mod layout;
pub mod metrics;
pub mod model;
pub mod retry;
pub mod route_helper;
pub mod table;
pub mod text;
pub mod types;
pub mod utils;
