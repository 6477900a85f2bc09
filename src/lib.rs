//! A managed rendering-backend pool: bounded admission, usage accounting,
//! wear-triggered recycling of the backend handle, and cooperative shutdown,
//! each stated as a verified state machine that a runtime drives. Beside it,
//! the pieces of request handling that compute: card markup, color and name
//! normalisation, and whole-word keyword matching.

pub mod config;
pub mod gate;
pub mod laws;
pub mod monitor;
pub mod operation;
pub mod pool;
pub mod recycle;
pub mod shutdown;
pub mod stats;

pub mod color;
pub mod keywords;
pub mod leaderboard;
pub mod models;
pub mod template;
