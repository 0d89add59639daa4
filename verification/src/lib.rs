//! A registry for machine-learning model artifacts.
//!
//! The registry tracks model records (metadata and lifecycle status) in an
//! in-memory table with unique ids, and hands artifact bytes to an
//! interchangeable storage backend addressed by a namespace and an object key.

pub mod clock;
pub mod gcs;
pub mod ids;
pub mod local;
pub mod models;
pub mod registry;
pub mod storage;

pub use models::CreateModelRequest;
pub use models::Model;
pub use models::ModelResponse;
pub use models::ModelStatus;
