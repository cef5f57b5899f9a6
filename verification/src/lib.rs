//! A retry layer between a caller and an HTTP connector: it evaluates
//! configurable acceptance policies against response metadata, bounds
//! retries by a budget, and replays the original request faithfully for
//! each attempt.  Tunnel requests and requests whose body cannot be
//! reproduced are passed through in a single attempt.

pub mod buffer;
pub mod connector;
pub mod message;
pub mod outcome;
pub mod policy;
pub mod service;
