//! The verified core of a native bridge that exposes an NFSv4 client engine
//! to a managed host runtime through integer handles.

pub mod attrs;
pub mod bridge;
pub mod error;
pub mod handles;
pub mod ops;
pub mod time;
