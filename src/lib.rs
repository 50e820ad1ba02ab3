//! Typed client core for the BitMax exchange: fixed-point decimals, request
//! signing, request routing and encoding, and the streaming wire protocol.
pub mod auth;
pub mod digits;
pub mod encode;
pub mod error;
pub mod fixed9;
pub mod json;
pub mod model;
pub mod request;
pub mod response;
pub mod stream;
pub mod text;

pub use fixed9::Fixed9;
