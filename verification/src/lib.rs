//! Typed errors for the CUDA driver API: the error taxonomy, the translation
//! of raw driver status codes into it, and the rendering of error messages.
pub mod error;
pub mod status;
pub mod message;
