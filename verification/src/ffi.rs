//! What the library knows of the platform's native buffer library.

pub mod hb;
