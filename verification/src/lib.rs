//! A small library of self-contained language demonstrations: a greeting
//! module with restricted visibility, string appending by value and by
//! mutable reference, closures that capture a loop index by value, and
//! name lookup through a trait implemented by two animal kinds. Every
//! function carries a contract pinning down the exact text it produces,
//! so the fixed console transcript assembled in `transcript` is proved
//! line by line.

pub mod animals;
pub mod closures;
pub mod decimal;
pub mod greetings;
pub mod render;
pub mod text;
pub mod transcript;
