//! Host-side bridge for a generated program: the request and response model
//! of its network effect, the translation of HTTP outcomes into responses,
//! the two-phase buffer protocol that runs its entry point and continuation,
//! and the decisions behind its console and panic hooks.
pub mod effects;
pub mod invoker;
pub mod request;
pub mod response;
