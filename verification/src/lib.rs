//! A client library for [HashiCorp Vault](https://www.vaultproject.io/).
//!
//! The library decides and computes; it does no input or output of its own.
//! Each operation that needs the outside world is a machine of stages: a stage
//! says what is to be done next, its outcome is handed back as an event, and
//! the operation answers with the next stage, until it has finished.
//!
//! - [`resolve`]: find a token that the server accepts;
//! - [`kubernetes`] and [`oidc`]: have a token issued;
//! - [`save`]: keep a token for later sessions;
//! - [`fetch`]: fetch a secret and take it apart.
//!
//! What holds of the operations as a whole stands in [`laws`] and, as proof
//! functions whose names begin with `law`, in the modules themselves.

pub mod client;
pub mod environment;
pub mod error;
pub mod fetch;
pub mod http;
pub mod json;
pub mod kubernetes;
pub mod laws;
pub mod oidc;
pub mod resolve;
pub mod save;
pub mod secret;
pub mod secure_value;
pub mod string_map;
pub mod text;
pub mod views;

pub use client::VaultClient;
pub use environment::env_secret_and_remove;
pub use error::VaultClientErr;
