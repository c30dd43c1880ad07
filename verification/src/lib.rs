//! A verified core for a small federated-identity service: the `acct:` URI
//! grammar, validated HTTP URLs, the WebFinger discovery decisions, the
//! local/remote actor model, and the resolve-or-create orchestration over an
//! actor repository.
pub mod account;
pub mod acct;
pub mod ap;
pub mod actor;
pub mod ids;
pub mod note;
pub mod resolver;
pub mod service;
pub mod store;
pub mod text;
pub mod urls;
pub mod well_known;
