//! Authentication and authorisation gate for a bearer-token protected HTTP API.
//!
//! The library decides; the embedding server performs the I/O.
//! [`gate::start_request`] and [`gate::complete_request`] make every decision
//! for one request, asking the server to fetch keys only when needed. Step by
//! step, a request goes
//! through [`token::begin_verification`] (header and key id), obtains a key
//! set from a [`cache::KeyCache`], finishes with
//! [`token::finish_verification`] and is finally authorised for a scope with
//! [`scoped::Scoped::authorize`]. Every failure is an [`error::AuthError`],
//! which knows its status code and message.

pub mod cache;
pub mod error;
pub mod forms;
pub mod gate;
pub mod jwt;
pub mod keys;
pub mod scope;
pub mod scoped;
pub mod token;

pub use error::AuthError;
pub use cache::{KeyCache, KeyLookup};
pub use forms::{Date, NewAddress, NewPerson, UpdatePerson};
pub use keys::{KeyMaterial, KeySet, SigningKey};
pub use scope::ScopeSet;
pub use scoped::{ReadUser, RequiredScope, Scoped, WriteUser};
pub use token::{Claims, PendingToken};
