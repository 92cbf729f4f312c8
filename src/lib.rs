//! Authentication core of a notes service: signing configuration, token issue and
//! verification, password checks, login and refresh decisions, identity resolution
//! from the `Authorization` header, and the validation rules of the request bodies.

pub mod error;
pub mod config;
pub mod token;
pub mod credential;
pub mod identity;
pub mod text;
pub mod session;
pub mod validation;
pub mod auth_schema;
pub mod user_schema;
pub mod note_schema;
