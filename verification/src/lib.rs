//! A double opt-in mailing-list subscription service: validated subscriber
//! details, confirmation tokens, a store of subscribers and tokens
//! with its consistency rules, and the workflows that tie them together.

pub mod charset;
pub mod domain;
pub mod text;
pub mod token;
pub mod store;
pub mod email;
pub mod routes;
pub mod guarantees;
