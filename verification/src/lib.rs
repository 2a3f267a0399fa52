//! The core of a storefront platform on which every store is a tenant of its
//! own: how a request is bound to one tenant, how the rank of its principal
//! is held against what the request asks for, and how categories, their
//! products and the products' stock are kept in a document store without
//! one tenant ever seeing what belongs to another.
//!
//! The handling of a request never waits for the document store. It is a
//! sequence of steps, each of which takes the answer to the last question
//! and gives the next question or the reply; whoever runs the steps puts the
//! questions to the store. `database` and `exchange` say what the store
//! holds and what it answers, and each handler is proved against them.

pub mod category;
pub mod common;
pub mod config;
pub mod consistency;
pub mod database;
pub mod exchange;
pub mod isolation;
pub mod store;
pub mod user;
