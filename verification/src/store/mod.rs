//! The transactional decisions of the relational stores.
pub mod conversation;
pub mod friendship;
pub mod guild;
pub mod session;
