//! The operations of the platform, each a step function over the answers
//! of its repository calls.
pub mod auth;
pub mod conversation;
pub mod flow;
pub mod friendship;
pub mod guild_channel;
pub mod invite;
pub mod message;
