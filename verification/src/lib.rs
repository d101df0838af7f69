//! The rules of a chat platform (accounts, guilds, channels, threads,
//! friendships, messages, presence and the realtime gateway), each stated as
//! a contract and proved.
pub mod config;
pub mod crypto;
pub mod domain;
pub mod error;
pub mod gateway;
pub mod http;
pub mod hub;
pub mod index;
pub mod permission;
pub mod platform;
pub mod realtime;
pub mod store;
pub mod text;
pub mod use_cases;
pub mod validation;
