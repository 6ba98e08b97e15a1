//! Sphinx bot: the decision logic of a Telegram group-verification bot.
//!
//! New members of a monitored group are suspended and must answer a question
//! in a private chat; the library decides every call the bot makes, and the
//! application around it performs those calls.

pub mod client;
pub mod methods;
pub mod text;
pub mod decimal;
pub mod model;
pub mod compose;
pub mod questions;
pub mod links;
pub mod commands;
pub mod members;
pub mod callbacks;
pub mod auth_hub;
pub mod durable;
pub mod entry;
pub mod polling;
