//! A moderation agent for an IRC-style streaming chat channel.
//!
//! The crate classifies raw protocol events into typed chat events,
//! tracks per-user trust state in a roster, and decides for each
//! incoming chat line whether to sanction its sender.

pub mod chat;
pub mod checker;
pub mod classify;
pub mod config;
pub mod events;
pub mod strutil;
pub mod roster;
pub mod tags;
