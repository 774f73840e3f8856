//! kobot: a chat bot that registers channels into a durable listen set.
//!
//! The bot reacts to one trigger phrase. When the authorized owner sends it
//! in a server channel, that channel's id is added to a durable store and to
//! an in-memory mirror of that store, and the bot confirms in the channel.
//! Everything the bot decides per message is here, as verified functions;
//! the gateway connection and the store protocol live outside the library
//! and hand it plain values.

pub mod listen;
pub mod session;
pub mod messages;
pub mod registrar;
pub mod laws;
