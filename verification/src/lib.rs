//! Bridge relay between a game server's chat and a chat-platform bot:
//! a hot-swappable configuration store, a two-phase connection lifecycle,
//! a FIFO relay queue drained by a single consumer with per-message error
//! isolation, and templated message formatting.

pub mod discord;
pub mod format;
pub mod laws;
pub mod minecraft;
pub mod text;
