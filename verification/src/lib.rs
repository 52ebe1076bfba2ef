//! The decisions of the Balto.AI Telegram bot: how an update is routed in the
//! dialogue, what each handler does to the dialogue state, what it sends, and
//! how the reports produced by the backend are kept until the employee
//! confirms them.
pub mod text;
pub mod command;
pub mod dialogue;
pub mod codec;
pub mod route;
pub mod report;
pub mod handlers;
pub mod rabbit;
pub mod laws;
