//! Over-the-air firmware update for a device that is driven by messages on a
//! publish/subscribe channel.
//!
//! The library is the decision-making half of the update: it owns the
//! [`session::UpdateSession`], reads incoming messages, and answers every event
//! with the list of [`protocol::Action`]s that the surrounding program has to
//! perform (publish a message, call the flash target, restart).  The program
//! performs an action and hands the flash target's answer back as a
//! [`protocol::FlashResult`].  Nothing in here touches the network or the flash.

pub mod bounded;
pub mod driver;
pub mod json;
pub mod laws;
pub mod metadata;
pub mod plan;
pub mod protocol;
pub mod session;
pub mod wire;
