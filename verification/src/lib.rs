//! An authenticated relay for chat notifications.
//!
//! A request carries an authorization header and a payload of a title and a
//! message. The header is held against a fixed set of tokens; an authorized
//! payload becomes one outbound message for the messaging service, and what
//! came of that one delivery becomes the text of the reply.
//!
//! Nothing here touches the network: the caller performs the delivery and
//! hands back what happened.

pub mod auth;
pub mod config;
pub mod credentials;
pub mod delivery;
pub mod fault;
pub mod message;
pub mod relay;
pub mod status;
pub mod text;
