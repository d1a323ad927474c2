//! A transport-agnostic publish/subscribe bus: typed handlers registered under
//! message-type names, an onion of layers around every dispatch, and the
//! contracts that say what each of them does.

pub mod codec;
pub mod error;
pub mod message;
pub mod message_store;
pub mod registry;
pub mod layer;
pub mod message_handler;
pub mod dispatcher;
pub mod passage;
pub mod registrations;
pub mod context;
pub mod client;
pub mod listener;
pub mod publisher;
pub mod builder;
