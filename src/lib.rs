//! Relays chat messages seen by one session to mapped destination channels
//! posted by another session.
//!
//! The library holds the relay's decisions: how channel identifiers are
//! read, how a source channel is mapped to its destination, what the
//! listener does with each inbound message, and the dispatcher's state
//! machine that decides, per queued message, whether and where it is posted.
pub mod channel_id;
pub mod dispatch;
pub mod dispatcher;
pub mod laws;
pub mod mapping;
pub mod message;
pub mod relay;

pub use channel_id::{parse_channel_id, source_key_id};
pub use dispatch::{dispatch, Dispatch, DispatchView};
pub use dispatcher::{Dispatcher, DispatcherState, Step};
pub use mapping::ChannelMapping;
pub use message::RelayMessage;
pub use relay::{forwarded, relay_channel, ClientListener, Forwarded, SendFailure, DEFAULT_CAPACITY, MAX_CAPACITY};
