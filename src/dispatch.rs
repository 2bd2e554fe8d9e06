use vstd::prelude::*;

use crate::channel_id::{channel_id_spec, parse_channel_id};
use crate::mapping::ChannelMapping;
use crate::message::RelayMessage;

verus! {

/// What the dispatcher does with one queued message.
pub enum Dispatch {
    /// Post `text` to channel `channel_id` with the bot credential.
    Post { channel_id: u64, text: String },
    /// No route is configured for the source channel: the message is dropped.
    Unmapped { source_channel_id: u64 },
    /// The configured destination is not a channel id: the message is
    /// dropped, and the error is reported.
    MalformedDestination { source_channel_id: u64, destination: String },
}

/// The abstract value of a [`Dispatch`].
pub enum DispatchView {
    Post { channel_id: u64, text: Seq<char> },
    Unmapped { source_channel_id: u64 },
    MalformedDestination { source_channel_id: u64, destination: Seq<char> },
}

impl View for Dispatch {
    type V = DispatchView;

    open spec fn view(&self) -> DispatchView {
        match self {
            Dispatch::Post { channel_id, text } => DispatchView::Post {
                channel_id: *channel_id,
                text: text@,
            },
            Dispatch::Unmapped { source_channel_id } => DispatchView::Unmapped {
                source_channel_id: *source_channel_id,
            },
            Dispatch::MalformedDestination { source_channel_id, destination } =>
                DispatchView::MalformedDestination {
                source_channel_id: *source_channel_id,
                destination: destination@,
            },
        }
    }
}

/// The decision for message `msg` under the routes `routes`: unmapped
/// sources are dropped, a destination that is not a channel id is an error
/// for this message alone, and otherwise the text goes, unchanged, to the
/// destination channel.
pub open spec fn dispatch_spec(routes: Map<u64, Seq<char>>, msg: (u64, Seq<char>)) -> DispatchView {
    if !routes.contains_key(msg.0) {
        DispatchView::Unmapped { source_channel_id: msg.0 }
    } else {
        match channel_id_spec(routes[msg.0]) {
            Some(id) => DispatchView::Post { channel_id: id, text: msg.1 },
            None => DispatchView::MalformedDestination {
                source_channel_id: msg.0,
                destination: routes[msg.0],
            },
        }
    }
}

/// Decides what is done with one queued message.
pub fn dispatch(mapping: &ChannelMapping, msg: RelayMessage) -> (r: Dispatch)
    ensures
        r@ == dispatch_spec(mapping@, msg@),
{
    match mapping.lookup(msg.source_channel_id) {
        None => Dispatch::Unmapped { source_channel_id: msg.source_channel_id },
        Some(destination) => match parse_channel_id(destination.as_str()) {
            Some(channel_id) => Dispatch::Post { channel_id, text: msg.text },
            None => Dispatch::MalformedDestination {
                source_channel_id: msg.source_channel_id,
                destination: destination.clone(),
            },
        },
    }
}

} // verus!
