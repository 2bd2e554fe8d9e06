use vstd::prelude::*;

use crate::channel_id::channel_id_spec;
use crate::dispatch::{dispatch_spec, DispatchView};
use crate::dispatcher::dispatch_all;

verus! {

/// The post that a decision asks for, if it asks for one.
pub open spec fn post_of(d: DispatchView) -> Option<(u64, Seq<char>)> {
    match d {
        DispatchView::Post { channel_id, text } => Some((channel_id, text)),
        _ => None,
    }
}

/// The post that message `msg` is owed under `routes`: its text, to the
/// channel its source is routed to, where that route names a channel id.
pub open spec fn owed_post(routes: Map<u64, Seq<char>>, msg: (u64, Seq<char>)) -> Option<(u64, Seq<char>)> {
    if routes.contains_key(msg.0) && channel_id_spec(routes[msg.0]) is Some {
        Some((channel_id_spec(routes[msg.0])->Some_0, msg.1))
    } else {
        None
    }
}

/// Posts go out in the order in which their messages were queued: the posts
/// asked for by the decisions on a queued sequence are exactly the posts that
/// its messages are owed, message after message.
pub proof fn lemma_posts_in_queue_order(routes: Map<u64, Seq<char>>, msgs: Seq<(u64, Seq<char>)>)
    ensures
        dispatch_all(routes, msgs).filter_map(|d: DispatchView| post_of(d)) == msgs.filter_map(
            |m: (u64, Seq<char>)| owed_post(routes, m),
        ),
    decreases msgs.len(),
{
    let ds = dispatch_all(routes, msgs);
    if msgs.len() > 0 {
        lemma_posts_in_queue_order(routes, msgs.drop_last());
        assert(ds.drop_last() =~= dispatch_all(routes, msgs.drop_last()));
        assert(post_of(ds.last()) == owed_post(routes, msgs.last()));
    } else {
        assert(ds =~= Seq::<DispatchView>::empty());
    }
}

/// A message whose source channel has no route asks for no post.
pub proof fn lemma_unmapped_not_posted(routes: Map<u64, Seq<char>>, msg: (u64, Seq<char>))
    requires
        !routes.contains_key(msg.0),
    ensures
        post_of(dispatch_spec(routes, msg)) is None,
        dispatch_spec(routes, msg) == (DispatchView::Unmapped { source_channel_id: msg.0 }),
{
}

/// A message whose source channel has a route asks for one post, to the
/// routed channel, with its text unmodified; where the route is not a
/// channel id, it asks for none and the error names the route.
pub proof fn lemma_mapped_posted_once(routes: Map<u64, Seq<char>>, msg: (u64, Seq<char>))
    requires
        routes.contains_key(msg.0),
    ensures
        channel_id_spec(routes[msg.0]) matches Some(id) ==> dispatch_spec(routes, msg) == (
        DispatchView::Post { channel_id: id, text: msg.1 }),
        channel_id_spec(routes[msg.0]) is None ==> dispatch_spec(routes, msg) == (
        DispatchView::MalformedDestination { source_channel_id: msg.0, destination: routes[msg.0] }),
        seq![msg].filter_map(|m: (u64, Seq<char>)| owed_post(routes, m)).len() == if channel_id_spec(
            routes[msg.0],
        ) is Some {
            1int
        } else {
            0int
        },
{
    reveal_with_fuel(Seq::filter_map, 2);
    assert(seq![msg].drop_last() =~= Seq::<(u64, Seq<char>)>::empty());
}

} // verus!
