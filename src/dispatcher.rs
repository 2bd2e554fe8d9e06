use vstd::prelude::*;

use crate::dispatch::{dispatch, dispatch_spec, Dispatch, DispatchView};
use crate::mapping::ChannelMapping;
use crate::message::RelayMessage;

verus! {

/// Where the dispatcher stands between two events.
#[derive(PartialEq, Eq, Structural, Clone, Copy, Debug)]
pub enum DispatcherState {
    /// Waiting for the next queued message.
    Idle,
    /// The queue was closed and drained: nothing more will be handled.
    Terminated,
}

/// What the loop around the dispatcher does next.
pub enum Step {
    /// Carry out the decision for the message just received, then wait again.
    Handle(Dispatch),
    /// Leave the loop for good.
    Stop,
}

/// The bot-side consumer of the relay queue. The loop that owns it waits
/// for the next message (`None` once the queue is closed and empty), hands
/// it to [`Dispatcher::step`], and performs what comes back.
pub struct Dispatcher {
    mapping: ChannelMapping,
    state: DispatcherState,
}

impl Dispatcher {
    pub closed spec fn routes(&self) -> Map<u64, Seq<char>> {
        self.mapping@
    }

    pub closed spec fn spec_state(&self) -> DispatcherState {
        self.state
    }

    /// A dispatcher waiting for its first message, with fixed routes.
    pub fn new(mapping: ChannelMapping) -> (r: Dispatcher)
        ensures
            r.routes() == mapping@,
            r.spec_state() == DispatcherState::Idle,
    {
        Dispatcher { mapping, state: DispatcherState::Idle }
    }

    pub fn state(&self) -> (r: DispatcherState)
        ensures
            r == self.spec_state(),
    {
        self.state
    }

    /// Takes the next outcome of waiting on the queue. A message is decided
    /// by its route and the dispatcher waits again; the end of the queue
    /// terminates it, and a terminated dispatcher only ever stops.
    pub fn step(&mut self, next: Option<RelayMessage>) -> (r: Step)
        ensures
            final(self).routes() == old(self).routes(),
            old(self).spec_state() == DispatcherState::Terminated ==> {
                &&& final(self).spec_state() == DispatcherState::Terminated
                &&& r is Stop
            },
            old(self).spec_state() == DispatcherState::Idle ==> match next {
                None => {
                    &&& final(self).spec_state() == DispatcherState::Terminated
                    &&& r is Stop
                },
                Some(msg) => {
                    &&& final(self).spec_state() == DispatcherState::Idle
                    &&& r matches Step::Handle(d) && d@ == dispatch_spec(old(self).routes(), msg@)
                },
            },
    {
        match self.state {
            DispatcherState::Terminated => Step::Stop,
            DispatcherState::Idle => match next {
                None => {
                    self.state = DispatcherState::Terminated;
                    Step::Stop
                },
                Some(msg) => Step::Handle(dispatch(&self.mapping, msg)),
            },
        }
    }

    /// Handles messages in the order in which they were queued, as the loop
    /// does while the queue stays open: one decision per message, in order.
    pub fn dispatch_queued(&mut self, queued: Vec<RelayMessage>) -> (r: Vec<Dispatch>)
        ensures
            final(self).routes() == old(self).routes(),
            final(self).spec_state() == old(self).spec_state(),
            old(self).spec_state() == DispatcherState::Terminated ==> r@.len() == 0,
            old(self).spec_state() == DispatcherState::Idle ==> decisions(r@) == dispatch_all(
                old(self).routes(),
                messages(queued@),
            ),
    {
        let mut out: Vec<Dispatch> = Vec::new();
        if self.state == DispatcherState::Terminated {
            return out;
        }
        let ghost routes = self.routes();
        let mut rest = queued;
        let ghost total = rest@.len();
        while rest.len() > 0
            invariant
                self.routes() == routes,
                self.spec_state() == DispatcherState::Idle,
                total == queued@.len(),
                rest@.len() <= total,
                rest@ =~= queued@.skip(total - rest@.len()),
                decisions(out@) == dispatch_all(
                    routes,
                    messages(queued@.take(total - rest@.len())),
                ),
            decreases rest@.len(),
        {
            let ghost done = total - rest@.len();
            let msg = rest.remove(0);
            proof {
                assert(queued@.skip(done)[0] == msg);
                assert(queued@.take(done + 1) =~= queued@.take(done).push(msg));
                assert(messages(queued@.take(done + 1)) =~= messages(queued@.take(done)).push(msg@));
                assert(rest@ =~= queued@.skip(done + 1));
            }
            let ghost before = out@;
            match self.step(Some(msg)) {
                Step::Handle(d) => {
                    out.push(d);
                    proof {
                        assert(out@.drop_last() =~= before);
                        assert(decisions(out@) =~= decisions(before).push(d@));
                    }
                },
                Step::Stop => {},
            }
        }
        assert(queued@.take(total as int) =~= queued@);
        out
    }
}

/// The abstract values of a sequence of messages.
pub open spec fn messages(s: Seq<RelayMessage>) -> Seq<(u64, Seq<char>)> {
    s.map_values(|m: RelayMessage| m@)
}

/// The abstract values of a sequence of decisions.
pub open spec fn decisions(s: Seq<Dispatch>) -> Seq<DispatchView> {
    s.map_values(|d: Dispatch| d@)
}

/// The decision for each message, in the order of the messages.
pub open spec fn dispatch_all(routes: Map<u64, Seq<char>>, msgs: Seq<(u64, Seq<char>)>) -> Seq<DispatchView> {
    msgs.map_values(|m: (u64, Seq<char>)| dispatch_spec(routes, m))
}

} // verus!
