use vstd::prelude::*;

verus! {

/// One inbound message on its way from the listener to the dispatcher.
pub struct RelayMessage {
    /// The channel the message was seen in.
    pub source_channel_id: u64,
    /// The text, passed on unmodified.
    pub text: String,
}

impl View for RelayMessage {
    type V = (u64, Seq<char>);

    open spec fn view(&self) -> (u64, Seq<char>) {
        (self.source_channel_id, self.text@)
    }
}

impl RelayMessage {
    pub fn new(source_channel_id: u64, text: String) -> (r: RelayMessage)
        ensures
            r.source_channel_id == source_channel_id,
            r.text == text,
    {
        RelayMessage { source_channel_id, text }
    }
}

} // verus!
