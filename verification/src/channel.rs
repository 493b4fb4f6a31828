use vstd::prelude::*;

verus! {

/// The rendezvous state of one transport channel: a single-slot handoff
/// between the reader-facing producer and the dispatcher.
#[derive(Clone, Copy, Debug, PartialEq, Eq, Structural)]
pub enum ChannelState {
    /// No traffic.
    Idle,
    /// A request message is waiting to be picked up by the dispatcher.
    Requested,
    /// The request was picked up and has not been answered yet.
    Processing,
    /// The answer is posted and awaits pickup by the reader side.
    Responded,
}

/// One transport channel: a single-slot request/response rendezvous.
/// `slot` carries the request while `Requested` and the response while
/// `Responded`; in the other two states it is empty.
pub struct Channel {
    pub phase: ChannelState,
    pub slot: Vec<u8>,
}

impl Channel {
    pub fn new() -> (c: Channel)
        ensures
            c.phase is Idle,
            c.slot@ == Seq::<u8>::empty(),
    {
        Channel { phase: ChannelState::Idle, slot: Vec::new() }
    }

    /// The current rendezvous state, read-only.
    pub fn state(&self) -> (r: ChannelState)
        ensures
            r == self.phase,
    {
        self.phase
    }

    /// Reader side: offers a request message. Accepted only while `Idle`;
    /// moves to `Requested` and stores the message.
    pub fn post_request(&mut self, message: Vec<u8>) -> (ok: bool)
        ensures
            ok == (old(self).phase is Idle),
            ok ==> final(self).phase is Requested && final(self).slot@ == message@,
            !ok ==> *final(self) == *old(self),
    {
        match self.phase {
            ChannelState::Idle => {
                self.phase = ChannelState::Requested;
                self.slot = message;
                true
            },
            _ => { false },
        }
    }

    /// Dispatcher side: atomically moves `Requested` to `Processing` and
    /// yields the message; yields nothing in any other state.
    pub fn take_request(&mut self) -> (r: Option<Vec<u8>>)
        ensures
            old(self).phase is Requested ==> (r matches Some(m) && m@ == old(self).slot@
                && final(self).phase is Processing && final(self).slot@ == Seq::<u8>::empty()),
            !(old(self).phase is Requested) ==> r is None && *final(self) == *old(self),
    {
        match self.phase {
            ChannelState::Requested => {
                self.phase = ChannelState::Processing;
                let mut message: Vec<u8> = Vec::new();
                core::mem::swap(&mut message, &mut self.slot);
                Some(message)
            },
            _ => { None },
        }
    }

    /// Dispatcher side: posts the answer. Valid only in `Processing`;
    /// moves to `Responded`.
    pub fn respond(&mut self, message: Vec<u8>)
        requires
            old(self).phase is Processing,
        ensures
            final(self).phase is Responded,
            final(self).slot@ == message@,
    {
        self.phase = ChannelState::Responded;
        self.slot = message;
    }

    /// Reader side: reclaims the answer. Valid only in `Responded`; moves
    /// back to `Idle` and yields the message.
    pub fn take_response(&mut self) -> (r: Option<Vec<u8>>)
        ensures
            old(self).phase is Responded ==> (r matches Some(m) && m@ == old(self).slot@
                && final(self).phase is Idle && final(self).slot@ == Seq::<u8>::empty()),
            !(old(self).phase is Responded) ==> r is None && *final(self) == *old(self),
    {
        match self.phase {
            ChannelState::Responded => {
                self.phase = ChannelState::Idle;
                let mut message: Vec<u8> = Vec::new();
                core::mem::swap(&mut message, &mut self.slot);
                Some(message)
            },
            _ => { None },
        }
    }
}

} // verus!
