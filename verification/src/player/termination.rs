//! The termination channel: the one-way signal from the real-time callback
//! to the control loop.
//!
//! The sending side may fire any number of times; the receiving side sees one
//! request. [`TerminationChannel`] is the receiving side's bookkeeping: it is
//! fed every [`Terminate`] message that arrives and hands exactly one of them
//! on.
use vstd::prelude::*;
use crate::player::Terminate;

verus! {

/// What a termination channel has seen so far.
#[derive(Clone, Copy, Debug, PartialEq, Eq, Structural)]
pub enum ChannelState {
    /// Nothing was sent.
    Open,
    /// A request was sent and not yet received.
    Signalled,
    /// The request was received. The channel has done its work.
    Closed,
}

/// One use of a channel, from either side.
#[derive(Clone, Copy, Debug, PartialEq, Eq, Structural)]
pub enum ChannelOp {
    /// The sender posts a termination message.
    Send,
    /// The receiver asks whether termination was requested.
    Recv,
}

impl ChannelState {
    /// The state after a send: the first send raises the request, a later one
    /// changes nothing.
    pub open spec fn send(self) -> ChannelState {
        match self {
            ChannelState::Open => ChannelState::Signalled,
            ChannelState::Signalled => ChannelState::Signalled,
            ChannelState::Closed => ChannelState::Closed,
        }
    }

    /// Whether a receive hands a message on: only while a request is waiting.
    pub open spec fn delivers(self) -> bool {
        self == ChannelState::Signalled
    }

    /// The state after a receive.
    pub open spec fn recv(self) -> ChannelState {
        match self {
            ChannelState::Open => ChannelState::Open,
            ChannelState::Signalled => ChannelState::Closed,
            ChannelState::Closed => ChannelState::Closed,
        }
    }

    /// The state after one use.
    pub open spec fn apply(self, op: ChannelOp) -> ChannelState {
        match op {
            ChannelOp::Send => self.send(),
            ChannelOp::Recv => self.recv(),
        }
    }

    /// The state after the uses `ops`, in order.
    pub open spec fn run(self, ops: Seq<ChannelOp>) -> ChannelState
        decreases ops.len(),
    {
        if ops.len() == 0 {
            self
        } else {
            self.run(ops.drop_last()).apply(ops.last())
        }
    }

    /// How many of the uses `ops` are receives that hand a message on.
    pub open spec fn deliveries(self, ops: Seq<ChannelOp>) -> nat
        decreases ops.len(),
    {
        if ops.len() == 0 {
            0
        } else {
            let before = self.run(ops.drop_last());
            self.deliveries(ops.drop_last()) + if ops.last() == ChannelOp::Recv
                && before.delivers() {
                1nat
            } else {
                0nat
            }
        }
    }

    /// The state after `n` sends in a row.
    pub open spec fn send_times(self, n: nat) -> ChannelState
        decreases n,
    {
        if n == 0 {
            self
        } else {
            self.send_times((n - 1) as nat).send()
        }
    }

    /// Sending is idempotent: after the first send, any number of further
    /// sends leaves the channel exactly as the first one left it, so nothing
    /// that is done with the channel afterwards can tell them apart.
    pub proof fn lemma_send_idempotent(self, n: nat, ops: Seq<ChannelOp>)
        requires
            n >= 1,
        ensures
            self.send_times(n) == self.send(),
            self.send_times(n).run(ops) == self.send().run(ops),
            self.send_times(n).deliveries(ops) == self.send().deliveries(ops),
        decreases n,
    {
        if n > 1 {
            self.lemma_send_idempotent((n - 1) as nat, ops);
        } else {
            assert(self.send_times(0) == self);
        }
    }

    /// Whatever is done with a channel, in whatever order, it hands a message
    /// on at most once: once if the uses take it from another state to
    /// [`ChannelState::Closed`], else never.
    pub proof fn lemma_delivers_once(self, ops: Seq<ChannelOp>)
        ensures
            self.deliveries(ops) == if self != ChannelState::Closed && self.run(ops)
                == ChannelState::Closed {
                1nat
            } else {
                0nat
            },
            self == ChannelState::Closed ==> self.run(ops) == ChannelState::Closed,
            self.run(ops) == ChannelState::Open ==> self == ChannelState::Open,
        decreases ops.len(),
    {
        if ops.len() > 0 {
            self.lemma_delivers_once(ops.drop_last());
        }
    }
}

/// The receiving side of the termination channel.
#[derive(Clone, Copy, Debug, PartialEq, Eq, Structural)]
pub struct TerminationChannel {
    state: ChannelState,
}

impl View for TerminationChannel {
    type V = ChannelState;

    closed spec fn view(&self) -> ChannelState {
        self.state
    }
}

impl TerminationChannel {
    /// A channel on which nothing was sent.
    pub fn new() -> (channel: TerminationChannel)
        ensures
            channel@ == ChannelState::Open,
    {
        TerminationChannel { state: ChannelState::Open }
    }

    /// What the channel has seen so far.
    pub fn state(&self) -> (state: ChannelState)
        ensures
            state == self@,
    {
        self.state
    }

    /// Takes in a termination message. The first one raises the request;
    /// every later one is a no-op. Never waits.
    pub fn send(&mut self, message: Terminate)
        ensures
            final(self)@ == old(self)@.send(),
    {
        match self.state {
            ChannelState::Open => {
                self.state = ChannelState::Signalled;
            },
            ChannelState::Signalled => {},
            ChannelState::Closed => {},
        }
    }

    /// Hands the request on, once: the first call after a send returns the
    /// message, every other call returns `None`.
    pub fn recv(&mut self) -> (message: Option<Terminate>)
        ensures
            final(self)@ == old(self)@.recv(),
            message is Some <==> old(self)@.delivers(),
    {
        match self.state {
            ChannelState::Signalled => {
                self.state = ChannelState::Closed;
                Some(Terminate)
            },
            ChannelState::Open => None,
            ChannelState::Closed => None,
        }
    }
}

} // verus!
