//! The control loop's decisions.
//!
//! Talking to the audio server is the caller's work. What to do next is
//! decided here: the caller reports each outcome as a [`ControlEvent`] and
//! carries out the [`ControlAction`] it gets back.
use vstd::prelude::*;
use crate::format::StreamFormat;
use crate::player::termination::ChannelState;
use crate::player::termination::TerminationChannel;
use crate::player::Terminate;

verus! {

/// Why playback could not start.
#[derive(Clone, Copy, Debug, PartialEq, Eq, Structural)]
pub enum PlaybackError {
    /// The audio server could not be reached.
    ServerConnection,
    /// The server did not take the declared stream format.
    FormatNegotiation,
}

impl PlaybackError {
    /// The diagnostic line for this error.
    pub fn message(self) -> (text: &'static str)
        ensures
            text@ == match self {
                PlaybackError::ServerConnection => "failed to connect to the audio server"@,
                PlaybackError::FormatNegotiation => "failed to negotiate the stream format"@,
            },
    {
        match self {
            PlaybackError::ServerConnection => "failed to connect to the audio server",
            PlaybackError::FormatNegotiation => "failed to negotiate the stream format",
        }
    }
}

/// Where the control loop stands.
#[derive(Clone, Copy, Debug, PartialEq, Eq, Structural)]
pub enum ControlPhase {
    /// The connection to the server is being set up.
    Connecting,
    /// Connected; the stream format is being declared.
    Negotiating,
    /// The callback is registered and the event loop runs.
    Running,
    /// The event loop was told to return.
    Exited,
    /// Setting up failed. Nothing is tried again.
    Failed,
}

/// What the caller reports to the control loop.
#[derive(Clone, Copy, Debug, PartialEq, Eq, Structural)]
pub enum ControlEvent {
    /// The server accepted the connection.
    Connected,
    /// The server could not be reached.
    ConnectFailed,
    /// The server took the declared format.
    FormatAccepted,
    /// The server refused the declared format.
    FormatRejected,
    /// A termination message arrived from the callback.
    Signal(Terminate),
}

/// What the caller is to do next.
#[derive(Clone, Copy, Debug, PartialEq, Eq, Structural)]
pub enum ControlAction {
    /// Declare this format for the stream, before any data flows.
    DeclareFormat(StreamFormat),
    /// Register the playback engine as the per-period callback and run the
    /// event loop.
    Run,
    /// Make the event loop return.
    Quit,
    /// Give up and report this error.
    Abort(PlaybackError),
    /// Nothing: the event changes nothing.
    Ignore,
}

/// The phase that follows `phase` on `event`.
pub open spec fn next_phase(phase: ControlPhase, event: ControlEvent) -> ControlPhase {
    match (phase, event) {
        (ControlPhase::Connecting, ControlEvent::Connected) => ControlPhase::Negotiating,
        (ControlPhase::Connecting, ControlEvent::ConnectFailed) => ControlPhase::Failed,
        (ControlPhase::Negotiating, ControlEvent::FormatAccepted) => ControlPhase::Running,
        (ControlPhase::Negotiating, ControlEvent::FormatRejected) => ControlPhase::Failed,
        (ControlPhase::Running, ControlEvent::Signal(_)) => ControlPhase::Exited,
        _ => phase,
    }
}

/// What the caller is to do when `event` arrives in `phase`, for a stream of
/// the given format.
pub open spec fn action_for(
    phase: ControlPhase,
    event: ControlEvent,
    format: StreamFormat,
) -> ControlAction {
    match (phase, event) {
        (ControlPhase::Connecting, ControlEvent::Connected) => ControlAction::DeclareFormat(format),
        (ControlPhase::Connecting, ControlEvent::ConnectFailed) => ControlAction::Abort(
            PlaybackError::ServerConnection,
        ),
        (ControlPhase::Negotiating, ControlEvent::FormatAccepted) => ControlAction::Run,
        (ControlPhase::Negotiating, ControlEvent::FormatRejected) => ControlAction::Abort(
            PlaybackError::FormatNegotiation,
        ),
        (ControlPhase::Running, ControlEvent::Signal(_)) => ControlAction::Quit,
        _ => ControlAction::Ignore,
    }
}

/// The phase after the events `events`, in order.
pub open spec fn phase_after(phase: ControlPhase, events: Seq<ControlEvent>) -> ControlPhase
    decreases events.len(),
{
    if events.len() == 0 {
        phase
    } else {
        next_phase(phase_after(phase, events.drop_last()), events.last())
    }
}

/// How many of the events `events` make the event loop return.
pub open spec fn quits(phase: ControlPhase, events: Seq<ControlEvent>, format: StreamFormat) -> nat
    decreases events.len(),
{
    if events.len() == 0 {
        0
    } else {
        let before = phase_after(phase, events.drop_last());
        quits(phase, events.drop_last(), format) + if action_for(before, events.last(), format)
            == ControlAction::Quit {
            1nat
        } else {
            0nat
        }
    }
}

/// Shutdown happens once. Whatever events arrive, in whatever order and
/// however many termination messages are among them, the event loop is told
/// to return at most once: once if the events take the control loop from
/// another phase to [`ControlPhase::Exited`], else never. A control loop
/// that has exited or failed stays where it is.
pub proof fn lemma_quits_once(phase: ControlPhase, events: Seq<ControlEvent>, format: StreamFormat)
    ensures
        quits(phase, events, format) == if phase != ControlPhase::Exited && phase_after(
            phase,
            events,
        ) == ControlPhase::Exited {
            1nat
        } else {
            0nat
        },
        phase == ControlPhase::Exited ==> phase_after(phase, events) == ControlPhase::Exited,
        phase == ControlPhase::Failed ==> phase_after(phase, events) == ControlPhase::Failed,
    decreases events.len(),
{
    if events.len() > 0 {
        lemma_quits_once(phase, events.drop_last(), format);
    }
}

/// The control loop: its phase, the format it declares, and the receiving
/// side of the termination channel.
#[derive(Clone, Copy, Debug, PartialEq, Eq, Structural)]
pub struct ControlLoop {
    phase: ControlPhase,
    format: StreamFormat,
    channel: TerminationChannel,
}

impl ControlLoop {
    /// Where the control loop stands.
    pub closed spec fn spec_phase(&self) -> ControlPhase {
        self.phase
    }

    /// The format the control loop declares for its stream.
    pub closed spec fn spec_format(&self) -> StreamFormat {
        self.format
    }

    /// The channel is closed exactly when the loop has exited.
    pub closed spec fn wf(&self) -> bool {
        if self.phase == ControlPhase::Exited {
            self.channel@ == ChannelState::Closed
        } else {
            self.channel@ == ChannelState::Open
        }
    }

    /// A control loop that has not connected yet.
    pub fn new(format: StreamFormat) -> (control: ControlLoop)
        ensures
            control.wf(),
            control.spec_phase() == ControlPhase::Connecting,
            control.spec_format() == format,
    {
        ControlLoop { phase: ControlPhase::Connecting, format, channel: TerminationChannel::new() }
    }

    /// Where the control loop stands.
    #[verifier::when_used_as_spec(spec_phase)]
    pub fn phase(&self) -> (phase: ControlPhase)
        ensures
            phase == self.spec_phase(),
    {
        self.phase
    }

    /// The format the control loop declares for its stream.
    #[verifier::when_used_as_spec(spec_format)]
    pub fn format(&self) -> (format: StreamFormat)
        ensures
            format == self.spec_format(),
    {
        self.format
    }

    /// Takes in one event and says what to do next.
    ///
    /// Connecting and negotiating each end in success or in failure, and a
    /// failure is final. While the loop runs, the first termination message
    /// that arrives makes it quit; every other message, before or after, is
    /// ignored.
    pub fn handle(&mut self, event: ControlEvent) -> (action: ControlAction)
        requires
            old(self).wf(),
        ensures
            final(self).wf(),
            final(self).spec_format() == old(self).spec_format(),
            final(self).spec_phase() == next_phase(old(self).spec_phase(), event),
            action == action_for(old(self).spec_phase(), event, old(self).spec_format()),
    {
        match self.phase {
            ControlPhase::Connecting => match event {
                ControlEvent::Connected => {
                    self.phase = ControlPhase::Negotiating;
                    ControlAction::DeclareFormat(self.format)
                },
                ControlEvent::ConnectFailed => {
                    self.phase = ControlPhase::Failed;
                    ControlAction::Abort(PlaybackError::ServerConnection)
                },
                _ => ControlAction::Ignore,
            },
            ControlPhase::Negotiating => match event {
                ControlEvent::FormatAccepted => {
                    self.phase = ControlPhase::Running;
                    ControlAction::Run
                },
                ControlEvent::FormatRejected => {
                    self.phase = ControlPhase::Failed;
                    ControlAction::Abort(PlaybackError::FormatNegotiation)
                },
                _ => ControlAction::Ignore,
            },
            ControlPhase::Running => match event {
                ControlEvent::Signal(message) => {
                    self.channel.send(message);
                    match self.channel.recv() {
                        Some(_) => {
                            self.phase = ControlPhase::Exited;
                            ControlAction::Quit
                        },
                        None => ControlAction::Ignore,
                    }
                },
                _ => ControlAction::Ignore,
            },
            ControlPhase::Exited => ControlAction::Ignore,
            ControlPhase::Failed => ControlAction::Ignore,
        }
    }
}

} // verus!
