use pwsb::format::StreamFormat;
use pwsb::player::control::ControlAction;
use pwsb::player::control::ControlEvent;
use pwsb::player::control::ControlLoop;
use pwsb::player::control::ControlPhase;
use pwsb::player::control::PlaybackError;
use pwsb::player::default_format;
use pwsb::player::Terminate;

fn running() -> ControlLoop {
    let mut control = ControlLoop::new(default_format());
    control.handle(ControlEvent::Connected);
    control.handle(ControlEvent::FormatAccepted);
    control
}

#[test]
fn normal_run_declares_format_then_runs_then_quits() {
    let format = StreamFormat::new(48000, 2);
    let mut control = ControlLoop::new(format);
    assert_eq!(control.phase(), ControlPhase::Connecting);
    assert_eq!(control.format(), format);
    assert_eq!(control.handle(ControlEvent::Connected), ControlAction::DeclareFormat(format));
    assert_eq!(control.phase(), ControlPhase::Negotiating);
    assert_eq!(control.handle(ControlEvent::FormatAccepted), ControlAction::Run);
    assert_eq!(control.phase(), ControlPhase::Running);
    assert_eq!(control.handle(ControlEvent::Signal(Terminate)), ControlAction::Quit);
    assert_eq!(control.phase(), ControlPhase::Exited);
}

#[test]
fn connection_failure_is_fatal() {
    let mut control = ControlLoop::new(default_format());
    assert_eq!(
        control.handle(ControlEvent::ConnectFailed),
        ControlAction::Abort(PlaybackError::ServerConnection)
    );
    assert_eq!(control.phase(), ControlPhase::Failed);
    assert_eq!(control.handle(ControlEvent::Connected), ControlAction::Ignore);
    assert_eq!(control.handle(ControlEvent::FormatAccepted), ControlAction::Ignore);
    assert_eq!(control.handle(ControlEvent::Signal(Terminate)), ControlAction::Ignore);
    assert_eq!(control.phase(), ControlPhase::Failed);
}

#[test]
fn format_rejection_is_fatal() {
    let mut control = ControlLoop::new(default_format());
    control.handle(ControlEvent::Connected);
    assert_eq!(
        control.handle(ControlEvent::FormatRejected),
        ControlAction::Abort(PlaybackError::FormatNegotiation)
    );
    assert_eq!(control.phase(), ControlPhase::Failed);
    assert_eq!(control.handle(ControlEvent::FormatAccepted), ControlAction::Ignore);
}

#[test]
fn loop_quits_exactly_once_however_many_signals_arrive() {
    let mut control = running();
    let mut quits = 0;
    for _ in 0..50 {
        if control.handle(ControlEvent::Signal(Terminate)) == ControlAction::Quit {
            quits += 1;
        }
    }
    assert_eq!(quits, 1);
    assert_eq!(control.phase(), ControlPhase::Exited);
}

#[test]
fn signal_before_streaming_is_ignored() {
    let mut control = ControlLoop::new(default_format());
    assert_eq!(control.handle(ControlEvent::Signal(Terminate)), ControlAction::Ignore);
    assert_eq!(control.phase(), ControlPhase::Connecting);
    control.handle(ControlEvent::Connected);
    assert_eq!(control.handle(ControlEvent::Signal(Terminate)), ControlAction::Ignore);
    assert_eq!(control.phase(), ControlPhase::Negotiating);
    control.handle(ControlEvent::FormatAccepted);
    assert_eq!(control.handle(ControlEvent::Signal(Terminate)), ControlAction::Quit);
}

#[test]
fn events_out_of_turn_change_nothing() {
    let mut control = ControlLoop::new(default_format());
    assert_eq!(control.handle(ControlEvent::FormatAccepted), ControlAction::Ignore);
    assert_eq!(control.handle(ControlEvent::FormatRejected), ControlAction::Ignore);
    assert_eq!(control.phase(), ControlPhase::Connecting);
    let mut control = running();
    assert_eq!(control.handle(ControlEvent::Connected), ControlAction::Ignore);
    assert_eq!(control.handle(ControlEvent::ConnectFailed), ControlAction::Ignore);
    assert_eq!(control.handle(ControlEvent::FormatRejected), ControlAction::Ignore);
    assert_eq!(control.phase(), ControlPhase::Running);
}

#[test]
fn each_playback_error_has_its_diagnostic_line() {
    assert_eq!(PlaybackError::ServerConnection.message(), "failed to connect to the audio server");
    assert_eq!(PlaybackError::FormatNegotiation.message(), "failed to negotiate the stream format");
}
