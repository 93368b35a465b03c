use flatline::auth::{AuthReply, Authenticator};
use flatline::channel::{
    terminal_type, ChannelSetup, EnvVar, SetupCall, SetupStep, INITIAL_DIMENSION,
};
use flatline::error::{Error, SetupStage};
use flatline::session::SessionState;

fn setup(strict: bool) -> ChannelSetup {
    let mut auth = Authenticator::new();
    auth.advance(AuthReply::Connected);
    auth.advance(AuthReply::Identities(2));
    auth.advance(AuthReply::Connected);
    auth.advance(AuthReply::Rejected);
    auth.advance(AuthReply::Accepted);
    ChannelSetup::begin(&auth, strict).unwrap()
}

#[test]
fn setup_requests_come_in_order() {
    for strict in [true, false] {
        let mut s = setup(strict);
        assert_eq!(s.is_strict(), strict);
        assert_eq!(s.step(), SetupStep::Call(SetupCall::OpenSession));
        assert_eq!(s.state(), SessionState::Active);
        assert_eq!(s.advance(true), SetupStep::Call(SetupCall::RequestPty));
        assert_eq!(s.advance(true), SetupStep::Call(SetupCall::SetEnv(EnvVar::Term)));
        assert_eq!(s.advance(true), SetupStep::Call(SetupCall::SetEnv(EnvVar::ColorTerm)));
        assert_eq!(s.advance(true), SetupStep::Call(SetupCall::RequestShell));
        assert_eq!(s.advance(true), SetupStep::Ready);
        assert_eq!(s.state(), SessionState::Active);
        assert_eq!(s.advance(true), SetupStep::Ready);
        assert_eq!(s.advance(false), SetupStep::Ready);
    }
}

#[test]
fn terminal_and_environment_values() {
    assert_eq!(terminal_type(), "xterm-256color");
    assert_eq!(INITIAL_DIMENSION, 0);
    assert_eq!(EnvVar::Term.name(), "TERM");
    assert_eq!(EnvVar::Term.value(), "xterm-256color");
    assert_eq!(EnvVar::ColorTerm.name(), "COLORTERM");
    assert_eq!(EnvVar::ColorTerm.value(), "truecolor");
}

#[test]
fn channel_that_cannot_be_opened_only_disconnects() {
    for strict in [true, false] {
        let mut s = setup(strict);
        assert_eq!(s.advance(false), SetupStep::Call(SetupCall::Disconnect));
        assert_eq!(s.state(), SessionState::Closing);
        assert_eq!(
            s.advance(true),
            SetupStep::Failed(Error::ChannelSetup(SetupStage::OpenSession))
        );
        assert_eq!(s.state(), SessionState::Closed);
    }
}

#[test]
fn strict_pty_refusal_tears_down() {
    let mut s = setup(true);
    s.advance(true);
    assert_eq!(s.advance(false), SetupStep::Call(SetupCall::CloseChannel));
    assert_eq!(s.state(), SessionState::Closing);
    assert_eq!(s.advance(false), SetupStep::Call(SetupCall::Disconnect));
    assert_eq!(s.advance(false), SetupStep::Failed(Error::ChannelSetup(SetupStage::RequestPty)));
    assert_eq!(s.state(), SessionState::Closed);
    assert_eq!(s.advance(true), SetupStep::Failed(Error::ChannelSetup(SetupStage::RequestPty)));
}

#[test]
fn strict_env_refusal_tears_down() {
    let mut s = setup(true);
    s.advance(true);
    s.advance(true);
    assert_eq!(s.advance(false), SetupStep::Call(SetupCall::CloseChannel));
    assert_eq!(s.advance(true), SetupStep::Call(SetupCall::Disconnect));
    assert_eq!(s.advance(true), SetupStep::Failed(Error::ChannelSetup(SetupStage::SetEnv)));

    let mut s = setup(true);
    s.advance(true);
    s.advance(true);
    s.advance(true);
    assert_eq!(s.advance(false), SetupStep::Call(SetupCall::CloseChannel));
    s.advance(true);
    assert_eq!(s.advance(true), SetupStep::Failed(Error::ChannelSetup(SetupStage::SetEnv)));
}

#[test]
fn shell_refusal_is_fatal_under_either_policy() {
    for strict in [true, false] {
        let mut s = setup(strict);
        for _ in 0..4 {
            s.advance(true);
        }
        assert_eq!(s.step(), SetupStep::Call(SetupCall::RequestShell));
        assert_eq!(s.advance(false), SetupStep::Call(SetupCall::CloseChannel));
        assert_eq!(s.advance(true), SetupStep::Call(SetupCall::Disconnect));
        assert_eq!(
            s.advance(true),
            SetupStep::Failed(Error::ChannelSetup(SetupStage::RequestShell))
        );
    }
}

#[test]
fn lenient_passes_over_pty_and_env_refusals() {
    let mut s = setup(false);
    s.advance(true);
    assert_eq!(s.advance(false), SetupStep::Call(SetupCall::SetEnv(EnvVar::Term)));
    assert_eq!(s.advance(false), SetupStep::Call(SetupCall::SetEnv(EnvVar::ColorTerm)));
    assert_eq!(s.advance(false), SetupStep::Call(SetupCall::RequestShell));
    assert_eq!(s.state(), SessionState::Active);
    assert_eq!(s.advance(true), SetupStep::Ready);
}
