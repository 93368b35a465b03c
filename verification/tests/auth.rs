use flatline::auth::{
    resolve_username, username_variable, AuthCall, AuthReply, AuthStep, Authenticator,
    HostKeyPolicy,
};
use flatline::channel::ChannelSetup;
use flatline::error::Error;
use flatline::session::SessionState;

fn trying(count: usize) -> Authenticator {
    let mut auth = Authenticator::new();
    auth.advance(AuthReply::Connected);
    auth.advance(AuthReply::Identities(count));
    auth.advance(AuthReply::Connected);
    auth
}

#[test]
fn authenticator_starts_with_the_agent() {
    let auth = Authenticator::new();
    assert_eq!(auth.step(), AuthStep::Call(AuthCall::ConnectAgent));
    assert_eq!(auth.state(), SessionState::Connecting);
    assert_eq!(auth.identities(), 0);
    assert_eq!(auth.refused(), 0);
}

#[test]
fn agent_that_cannot_be_reached_is_fatal() {
    let mut auth = Authenticator::new();
    assert_eq!(auth.advance(AuthReply::Failed), AuthStep::Failed(Error::AgentUnavailable));
    assert_eq!(auth.state(), SessionState::Closed);
}

#[test]
fn agent_that_does_not_list_is_unavailable() {
    let mut auth = Authenticator::new();
    assert_eq!(auth.advance(AuthReply::Connected), AuthStep::Call(AuthCall::RequestIdentities));
    assert_eq!(auth.advance(AuthReply::Failed), AuthStep::Failed(Error::AgentUnavailable));
}

#[test]
fn empty_identity_list_is_fatal() {
    let mut auth = Authenticator::new();
    auth.advance(AuthReply::Connected);
    assert_eq!(auth.advance(AuthReply::Identities(0)), AuthStep::Failed(Error::NoIdentities));
    assert_eq!(auth.state(), SessionState::Closed);
    assert_eq!(auth.identities(), 0);
}

#[test]
fn transport_is_connected_before_any_identity() {
    let mut auth = Authenticator::new();
    auth.advance(AuthReply::Connected);
    assert_eq!(auth.advance(AuthReply::Identities(3)), AuthStep::Call(AuthCall::ConnectTransport));
    assert_eq!(auth.state(), SessionState::Connecting);
    assert_eq!(auth.identities(), 3);
    assert_eq!(auth.advance(AuthReply::Connected), AuthStep::Call(AuthCall::TryIdentity(0)));
    assert_eq!(auth.state(), SessionState::Authenticating);
}

#[test]
fn transport_failure_is_fatal() {
    let mut auth = Authenticator::new();
    auth.advance(AuthReply::Connected);
    auth.advance(AuthReply::Identities(3));
    assert_eq!(auth.advance(AuthReply::Failed), AuthStep::Failed(Error::Transport));
    assert_eq!(auth.state(), SessionState::Closed);
}

#[test]
fn first_accepted_identity_stops_the_search() {
    let mut auth = trying(3);
    assert_eq!(auth.advance(AuthReply::Rejected), AuthStep::Call(AuthCall::TryIdentity(1)));
    assert_eq!(auth.advance(AuthReply::Accepted), AuthStep::Authenticated(1));
    assert_eq!(auth.state(), SessionState::Active);
    assert_eq!(auth.refused(), 1);
    assert_eq!(auth.advance(AuthReply::Rejected), AuthStep::Authenticated(1));
    assert_eq!(auth.advance(AuthReply::Accepted), AuthStep::Authenticated(1));
    assert_eq!(auth.refused(), 1);
}

#[test]
fn attempt_error_counts_as_rejection() {
    let mut auth = trying(2);
    assert_eq!(auth.advance(AuthReply::Failed), AuthStep::Call(AuthCall::TryIdentity(1)));
    assert_eq!(auth.advance(AuthReply::Accepted), AuthStep::Authenticated(1));
}

#[test]
fn exhaustion_after_exactly_k_attempts() {
    for count in 1..6usize {
        let mut auth = trying(count);
        let mut attempts = 0;
        loop {
            match auth.step() {
                AuthStep::Call(AuthCall::TryIdentity(index)) => {
                    assert_eq!(index, attempts);
                    attempts += 1;
                    auth.advance(AuthReply::Rejected);
                }
                other => {
                    assert_eq!(other, AuthStep::Failed(Error::AuthExhausted));
                    break;
                }
            }
        }
        assert_eq!(attempts, count);
        assert_eq!(auth.refused(), count);
        assert_eq!(auth.state(), SessionState::Closed);
        assert!(ChannelSetup::begin(&auth, true).is_none());
        assert!(ChannelSetup::begin(&auth, false).is_none());
    }
}

#[test]
fn exhaustion_with_errors_and_rejections_mixed() {
    let mut auth = trying(3);
    assert_eq!(auth.advance(AuthReply::Failed), AuthStep::Call(AuthCall::TryIdentity(1)));
    assert_eq!(auth.advance(AuthReply::Rejected), AuthStep::Call(AuthCall::TryIdentity(2)));
    assert_eq!(auth.advance(AuthReply::Failed), AuthStep::Failed(Error::AuthExhausted));
    assert_eq!(auth.advance(AuthReply::Accepted), AuthStep::Failed(Error::AuthExhausted));
}

#[test]
fn replies_that_answer_nothing_are_ignored() {
    let mut auth = Authenticator::new();
    assert_eq!(auth.advance(AuthReply::Accepted), AuthStep::Call(AuthCall::ConnectAgent));
    assert_eq!(auth.advance(AuthReply::Rejected), AuthStep::Call(AuthCall::ConnectAgent));
    assert_eq!(auth.advance(AuthReply::Identities(4)), AuthStep::Call(AuthCall::ConnectAgent));
    assert_eq!(auth.identities(), 0);
    auth.advance(AuthReply::Connected);
    assert_eq!(auth.advance(AuthReply::Connected), AuthStep::Call(AuthCall::RequestIdentities));
    let mut auth = trying(2);
    assert_eq!(auth.advance(AuthReply::Connected), AuthStep::Call(AuthCall::TryIdentity(0)));
    assert_eq!(auth.advance(AuthReply::Identities(9)), AuthStep::Call(AuthCall::TryIdentity(0)));
    assert_eq!(auth.identities(), 2);
    assert_eq!(auth.refused(), 0);
}

#[test]
fn no_channel_before_authentication() {
    let mut auth = Authenticator::new();
    assert!(ChannelSetup::begin(&auth, true).is_none());
    auth.advance(AuthReply::Connected);
    assert!(ChannelSetup::begin(&auth, true).is_none());
    auth.advance(AuthReply::Identities(1));
    assert!(ChannelSetup::begin(&auth, true).is_none());
    auth.advance(AuthReply::Connected);
    assert!(ChannelSetup::begin(&auth, true).is_none());
    auth.advance(AuthReply::Accepted);
    assert!(ChannelSetup::begin(&auth, true).is_some());
}

#[test]
fn username_override_wins() {
    let name = resolve_username(Some(String::from("alice")), String::from("bob"));
    assert_eq!(name, "alice");
}

#[test]
fn username_falls_back_to_login_name() {
    assert_eq!(resolve_username(None, String::from("bob")), "bob");
}

#[test]
fn empty_username_override_is_still_an_override() {
    assert_eq!(resolve_username(Some(String::new()), String::from("bob")), "");
}

#[test]
fn username_variable_name() {
    assert_eq!(username_variable(), "SSH_USERNAME");
}

#[test]
fn any_host_key_is_trusted() {
    assert!(HostKeyPolicy::AcceptAny.verify_host_key(&[]));
    assert!(HostKeyPolicy::AcceptAny.verify_host_key(&[1, 2, 3]));
}
