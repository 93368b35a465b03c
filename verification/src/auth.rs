//! The authenticator: which request comes next while a session connects and
//! tries the identities of the key agent, and how the attempt ends.
//!
//! The requests themselves (to the agent, to the remote host) are made by the
//! caller. After each one the caller reports what came back with
//! [`Authenticator::advance`] and is told what to do next.

use vstd::prelude::*;
use vstd::string::*;
use crate::error::Error;
use crate::session::SessionState;

verus! {

/// The name of the environment variable that overrides the user name.
pub fn username_variable() -> (name: &'static str)
    ensures
        name@ == "SSH_USERNAME"@,
{
    "SSH_USERNAME"
}

/// The user name to authenticate as: the override where there is one, else
/// the login name that the operating system reports.
pub open spec fn resolve_username_spec(
    override_name: Option<Seq<char>>,
    login_name: Seq<char>,
) -> Seq<char> {
    match override_name {
        Some(name) => name,
        None => login_name,
    }
}

/// Resolves the user name to authenticate as.
pub fn resolve_username(override_name: Option<String>, login_name: String) -> (name: String)
    ensures
        name@ == resolve_username_spec(
            match override_name {
                Some(n) => Some(n@),
                None => None,
            },
            login_name@,
        ),
{
    match override_name {
        Some(name) => name,
        None => login_name,
    }
}

/// How the key that a server presents is judged.
#[derive(Clone, Copy, Debug, PartialEq, Eq, Structural)]
pub enum HostKeyPolicy {
    /// Every key is trusted: the server is not verified at all.
    AcceptAny,
}

impl HostKeyPolicy {
    /// Whether the policy trusts a server that presents `key`.
    pub open spec fn trusts(self, key: Seq<u8>) -> bool {
        match self {
            HostKeyPolicy::AcceptAny => true,
        }
    }

    /// Judges the key that a server presents.
    pub fn verify_host_key(&self, key: &[u8]) -> (trusted: bool)
        ensures
            trusted == self.trusts(key@),
    {
        match self {
            HostKeyPolicy::AcceptAny => true,
        }
    }
}

/// A request that the authenticator asks its caller to make.
#[derive(Clone, Copy, Debug, PartialEq, Eq, Structural)]
pub enum AuthCall {
    /// Connect to the key agent announced by the environment.
    ConnectAgent,
    /// Ask the agent for the list of its identities.
    RequestIdentities,
    /// Establish the secure transport to the remote address.
    ConnectTransport,
    /// Try to authenticate with the identity at this position of the list.
    TryIdentity(usize),
}

/// What the caller has to do next.
#[derive(Clone, Copy, Debug, PartialEq, Eq, Structural)]
pub enum AuthStep {
    /// Make this request and report what came back.
    Call(AuthCall),
    /// The identity at this position was accepted: the session is active.
    Authenticated(usize),
    /// The session cannot be started.
    Failed(Error),
}

/// What came back from the request that was asked for last.
#[derive(Clone, Copy, Debug, PartialEq, Eq, Structural)]
pub enum AuthReply {
    /// The agent or the transport is connected.
    Connected,
    /// The agent lists this many identities.
    Identities(usize),
    /// The remote accepted the identity.
    Accepted,
    /// The remote rejected the identity.
    Rejected,
    /// The request failed with an error.
    Failed,
}

/// Whether `reply` is an answer that the request `call` can have.
pub open spec fn answers(call: AuthCall, reply: AuthReply) -> bool {
    match (call, reply) {
        (_, AuthReply::Failed) => true,
        (AuthCall::ConnectAgent, AuthReply::Connected) => true,
        (AuthCall::RequestIdentities, AuthReply::Identities(_)) => true,
        (AuthCall::ConnectTransport, AuthReply::Connected) => true,
        (AuthCall::TryIdentity(_), AuthReply::Accepted) => true,
        (AuthCall::TryIdentity(_), AuthReply::Rejected) => true,
        _ => false,
    }
}

/// What an [`Authenticator`] stands for: the step it is at, and what it has
/// learnt and done so far.
pub struct AuthView {
    /// What the caller has to do next.
    pub step: AuthStep,
    /// How many identities the agent listed; 0 until it has answered.
    pub identities: nat,
    /// How many identities have been tried and not accepted.
    pub refused: nat,
}

/// The step after `reply`, for an authenticator that has asked for `call` and
/// knows of `identities` identities.
///
/// A failure of the agent makes it unavailable, an empty list of identities
/// ends the attempt before any transport is opened, and an identity that is
/// rejected, or whose attempt fails, gives way to the next one until the list
/// is exhausted.
pub open spec fn step_after(call: AuthCall, identities: nat, reply: AuthReply) -> AuthStep {
    match call {
        AuthCall::ConnectAgent => match reply {
            AuthReply::Connected => AuthStep::Call(AuthCall::RequestIdentities),
            _ => AuthStep::Failed(Error::AgentUnavailable),
        },
        AuthCall::RequestIdentities => match reply {
            AuthReply::Identities(count) => if count == 0 {
                AuthStep::Failed(Error::NoIdentities)
            } else {
                AuthStep::Call(AuthCall::ConnectTransport)
            },
            _ => AuthStep::Failed(Error::AgentUnavailable),
        },
        AuthCall::ConnectTransport => match reply {
            AuthReply::Connected => AuthStep::Call(AuthCall::TryIdentity(0)),
            _ => AuthStep::Failed(Error::Transport),
        },
        AuthCall::TryIdentity(index) => match reply {
            AuthReply::Accepted => AuthStep::Authenticated(index),
            _ => if index + 1 < identities {
                AuthStep::Call(AuthCall::TryIdentity((index + 1) as usize))
            } else {
                AuthStep::Failed(Error::AuthExhausted)
            },
        },
    }
}

/// The authenticator after `reply`. A reply that answers no pending request
/// changes nothing.
pub open spec fn advanced(auth: AuthView, reply: AuthReply) -> AuthView {
    match auth.step {
        AuthStep::Call(call) => if answers(call, reply) {
            AuthView {
                step: step_after(call, auth.identities, reply),
                identities: match (call, reply) {
                    (AuthCall::RequestIdentities, AuthReply::Identities(count)) => count as nat,
                    _ => auth.identities,
                },
                refused: match (call, reply) {
                    (AuthCall::TryIdentity(_), AuthReply::Rejected) => auth.refused + 1,
                    (AuthCall::TryIdentity(_), AuthReply::Failed) => auth.refused + 1,
                    _ => auth.refused,
                },
            }
        } else {
            auth
        },
        _ => auth,
    }
}

/// Where the session stands at a step of the authentication.
pub open spec fn state_at(step: AuthStep) -> SessionState {
    match step {
        AuthStep::Call(AuthCall::TryIdentity(_)) => SessionState::Authenticating,
        AuthStep::Call(_) => SessionState::Connecting,
        AuthStep::Authenticated(_) => SessionState::Active,
        AuthStep::Failed(_) => SessionState::Closed,
    }
}

/// What holds of an authenticator at every moment: an identity that is tried
/// or accepted is one of the list, every identity before it was refused, and
/// a failure by exhaustion comes after every identity was refused.
pub open spec fn consistent(auth: AuthView) -> bool {
    match auth.step {
        AuthStep::Call(AuthCall::TryIdentity(index)) => index < auth.identities && auth.refused
            == index,
        AuthStep::Call(AuthCall::ConnectTransport) => auth.identities > 0 && auth.refused == 0,
        AuthStep::Call(_) => auth.identities == 0 && auth.refused == 0,
        AuthStep::Authenticated(index) => index < auth.identities && auth.refused == index,
        AuthStep::Failed(Error::AuthExhausted) => auth.identities > 0 && auth.refused
            == auth.identities,
        AuthStep::Failed(_) => auth.refused == 0,
    }
}

/// The decisions of one authentication.
pub struct Authenticator {
    step: AuthStep,
    identities: usize,
    refused: usize,
}

impl View for Authenticator {
    type V = AuthView;

    closed spec fn view(&self) -> AuthView {
        AuthView {
            step: self.step,
            identities: self.identities as nat,
            refused: self.refused as nat,
        }
    }
}

impl Authenticator {
    #[verifier::type_invariant]
    spec fn well_formed(&self) -> bool {
        consistent(self@)
    }

    /// An authenticator at its start: the first request is to the key agent.
    pub fn new() -> (auth: Authenticator)
        ensures
            auth@ == (AuthView { step: AuthStep::Call(AuthCall::ConnectAgent), identities: 0, refused: 0 }),
    {
        Authenticator { step: AuthStep::Call(AuthCall::ConnectAgent), identities: 0, refused: 0 }
    }

    /// What the caller has to do next.
    pub fn step(&self) -> (step: AuthStep)
        ensures
            step == self@.step,
            consistent(self@),
    {
        proof {
            use_type_invariant(self);
        }
        self.step
    }

    /// Where the session stands.
    pub fn state(&self) -> (state: SessionState)
        ensures
            state == state_at(self@.step),
    {
        match self.step {
            AuthStep::Call(AuthCall::TryIdentity(_)) => SessionState::Authenticating,
            AuthStep::Call(_) => SessionState::Connecting,
            AuthStep::Authenticated(_) => SessionState::Active,
            AuthStep::Failed(_) => SessionState::Closed,
        }
    }

    /// How many identities the agent listed; 0 until it has answered.
    pub fn identities(&self) -> (count: usize)
        ensures
            count == self@.identities,
    {
        self.identities
    }

    /// How many identities have been tried and not accepted.
    pub fn refused(&self) -> (count: usize)
        ensures
            count == self@.refused,
    {
        self.refused
    }

    /// Takes the answer to the pending request and returns the next step.
    ///
    /// A reply that answers no pending request is ignored: the step stays as
    /// it was. Once the authentication has ended, in success or in failure,
    /// every reply is ignored.
    pub fn advance(&mut self, reply: AuthReply) -> (step: AuthStep)
        ensures
            final(self)@ == advanced(old(self)@, reply),
            step == final(self)@.step,
            consistent(final(self)@),
            state_at(old(self)@.step).reaches(state_at(step)),
    {
        proof {
            use_type_invariant(&*self);
        }
        let mut identities = self.identities;
        let mut refused = self.refused;
        let next = match self.step {
            AuthStep::Call(AuthCall::ConnectAgent) => match reply {
                AuthReply::Connected => AuthStep::Call(AuthCall::RequestIdentities),
                AuthReply::Failed => AuthStep::Failed(Error::AgentUnavailable),
                _ => self.step,
            },
            AuthStep::Call(AuthCall::RequestIdentities) => match reply {
                AuthReply::Identities(count) => {
                    if count == 0 {
                        AuthStep::Failed(Error::NoIdentities)
                    } else {
                        identities = count;
                        AuthStep::Call(AuthCall::ConnectTransport)
                    }
                },
                AuthReply::Failed => AuthStep::Failed(Error::AgentUnavailable),
                _ => self.step,
            },
            AuthStep::Call(AuthCall::ConnectTransport) => match reply {
                AuthReply::Connected => AuthStep::Call(AuthCall::TryIdentity(0)),
                AuthReply::Failed => AuthStep::Failed(Error::Transport),
                _ => self.step,
            },
            AuthStep::Call(AuthCall::TryIdentity(index)) => match reply {
                AuthReply::Accepted => AuthStep::Authenticated(index),
                AuthReply::Rejected | AuthReply::Failed => {
                    refused = index + 1;
                    if index + 1 < identities {
                        AuthStep::Call(AuthCall::TryIdentity(index + 1))
                    } else {
                        AuthStep::Failed(Error::AuthExhausted)
                    }
                },
                _ => self.step,
            },
            _ => self.step,
        };
        *self = Authenticator { step: next, identities, refused };
        next
    }
}

/// The authenticator at its start.
pub open spec fn initial() -> AuthView {
    AuthView { step: AuthStep::Call(AuthCall::ConnectAgent), identities: 0, refused: 0 }
}

/// The authenticator after a sequence of replies, taken one after the other.
pub open spec fn after_replies(auth: AuthView, replies: Seq<AuthReply>) -> AuthView
    decreases replies.len(),
{
    if replies.len() == 0 {
        auth
    } else {
        after_replies(advanced(auth, replies[0]), replies.drop_first())
    }
}

/// Whether a reply is one that refuses an identity: a rejection, or an
/// attempt that failed.
pub open spec fn refuses(reply: AuthReply) -> bool {
    reply == AuthReply::Rejected || reply == AuthReply::Failed
}

/// The replies of a session whose agent lists `count` identities and whose
/// remote then answers the attempts with `outcomes`.
pub open spec fn replies_with(count: usize, outcomes: Seq<AuthReply>) -> Seq<AuthReply> {
    seq![AuthReply::Connected, AuthReply::Identities(count), AuthReply::Connected] + outcomes
}

/// While every identity so far was refused and some are left, the next one
/// in the order of the list is tried.
proof fn lemma_refusals(auth: AuthView, outcomes: Seq<AuthReply>)
    requires
        consistent(auth),
        auth.step is Call,
        auth.step->Call_0 is TryIdentity,
        forall|i: int| 0 <= i < outcomes.len() ==> refuses(#[trigger] outcomes[i]),
        auth.refused + outcomes.len() <= auth.identities,
        auth.identities <= usize::MAX,
    ensures
        after_replies(auth, outcomes).identities == auth.identities,
        after_replies(auth, outcomes).refused == auth.refused + outcomes.len(),
        after_replies(auth, outcomes).step == (if auth.refused + outcomes.len() < auth.identities {
            AuthStep::Call(AuthCall::TryIdentity((auth.refused + outcomes.len()) as usize))
        } else {
            AuthStep::Failed(Error::AuthExhausted)
        }),
    decreases outcomes.len(),
{
    if outcomes.len() > 0 {
        let next = advanced(auth, outcomes[0]);
        let rest = outcomes.drop_first();
        assert(refuses(outcomes[0]));
        assert forall|i: int| 0 <= i < rest.len() implies refuses(#[trigger] rest[i]) by {
            assert(rest[i] == outcomes[i + 1]);
        }
        if rest.len() > 0 {
            lemma_refusals(next, rest);
        }
    }
}

/// Authentication is exhausted after exactly as many attempts as the agent
/// has identities. When the agent lists `count` identities and the remote
/// refuses every one of them, the identities are tried one after the other
/// in the order of the list, the attempt after `tried` refusals being that
/// of the identity at position `tried`, and the refusal of the last one ends
/// the session with `AuthExhausted`: no identity was accepted, so no channel
/// is opened.
pub proof fn lemma_exhausted_after_every_identity(
    count: usize,
    outcomes: Seq<AuthReply>,
    tried: int,
)
    requires
        count > 0,
        outcomes.len() == count,
        forall|i: int| 0 <= i < outcomes.len() ==> refuses(#[trigger] outcomes[i]),
        0 <= tried < count,
    ensures
        after_replies(initial(), replies_with(count, outcomes.take(tried))).step == AuthStep::Call(
            AuthCall::TryIdentity(tried as usize),
        ),
        after_replies(initial(), replies_with(count, outcomes)).step == AuthStep::Failed(
            Error::AuthExhausted,
        ),
        after_replies(initial(), replies_with(count, outcomes)).refused == count,
        state_at(after_replies(initial(), replies_with(count, outcomes)).step)
            == SessionState::Closed,
{
    let first = AuthView {
        step: AuthStep::Call(AuthCall::TryIdentity(0)),
        identities: count as nat,
        refused: 0,
    };
    lemma_after_setup(count, outcomes);
    lemma_after_setup(count, outcomes.take(tried));
    lemma_refusals(first, outcomes);
    lemma_refusals(first, outcomes.take(tried));
}

/// The first three replies of a session with identities lead to the attempt
/// of the first identity.
proof fn lemma_after_setup(count: usize, outcomes: Seq<AuthReply>)
    requires
        count > 0,
    ensures
        after_replies(initial(), replies_with(count, outcomes)) == after_replies(
            AuthView {
                step: AuthStep::Call(AuthCall::TryIdentity(0)),
                identities: count as nat,
                refused: 0,
            },
            outcomes,
        ),
{
    let replies = replies_with(count, outcomes);
    let r1 = replies.drop_first();
    let r2 = r1.drop_first();
    let r3 = r2.drop_first();
    assert(r3 =~= outcomes);
    reveal_with_fuel(after_replies, 4);
}

} // verus!
