//! The life cycle of one session.

use vstd::prelude::*;

verus! {

/// Where a session stands between its start and its end.
///
/// A session starts in `Connecting` and only ever moves forward:
/// `Connecting -> Authenticating -> Active -> Closing -> Closed`, with the two
/// short cuts `Connecting -> Closed` and `Authenticating -> Closed` for a
/// session that fails before it becomes active.
#[derive(Clone, Copy, Debug, PartialEq, Eq, Structural)]
pub enum SessionState {
    /// The key agent is being asked and the transport is being established.
    Connecting,
    /// The transport stands; identities are being tried.
    Authenticating,
    /// An identity was accepted; the channel is set up and bytes are relayed.
    Active,
    /// A shutdown was triggered; the transport is being disconnected.
    Closing,
    /// The session is over. No further I/O is performed.
    Closed,
}

impl SessionState {
    /// The position of a state in the life cycle.
    pub open spec fn rank(self) -> nat {
        match self {
            SessionState::Connecting => 0,
            SessionState::Authenticating => 1,
            SessionState::Active => 2,
            SessionState::Closing => 3,
            SessionState::Closed => 4,
        }
    }

    /// Whether the life cycle has a transition from `self` to `next`.
    pub open spec fn steps_to(self, next: SessionState) -> bool {
        match (self, next) {
            (SessionState::Connecting, SessionState::Authenticating) => true,
            (SessionState::Connecting, SessionState::Closed) => true,
            (SessionState::Authenticating, SessionState::Active) => true,
            (SessionState::Authenticating, SessionState::Closed) => true,
            (SessionState::Active, SessionState::Closing) => true,
            (SessionState::Closing, SessionState::Closed) => true,
            _ => false,
        }
    }

    /// Whether a session in state `self` can be in state `later` after zero
    /// or more transitions.
    pub open spec fn reaches(self, later: SessionState) -> bool {
        self.rank() <= later.rank()
    }

    /// Whether the session is over.
    pub fn is_closed(&self) -> (closed: bool)
        ensures
            closed == (*self == SessionState::Closed),
    {
        match self {
            SessionState::Closed => true,
            _ => false,
        }
    }

    /// Whether bytes are relayed in this state.
    pub fn is_active(&self) -> (active: bool)
        ensures
            active == (*self == SessionState::Active),
    {
        match self {
            SessionState::Active => true,
            _ => false,
        }
    }
}

/// `Closed` is terminal: the life cycle has no transition out of it.
pub proof fn lemma_closed_is_terminal(next: SessionState)
    ensures
        !SessionState::Closed.steps_to(next),
{
}

/// Every transition moves forward, so no state is ever entered twice.
pub proof fn lemma_step_moves_forward(from: SessionState, to: SessionState)
    requires
        from.steps_to(to),
    ensures
        from.rank() < to.rank(),
{
}

/// `reaches` is the reflexive and transitive closure of `steps_to`: a state
/// reaches another exactly if they are equal or a transition leads to a state
/// that reaches it.
pub proof fn lemma_reaches_is_closure(from: SessionState, to: SessionState)
    ensures
        from.reaches(to) <==> (from == to || exists|mid: SessionState|
            from.steps_to(mid) && #[trigger] mid.reaches(to)),
{
    if from.reaches(to) && from != to {
        let mid = match from {
            SessionState::Connecting => if to == SessionState::Closed {
                SessionState::Closed
            } else {
                SessionState::Authenticating
            },
            SessionState::Authenticating => if to == SessionState::Closed {
                SessionState::Closed
            } else {
                SessionState::Active
            },
            SessionState::Active => SessionState::Closing,
            _ => SessionState::Closed,
        };
        assert(from.steps_to(mid) && mid.reaches(to));
    }
}

} // verus!
