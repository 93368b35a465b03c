//! The setup of the remote channel: the requests that turn an authenticated
//! transport into an interactive shell, and what a refusal means.
//!
//! The caller makes each request and reports with [`ChannelSetup::advance`]
//! whether it succeeded. Whether a refused pseudo-terminal or environment
//! request ends the session is a policy that the caller chooses at the start.

use vstd::prelude::*;
use vstd::string::*;
use crate::auth::{AuthStep, Authenticator};
use crate::error::{Error, SetupStage};
use crate::session::SessionState;

verus! {

/// The terminal type that is advertised to the remote.
pub fn terminal_type() -> (name: &'static str)
    ensures
        name@ == "xterm-256color"@,
{
    "xterm-256color"
}

/// The number of columns and of rows that the pseudo-terminal request
/// carries. The first resize of the display corrects it.
pub const INITIAL_DIMENSION: u32 = 0;

/// An environment variable that is forwarded to the remote shell.
#[derive(Clone, Copy, Debug, PartialEq, Eq, Structural)]
pub enum EnvVar {
    /// `TERM`, the terminal type.
    Term,
    /// `COLORTERM`, the colour depth.
    ColorTerm,
}

impl EnvVar {
    /// The name of the variable.
    pub open spec fn name_spec(self) -> Seq<char> {
        match self {
            EnvVar::Term => "TERM"@,
            EnvVar::ColorTerm => "COLORTERM"@,
        }
    }

    /// The value that the variable is set to.
    pub open spec fn value_spec(self) -> Seq<char> {
        match self {
            EnvVar::Term => "xterm-256color"@,
            EnvVar::ColorTerm => "truecolor"@,
        }
    }

    /// The name of the variable.
    pub fn name(&self) -> (name: &'static str)
        ensures
            name@ == self.name_spec(),
    {
        match self {
            EnvVar::Term => "TERM",
            EnvVar::ColorTerm => "COLORTERM",
        }
    }

    /// The value that the variable is set to.
    pub fn value(&self) -> (value: &'static str)
        ensures
            value@ == self.value_spec(),
    {
        match self {
            EnvVar::Term => "xterm-256color",
            EnvVar::ColorTerm => "truecolor",
        }
    }
}

/// A request that the setup asks its caller to make.
#[derive(Clone, Copy, Debug, PartialEq, Eq, Structural)]
pub enum SetupCall {
    /// Open one session channel on the transport.
    OpenSession,
    /// Ask for a remote pseudo-terminal of type [`terminal_type`] with
    /// [`INITIAL_DIMENSION`] columns and rows.
    RequestPty,
    /// Set this variable in the environment of the remote shell.
    SetEnv(EnvVar),
    /// Ask for an interactive shell on the channel.
    RequestShell,
    /// Close the channel: the setup has failed.
    CloseChannel,
    /// Disconnect the transport: the setup has failed.
    Disconnect,
}

/// What the caller has to do next.
#[derive(Clone, Copy, Debug, PartialEq, Eq, Structural)]
pub enum SetupStep {
    /// Make this request and report whether it succeeded.
    Call(SetupCall),
    /// The shell runs: the relay can start.
    Ready,
    /// The setup has failed and the transport is disconnected.
    Failed(Error),
}

/// What a [`ChannelSetup`] stands for.
pub struct SetupView {
    /// What the caller has to do next.
    pub step: SetupStep,
    /// Whether every refusal is fatal.
    pub strict: bool,
    /// The request whose refusal made the setup fail, if one did.
    pub refused: Option<SetupStage>,
}

/// The part of the setup that a request belongs to. The two requests of the
/// teardown belong to none.
pub open spec fn stage_of(call: SetupCall) -> Option<SetupStage> {
    match call {
        SetupCall::OpenSession => Some(SetupStage::OpenSession),
        SetupCall::RequestPty => Some(SetupStage::RequestPty),
        SetupCall::SetEnv(_) => Some(SetupStage::SetEnv),
        SetupCall::RequestShell => Some(SetupStage::RequestShell),
        SetupCall::CloseChannel => None,
        SetupCall::Disconnect => None,
    }
}

/// Whether the setup goes on when this request is refused: under the lenient
/// policy a refused pseudo-terminal or environment request is passed over.
/// A channel that cannot be opened and a shell that cannot be started are
/// fatal under either policy.
pub open spec fn tolerated(strict: bool, call: SetupCall) -> bool {
    !strict && (call is RequestPty || call is SetEnv)
}

/// The step that follows a request that succeeded or was passed over. After
/// the last request of the setup the shell runs; the teardown ends with the
/// disconnect.
pub open spec fn step_beyond(call: SetupCall) -> SetupStep {
    match call {
        SetupCall::OpenSession => SetupStep::Call(SetupCall::RequestPty),
        SetupCall::RequestPty => SetupStep::Call(SetupCall::SetEnv(EnvVar::Term)),
        SetupCall::SetEnv(EnvVar::Term) => SetupStep::Call(SetupCall::SetEnv(EnvVar::ColorTerm)),
        SetupCall::SetEnv(EnvVar::ColorTerm) => SetupStep::Call(SetupCall::RequestShell),
        SetupCall::RequestShell => SetupStep::Ready,
        SetupCall::CloseChannel => SetupStep::Call(SetupCall::Disconnect),
        SetupCall::Disconnect => SetupStep::Call(SetupCall::Disconnect),
    }
}

/// The setup after the caller has reported whether the pending request
/// succeeded.
///
/// A request of the setup that succeeds, or whose refusal is tolerated, gives
/// way to the next one. Any other refusal starts the teardown: the channel is
/// closed if it was opened, then the transport is disconnected, and the setup
/// ends with the error of the request that was refused (a teardown always
/// has one on record, see [`coherent`]). The teardown goes on whatever its own
/// requests report.
pub open spec fn setup_advanced(setup: SetupView, succeeded: bool) -> SetupView {
    match setup.step {
        SetupStep::Call(SetupCall::CloseChannel) => SetupView {
            step: SetupStep::Call(SetupCall::Disconnect),
            ..setup
        },
        SetupStep::Call(SetupCall::Disconnect) => SetupView {
            step: SetupStep::Failed(
                Error::ChannelSetup(
                    match setup.refused {
                        Some(stage) => stage,
                        None => SetupStage::OpenSession,
                    },
                ),
            ),
            ..setup
        },
        SetupStep::Call(call) => if succeeded || tolerated(setup.strict, call) {
            SetupView { step: step_beyond(call), ..setup }
        } else {
            SetupView {
                step: SetupStep::Call(
                    if call is OpenSession {
                        SetupCall::Disconnect
                    } else {
                        SetupCall::CloseChannel
                    },
                ),
                refused: stage_of(call),
                ..setup
            }
        },
        _ => setup,
    }
}

/// Where the session stands at a step of the setup.
pub open spec fn setup_state(step: SetupStep) -> SessionState {
    match step {
        SetupStep::Call(SetupCall::CloseChannel) => SessionState::Closing,
        SetupStep::Call(SetupCall::Disconnect) => SessionState::Closing,
        SetupStep::Call(_) => SessionState::Active,
        SetupStep::Ready => SessionState::Active,
        SetupStep::Failed(_) => SessionState::Closed,
    }
}

/// What holds of a setup at every moment: a refusal is on record exactly
/// from the start of the teardown on, and the error at the end is that of
/// the refused request.
pub open spec fn coherent(setup: SetupView) -> bool {
    match setup.step {
        SetupStep::Call(SetupCall::CloseChannel) => setup.refused.is_some() && setup.refused
            != Some(SetupStage::OpenSession),
        SetupStep::Call(SetupCall::Disconnect) => setup.refused.is_some(),
        SetupStep::Call(_) => setup.refused.is_none(),
        SetupStep::Ready => setup.refused.is_none(),
        SetupStep::Failed(error) => setup.refused.is_some() && error == Error::ChannelSetup(
            setup.refused.unwrap(),
        ),
    }
}

/// The decisions of one channel setup.
pub struct ChannelSetup {
    step: SetupStep,
    strict: bool,
    refused: Option<SetupStage>,
}

impl View for ChannelSetup {
    type V = SetupView;

    closed spec fn view(&self) -> SetupView {
        SetupView { step: self.step, strict: self.strict, refused: self.refused }
    }
}

impl ChannelSetup {
    #[verifier::type_invariant]
    spec fn well_formed(&self) -> bool {
        coherent(self@)
    }

    /// The setup of the channel of an authenticated session: the first
    /// request opens the channel. There is none for a session that is not
    /// authenticated, so no channel is ever opened for it.
    ///
    /// With `strict` every refused request ends the session; without it a
    /// refused pseudo-terminal or environment request is passed over.
    pub fn begin(auth: &Authenticator, strict: bool) -> (setup: Option<ChannelSetup>)
        ensures
            setup.is_some() <==> auth@.step is Authenticated,
            setup matches Some(s) ==> s@ == (SetupView {
                step: SetupStep::Call(SetupCall::OpenSession),
                strict,
                refused: None,
            }),
    {
        match auth.step() {
            AuthStep::Authenticated(_) => Some(
                ChannelSetup {
                    step: SetupStep::Call(SetupCall::OpenSession),
                    strict,
                    refused: None,
                },
            ),
            _ => None,
        }
    }

    /// What the caller has to do next.
    pub fn step(&self) -> (step: SetupStep)
        ensures
            step == self@.step,
            coherent(self@),
    {
        proof {
            use_type_invariant(self);
        }
        self.step
    }

    /// Whether every refusal is fatal.
    pub fn is_strict(&self) -> (strict: bool)
        ensures
            strict == self@.strict,
    {
        self.strict
    }

    /// Where the session stands.
    pub fn state(&self) -> (state: SessionState)
        ensures
            state == setup_state(self@.step),
    {
        match self.step {
            SetupStep::Call(SetupCall::CloseChannel) => SessionState::Closing,
            SetupStep::Call(SetupCall::Disconnect) => SessionState::Closing,
            SetupStep::Call(_) => SessionState::Active,
            SetupStep::Ready => SessionState::Active,
            SetupStep::Failed(_) => SessionState::Closed,
        }
    }

    /// Takes the outcome of the pending request and returns the next step.
    /// Once the setup has ended every report is ignored.
    pub fn advance(&mut self, succeeded: bool) -> (step: SetupStep)
        ensures
            final(self)@ == setup_advanced(old(self)@, succeeded),
            step == final(self)@.step,
            coherent(final(self)@),
            setup_state(old(self)@.step).reaches(setup_state(step)),
    {
        proof {
            use_type_invariant(&*self);
        }
        let mut refused = self.refused;
        let next = match self.step {
            SetupStep::Call(SetupCall::CloseChannel) => SetupStep::Call(SetupCall::Disconnect),
            SetupStep::Call(SetupCall::Disconnect) => match refused {
                Some(stage) => SetupStep::Failed(Error::ChannelSetup(stage)),
                None => SetupStep::Failed(Error::ChannelSetup(SetupStage::OpenSession)),
            },
            SetupStep::Call(call) => {
                let lenient = !self.strict && match call {
                    SetupCall::RequestPty => true,
                    SetupCall::SetEnv(_) => true,
                    _ => false,
                };
                if succeeded || lenient {
                    match call {
                        SetupCall::OpenSession => SetupStep::Call(SetupCall::RequestPty),
                        SetupCall::RequestPty => SetupStep::Call(SetupCall::SetEnv(EnvVar::Term)),
                        SetupCall::SetEnv(EnvVar::Term) => SetupStep::Call(
                            SetupCall::SetEnv(EnvVar::ColorTerm),
                        ),
                        SetupCall::SetEnv(EnvVar::ColorTerm) => SetupStep::Call(
                            SetupCall::RequestShell,
                        ),
                        _ => SetupStep::Ready,
                    }
                } else {
                    match call {
                        SetupCall::OpenSession => {
                            refused = Some(SetupStage::OpenSession);
                            SetupStep::Call(SetupCall::Disconnect)
                        },
                        SetupCall::RequestPty => {
                            refused = Some(SetupStage::RequestPty);
                            SetupStep::Call(SetupCall::CloseChannel)
                        },
                        SetupCall::SetEnv(_) => {
                            refused = Some(SetupStage::SetEnv);
                            SetupStep::Call(SetupCall::CloseChannel)
                        },
                        _ => {
                            refused = Some(SetupStage::RequestShell);
                            SetupStep::Call(SetupCall::CloseChannel)
                        },
                    }
                }
            },
            _ => self.step,
        };
        *self = ChannelSetup { step: next, strict: self.strict, refused };
        next
    }
}

/// The setup after a sequence of reports, taken one after the other.
pub open spec fn after_reports(setup: SetupView, reports: Seq<bool>) -> SetupView
    decreases reports.len(),
{
    if reports.len() == 0 {
        setup
    } else {
        after_reports(setup_advanced(setup, reports[0]), reports.drop_first())
    }
}

/// The setup at its start.
pub open spec fn setup_start(strict: bool) -> SetupView {
    SetupView { step: SetupStep::Call(SetupCall::OpenSession), strict, refused: None }
}

/// A setup whose five requests all succeed makes exactly these requests, in
/// this order, and is then ready: open the channel, ask for the
/// pseudo-terminal, set `TERM`, set `COLORTERM`, ask for the shell.
pub proof fn lemma_setup_order(strict: bool)
    ensures
        after_reports(setup_start(strict), seq![true]).step == SetupStep::Call(
            SetupCall::RequestPty,
        ),
        after_reports(setup_start(strict), seq![true, true]).step == SetupStep::Call(
            SetupCall::SetEnv(EnvVar::Term),
        ),
        after_reports(setup_start(strict), seq![true, true, true]).step == SetupStep::Call(
            SetupCall::SetEnv(EnvVar::ColorTerm),
        ),
        after_reports(setup_start(strict), seq![true, true, true, true]).step == SetupStep::Call(
            SetupCall::RequestShell,
        ),
        after_reports(setup_start(strict), seq![true, true, true, true, true]).step
            == SetupStep::Ready,
{
    reveal_with_fuel(after_reports, 6);
    let s5 = seq![true, true, true, true, true];
    assert(s5.drop_first() =~= seq![true, true, true, true]);
    assert(seq![true, true, true, true].drop_first() =~= seq![true, true, true]);
    assert(seq![true, true, true].drop_first() =~= seq![true, true]);
    assert(seq![true, true].drop_first() =~= seq![true]);
    assert(seq![true].drop_first() =~= Seq::<bool>::empty());
}

/// Under the strict policy there are no partial sessions: the first refused
/// request starts the teardown, whichever request it is.
pub proof fn lemma_strict_refusal_is_fatal(setup: SetupView)
    requires
        coherent(setup),
        setup.strict,
        setup.step is Call,
        stage_of(setup.step->Call_0).is_some(),
    ensures
        setup_state(setup_advanced(setup, false).step) == SessionState::Closing,
        setup_advanced(setup, false).refused == stage_of(setup.step->Call_0),
{
}

} // verus!
