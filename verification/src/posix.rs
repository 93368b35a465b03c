//! What is decided around the operating-system calls: how a return value is
//! read, and the order of the calls that open a pseudo-terminal pair.
//!
//! The calls themselves are made by the caller, who hands over each return
//! value together with the error code that the operating system reported.

use vstd::prelude::*;
use crate::error::Error;

verus! {

/// How the return value of an operating-system call reads: a negative value
/// is a failure and carries the error code, any other value is the result.
pub open spec fn as_result_spec(code: i32, os_error: i32) -> Result<i32, Error> {
    if code < 0 {
        Err(Error::Io(os_error))
    } else {
        Ok(code)
    }
}

/// Reads the return value `code` of an operating-system call; `os_error` is
/// the error code that the system reported for it.
pub fn as_result(code: i32, os_error: i32) -> (result: Result<i32, Error>)
    ensures
        result == as_result_spec(code, os_error),
{
    if code < 0 {
        Err(Error::Io(os_error))
    } else {
        Ok(code)
    }
}

/// How a non-blocking read or write ended.
#[derive(Clone, Copy, Debug, PartialEq, Eq, Structural)]
pub enum IoOutcome {
    /// This many bytes were transferred.
    Done(usize),
    /// Nothing could be transferred without waiting: try again later.
    WouldBlock,
    /// The call failed with this OS error code.
    Failed(i32),
}

/// How the return value of a non-blocking read or write reads. A count is a
/// transfer, whatever else is reported; a failure is transient if the
/// system says that the call would have blocked, and an error otherwise.
pub open spec fn classify_io_spec(count: isize, would_block: bool, os_error: i32) -> IoOutcome {
    if count >= 0 {
        IoOutcome::Done(count as usize)
    } else if would_block {
        IoOutcome::WouldBlock
    } else {
        IoOutcome::Failed(os_error)
    }
}

/// Reads the return value `count` of a non-blocking read or write;
/// `would_block` says whether the error that the system reported is the one
/// for "would block", and `os_error` is its code.
pub fn classify_io(count: isize, would_block: bool, os_error: i32) -> (outcome: IoOutcome)
    ensures
        outcome == classify_io_spec(count, would_block, os_error),
{
    if count >= 0 {
        IoOutcome::Done(count as usize)
    } else if would_block {
        IoOutcome::WouldBlock
    } else {
        IoOutcome::Failed(os_error)
    }
}

/// The two descriptors of an open pseudo-terminal. The master goes to the
/// display; the slave is non-blocking and belongs to the session.
#[derive(Clone, Copy, Debug, PartialEq, Eq, Structural)]
pub struct PtyPair {
    pub master: i32,
    pub slave: i32,
}

/// An operating-system call that the setup asks its caller to make.
#[derive(Clone, Copy, Debug, PartialEq, Eq, Structural)]
pub enum PtyCall {
    /// Open a new pseudo-terminal master for reading and writing; the return
    /// value is its descriptor.
    OpenMaster,
    /// Read the terminal attributes of the master.
    GetAttributes { master: i32 },
    /// Rewrite the attributes just read into raw mode and apply them to the
    /// master at once.
    SetRawAttributes { master: i32 },
    /// Grant access to the slave of the master.
    Grant { master: i32 },
    /// Unlock the slave of the master.
    Unlock { master: i32 },
    /// Ask for the path of the slave; report 0 for a path and a negative
    /// value for none.
    SlaveName { master: i32 },
    /// Open the slave at that path for reading and writing; the return value
    /// is its descriptor.
    OpenSlave { master: i32 },
    /// Read the status flags of the slave; the return value is the flags.
    GetFlags { master: i32, slave: i32 },
    /// Set the status flags of the slave to `flags`.
    SetFlags { master: i32, slave: i32, flags: i32 },
}

/// What the caller has to do next.
#[derive(Clone, Copy, Debug, PartialEq, Eq, Structural)]
pub enum PtyStep {
    /// Make this call and report what it returned.
    Call(PtyCall),
    /// The pair is open and configured.
    Opened(PtyPair),
    /// A call failed. The descriptors that were opened before it are still
    /// open, and it is the caller who closes them.
    Failed { error: Error, master: Option<i32>, slave: Option<i32> },
}

/// The master descriptor that is open when a call is made.
pub open spec fn master_of(call: PtyCall) -> Option<i32> {
    match call {
        PtyCall::OpenMaster => None,
        PtyCall::GetAttributes { master } => Some(master),
        PtyCall::SetRawAttributes { master } => Some(master),
        PtyCall::Grant { master } => Some(master),
        PtyCall::Unlock { master } => Some(master),
        PtyCall::SlaveName { master } => Some(master),
        PtyCall::OpenSlave { master } => Some(master),
        PtyCall::GetFlags { master, slave } => Some(master),
        PtyCall::SetFlags { master, slave, flags } => Some(master),
    }
}

/// The slave descriptor that is open when a call is made.
pub open spec fn slave_of(call: PtyCall) -> Option<i32> {
    match call {
        PtyCall::GetFlags { master, slave } => Some(slave),
        PtyCall::SetFlags { master, slave, flags } => Some(slave),
        _ => None,
    }
}

/// The step after a call that returned `code`, where `os_error` is the error
/// code reported for it and `nonblocking` is the status flag that makes a
/// descriptor non-blocking.
///
/// A negative return value ends the setup with the error of the system. Any
/// other leads to the next call: the master is opened, put into raw mode,
/// granted and unlocked; then the slave is opened and its flags are set to
/// what they were together with `nonblocking`.
pub open spec fn pty_step_after(call: PtyCall, nonblocking: i32, code: i32, os_error: i32) -> PtyStep {
    if code < 0 {
        PtyStep::Failed {
            error: Error::Io(os_error),
            master: master_of(call),
            slave: slave_of(call),
        }
    } else {
        match call {
            PtyCall::OpenMaster => PtyStep::Call(PtyCall::GetAttributes { master: code }),
            PtyCall::GetAttributes { master } => PtyStep::Call(
                PtyCall::SetRawAttributes { master },
            ),
            PtyCall::SetRawAttributes { master } => PtyStep::Call(PtyCall::Grant { master }),
            PtyCall::Grant { master } => PtyStep::Call(PtyCall::Unlock { master }),
            PtyCall::Unlock { master } => PtyStep::Call(PtyCall::SlaveName { master }),
            PtyCall::SlaveName { master } => PtyStep::Call(PtyCall::OpenSlave { master }),
            PtyCall::OpenSlave { master } => PtyStep::Call(
                PtyCall::GetFlags { master, slave: code },
            ),
            PtyCall::GetFlags { master, slave } => PtyStep::Call(
                PtyCall::SetFlags { master, slave, flags: code | nonblocking },
            ),
            PtyCall::SetFlags { master, slave, flags } => PtyStep::Opened(
                PtyPair { master, slave },
            ),
        }
    }
}

/// What a [`PtySetup`] stands for.
pub struct PtySetupView {
    /// What the caller has to do next.
    pub step: PtyStep,
    /// The status flag that makes a descriptor non-blocking.
    pub nonblocking: i32,
}

/// The setup after the pending call returned `code`. Once the setup has
/// ended every report is ignored.
pub open spec fn pty_advanced(setup: PtySetupView, code: i32, os_error: i32) -> PtySetupView {
    match setup.step {
        PtyStep::Call(call) => PtySetupView {
            step: pty_step_after(call, setup.nonblocking, code, os_error),
            ..setup
        },
        _ => setup,
    }
}

/// The decisions of opening one pseudo-terminal pair.
pub struct PtySetup {
    step: PtyStep,
    nonblocking: i32,
}

impl View for PtySetup {
    type V = PtySetupView;

    closed spec fn view(&self) -> PtySetupView {
        PtySetupView { step: self.step, nonblocking: self.nonblocking }
    }
}

impl PtySetup {
    /// A setup at its start: the first call opens the master. `nonblocking`
    /// is the status flag of the platform that makes a descriptor
    /// non-blocking.
    pub fn new(nonblocking: i32) -> (setup: PtySetup)
        ensures
            setup@ == (PtySetupView { step: PtyStep::Call(PtyCall::OpenMaster), nonblocking }),
    {
        PtySetup { step: PtyStep::Call(PtyCall::OpenMaster), nonblocking }
    }

    /// What the caller has to do next.
    pub fn step(&self) -> (step: PtyStep)
        ensures
            step == self@.step,
    {
        self.step
    }

    /// Takes the return value of the pending call, with the error code that
    /// the system reported for it, and gives the next step.
    pub fn advance(&mut self, code: i32, os_error: i32) -> (step: PtyStep)
        ensures
            final(self)@ == pty_advanced(old(self)@, code, os_error),
            step == final(self)@.step,
    {
        let next = match self.step {
            PtyStep::Call(call) => match as_result(code, os_error) {
                Err(error) => PtyStep::Failed {
                    error,
                    master: match call {
                        PtyCall::OpenMaster => None,
                        PtyCall::GetAttributes { master } => Some(master),
                        PtyCall::SetRawAttributes { master } => Some(master),
                        PtyCall::Grant { master } => Some(master),
                        PtyCall::Unlock { master } => Some(master),
                        PtyCall::SlaveName { master } => Some(master),
                        PtyCall::OpenSlave { master } => Some(master),
                        PtyCall::GetFlags { master, slave } => Some(master),
                        PtyCall::SetFlags { master, slave, flags } => Some(master),
                    },
                    slave: match call {
                        PtyCall::GetFlags { master, slave } => Some(slave),
                        PtyCall::SetFlags { master, slave, flags } => Some(slave),
                        _ => None,
                    },
                },
                Ok(value) => match call {
                    PtyCall::OpenMaster => PtyStep::Call(PtyCall::GetAttributes { master: value }),
                    PtyCall::GetAttributes { master } => PtyStep::Call(
                        PtyCall::SetRawAttributes { master },
                    ),
                    PtyCall::SetRawAttributes { master } => PtyStep::Call(
                        PtyCall::Grant { master },
                    ),
                    PtyCall::Grant { master } => PtyStep::Call(PtyCall::Unlock { master }),
                    PtyCall::Unlock { master } => PtyStep::Call(PtyCall::SlaveName { master }),
                    PtyCall::SlaveName { master } => PtyStep::Call(PtyCall::OpenSlave { master }),
                    PtyCall::OpenSlave { master } => PtyStep::Call(
                        PtyCall::GetFlags { master, slave: value },
                    ),
                    PtyCall::GetFlags { master, slave } => PtyStep::Call(
                        PtyCall::SetFlags { master, slave, flags: value | self.nonblocking },
                    ),
                    PtyCall::SetFlags { master, slave, flags } => PtyStep::Opened(
                        PtyPair { master, slave },
                    ),
                },
            },
            _ => self.step,
        };
        self.step = next;
        next
    }
}

/// The setup after a sequence of reports, each a return value with the error
/// code reported for it, taken one after the other.
pub open spec fn after_returns(setup: PtySetupView, reports: Seq<(i32, i32)>) -> PtySetupView
    decreases reports.len(),
{
    if reports.len() == 0 {
        setup
    } else {
        after_returns(pty_advanced(setup, reports[0].0, reports[0].1), reports.drop_first())
    }
}

/// The setup at its start.
pub open spec fn pty_start(nonblocking: i32) -> PtySetupView {
    PtySetupView { step: PtyStep::Call(PtyCall::OpenMaster), nonblocking }
}

/// The call that is pending after `done` calls have succeeded, for a master
/// descriptor `master`, a slave descriptor `slave` and slave flags `flags`.
pub open spec fn call_at(done: int, master: i32, slave: i32, flags: i32) -> PtyCall {
    if done == 0 {
        PtyCall::OpenMaster
    } else if done == 1 {
        PtyCall::GetAttributes { master }
    } else if done == 2 {
        PtyCall::SetRawAttributes { master }
    } else if done == 3 {
        PtyCall::Grant { master }
    } else if done == 4 {
        PtyCall::Unlock { master }
    } else if done == 5 {
        PtyCall::SlaveName { master }
    } else if done == 6 {
        PtyCall::OpenSlave { master }
    } else if done == 7 {
        PtyCall::GetFlags { master, slave }
    } else {
        PtyCall::SetFlags { master, slave, flags }
    }
}

/// The calls are made in one fixed order, and the first failure ends the
/// setup. While every call so far has succeeded, the call that is pending
/// after `done` of them is the one at that place of the order: the master is
/// in raw mode before its slave can be opened, and the flags that are set on
/// the slave are the ones it had together with the non-blocking flag. After
/// nine successes the pair is open; a failure of the pending call gives the
/// error code of that call.
pub proof fn lemma_pty_call_order(nonblocking: i32, reports: Seq<(i32, i32)>)
    requires
        reports.len() <= 9,
        forall|i: int| 0 <= i < reports.len() ==> (#[trigger] reports[i]).0 >= 0,
    ensures
        reports.len() < 9 ==> after_returns(pty_start(nonblocking), reports).step == PtyStep::Call(
            call_at(
                reports.len() as int,
                if reports.len() > 0 {
                    reports[0].0
                } else {
                    0
                },
                if reports.len() > 6 {
                    reports[6].0
                } else {
                    0
                },
                if reports.len() > 7 {
                    reports[7].0 | nonblocking
                } else {
                    0
                },
            ),
        ),
        reports.len() == 9 ==> after_returns(pty_start(nonblocking), reports).step
            == PtyStep::Opened(PtyPair { master: reports[0].0, slave: reports[6].0 }),
        after_returns(pty_start(nonblocking), reports).nonblocking == nonblocking,
{
    lemma_pty_prefix(nonblocking, reports, reports.len() as int);
    assert(reports.take(reports.len() as int) =~= reports);
}

/// The statement of [`lemma_pty_call_order`] for the first `n` reports.
proof fn lemma_pty_prefix(nonblocking: i32, reports: Seq<(i32, i32)>, n: int)
    requires
        reports.len() <= 9,
        0 <= n <= reports.len(),
        forall|i: int| 0 <= i < reports.len() ==> (#[trigger] reports[i]).0 >= 0,
    ensures
        n < 9 ==> after_returns(pty_start(nonblocking), reports.take(n)).step == PtyStep::Call(
            call_at(
                n,
                if n > 0 {
                    reports[0].0
                } else {
                    0
                },
                if n > 6 {
                    reports[6].0
                } else {
                    0
                },
                if n > 7 {
                    reports[7].0 | nonblocking
                } else {
                    0
                },
            ),
        ),
        n == 9 ==> after_returns(pty_start(nonblocking), reports.take(n)).step == PtyStep::Opened(
            PtyPair { master: reports[0].0, slave: reports[6].0 },
        ),
        after_returns(pty_start(nonblocking), reports.take(n)).nonblocking == nonblocking,
    decreases n,
{
    if n == 0 {
        assert(reports.take(0) =~= Seq::empty());
    } else {
        lemma_pty_prefix(nonblocking, reports, n - 1);
        lemma_after_returns_push(pty_start(nonblocking), reports.take(n - 1), reports[n - 1]);
        assert(reports.take(n - 1).push(reports[n - 1]) =~= reports.take(n));
        assert(reports[n - 1].0 >= 0);
    }
}

/// Taking one more return is one more step.
proof fn lemma_after_returns_push(setup: PtySetupView, reports: Seq<(i32, i32)>, last: (i32, i32))
    ensures
        after_returns(setup, reports.push(last)) == pty_advanced(
            after_returns(setup, reports),
            last.0,
            last.1,
        ),
    decreases reports.len(),
{
    if reports.len() == 0 {
        assert(reports.push(last).drop_first() =~= Seq::empty());
        reveal_with_fuel(after_returns, 2);
    } else {
        assert(reports.push(last).drop_first() =~= reports.drop_first().push(last));
        lemma_after_returns_push(
            pty_advanced(setup, reports[0].0, reports[0].1),
            reports.drop_first(),
            last,
        );
    }
}

/// A failure ends the setup at once and for good: when the pending call
/// gives a negative value the setup fails with the error code reported for
/// that call, whatever is reported afterwards.
pub proof fn lemma_pty_failure_is_final(
    setup: PtySetupView,
    code: i32,
    os_error: i32,
    later: Seq<(i32, i32)>,
)
    requires
        setup.step is Call,
        code < 0,
    ensures
        pty_advanced(setup, code, os_error).step == (PtyStep::Failed {
            error: Error::Io(os_error),
            master: master_of(setup.step->Call_0),
            slave: slave_of(setup.step->Call_0),
        }),
        after_returns(pty_advanced(setup, code, os_error), later) == pty_advanced(
            setup,
            code,
            os_error,
        ),
    decreases later.len(),
{
    let failed = pty_advanced(setup, code, os_error);
    lemma_ended_stays(failed, later);
}

/// A setup that has ended ignores every report.
proof fn lemma_ended_stays(setup: PtySetupView, later: Seq<(i32, i32)>)
    requires
        !(setup.step is Call),
    ensures
        after_returns(setup, later) == setup,
    decreases later.len(),
{
    if later.len() > 0 {
        lemma_ended_stays(setup, later.drop_first());
    }
}

/// The flags that are set on the slave contain the non-blocking flag and
/// every flag that the slave had.
pub proof fn lemma_flags_are_nonblocking(flags: i32, nonblocking: i32)
    ensures
        (flags | nonblocking) & nonblocking == nonblocking,
        (flags | nonblocking) & flags == flags,
{
    assert((flags | nonblocking) & nonblocking == nonblocking) by (bit_vector);
    assert((flags | nonblocking) & flags == flags) by (bit_vector);
}

} // verus!
