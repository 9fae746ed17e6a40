//! The controller of one child process: what to start, and what each poll
//! decides.
//!
//! The controller owns no operating system resource. A poll is a short
//! exchange: the driver reports an event, the controller answers with the
//! next action, and the driver performs it and reports what came of it, until
//! the controller hands back the poll's result. Within one poll the timeout is
//! looked at first, then a requested interrupt, then the child's exit.

use vstd::prelude::*;
use vstd::string::StringExecFns;
use crate::quote::{cheap_shell_quote, joined_by_blank, shell_quoted, texts};
use crate::status::{status_of_exit, ExitReport, ProcessStatus};
use crate::terminate::{
    judge_termination,
    termination_verdict,
    uses_process_groups,
    Platform,
    TerminationError,
};

verus! {

/// How long the driver sleeps between two polls, in milliseconds.
pub const WAIT_POLL_INTERVAL_MILLIS: u64 = 50;

/// Why a child is being terminated.
#[derive(Copy, Clone, Debug, PartialEq, Eq, Structural)]
pub enum Cause {
    Timeout,
    Interrupt,
}

/// Where the controller stands in its exchange with the driver.
#[derive(Copy, Clone, Debug, PartialEq, Eq, Structural)]
pub enum Stage {
    /// Between two polls.
    Idle,
    /// Waiting to hear whether an interrupt was requested.
    AwaitInterrupt,
    /// Waiting to hear whether the child has exited.
    AwaitExit,
    /// Waiting to hear what came of the termination request.
    AwaitSignal(Cause),
    /// Waiting for the child to be reaped; holds the error number of a
    /// termination request that failed.
    AwaitReap(Cause, Option<i32>),
    /// A final result was handed out: nothing more is accepted.
    Done,
}

/// What the driver reports to the controller.
#[derive(Copy, Clone, Debug, PartialEq, Eq, Structural)]
pub enum PollEvent {
    /// A poll begins; the time since the child's start, in nanoseconds.
    Begin(u128),
    /// Whether an interrupt has been requested.
    Interrupt(bool),
    /// The child's exit report, or `None` while it still runs.
    Exit(Option<ExitReport>),
    /// The system could not say whether the child has exited.
    ExitCheckFailed,
    /// The termination request was made: `None` where the system accepted
    /// it, else the error number it failed with.
    SignalSent(Option<i32>),
    /// The blocking wait for the child has returned, well or not.
    Reaped,
}

/// Why a poll ends without an answer about the child's run.
#[derive(Copy, Clone, Debug, PartialEq, Eq, Structural)]
pub enum PollError {
    /// An interrupt was requested: the caller's operation is cancelled.
    Interrupted,
    /// The termination request failed.
    Termination(TerminationError),
    /// The system could not say whether the child has exited.
    ExitCheck,
}

/// What the controller asks of the driver next.
#[derive(Copy, Clone, Debug, PartialEq, Eq)]
pub enum PollAction {
    /// Ask whether an interrupt was requested; answer with `Interrupt`.
    CheckInterrupt,
    /// Ask the system, without blocking, whether the child has exited;
    /// answer with `Exit` or `ExitCheckFailed`.
    TryWait,
    /// Request the termination of the child and its group; answer with
    /// `SignalSent`.
    SendTermination,
    /// Block until the child has exited and is reaped; answer with `Reaped`.
    WaitForExit,
    /// The poll is over. `Ok(None)` says that the child still runs.
    Return(Result<Option<ProcessStatus>, PollError>),
}

/// The controller of one child process.
#[derive(Copy, Clone, Debug, PartialEq, Eq, Structural)]
pub struct Process {
    /// The longest time the child may run, in nanoseconds, if it is limited.
    pub timeout: Option<u128>,
    pub platform: Platform,
    pub stage: Stage,
}

/// What the driver needs to start the child.
#[derive(Clone, Debug, PartialEq, Eq)]
pub struct Launch {
    /// The executable: the first element of the argument vector.
    pub program: String,
    /// The arguments after the executable.
    pub args: Vec<String>,
    /// The quoted command line, to be written to the log before the start.
    pub log_line: String,
    /// The message of the error to give if the system refuses the start.
    pub spawn_failure: String,
    /// Whether the child is to lead a new process group of its own.
    pub own_process_group: bool,
}

/// Whether a child with this timeout has run too long after `elapsed`
/// nanoseconds. A child without a timeout never has.
pub open spec fn timed_out(timeout: Option<u128>, elapsed: u128) -> bool {
    timeout is Some && elapsed > timeout->0
}

/// The result of a poll that terminated the child for `cause`, given what came
/// of the termination request.
pub open spec fn termination_result(platform: Platform, cause: Cause, failure: Option<i32>) -> Result<
    Option<ProcessStatus>,
    PollError,
> {
    match termination_verdict(platform, failure) {
        Err(e) => Err(PollError::Termination(e)),
        Ok(_) => match cause {
            Cause::Timeout => Ok(Some(ProcessStatus::Timeout)),
            Cause::Interrupt => Err(PollError::Interrupted),
        },
    }
}

impl Process {
    /// Whether `event` is the one the controller waits for.
    pub open spec fn accepts(self, event: PollEvent) -> bool {
        match self.stage {
            Stage::Idle => event is Begin,
            Stage::AwaitInterrupt => event is Interrupt,
            Stage::AwaitExit => event is Exit || event is ExitCheckFailed,
            Stage::AwaitSignal(_) => event is SignalSent,
            Stage::AwaitReap(_, _) => event is Reaped,
            Stage::Done => false,
        }
    }

    /// The controller at another stage.
    pub open spec fn at(self, stage: Stage) -> Process {
        Process { timeout: self.timeout, platform: self.platform, stage }
    }

    /// The controller after an event that it accepts, and the action it asks
    /// for.
    pub open spec fn step(self, event: PollEvent) -> (Process, PollAction) {
        match (self.stage, event) {
            (Stage::Idle, PollEvent::Begin(elapsed)) => if timed_out(self.timeout, elapsed) {
                (self.at(Stage::AwaitSignal(Cause::Timeout)), PollAction::SendTermination)
            } else {
                (self.at(Stage::AwaitInterrupt), PollAction::CheckInterrupt)
            },
            (Stage::AwaitInterrupt, PollEvent::Interrupt(requested)) => if requested {
                (self.at(Stage::AwaitSignal(Cause::Interrupt)), PollAction::SendTermination)
            } else {
                (self.at(Stage::AwaitExit), PollAction::TryWait)
            },
            (Stage::AwaitExit, PollEvent::Exit(Some(report))) => (
                self.at(Stage::Done),
                PollAction::Return(Ok(Some(status_of_exit(report)))),
            ),
            (Stage::AwaitExit, PollEvent::Exit(None)) => (
                self.at(Stage::Idle),
                PollAction::Return(Ok(None)),
            ),
            (Stage::AwaitExit, PollEvent::ExitCheckFailed) => (
                self.at(Stage::Idle),
                PollAction::Return(Err(PollError::ExitCheck)),
            ),
            (Stage::AwaitSignal(cause), PollEvent::SignalSent(failure)) => (
                self.at(Stage::AwaitReap(cause, failure)),
                PollAction::WaitForExit,
            ),
            (Stage::AwaitReap(cause, failure), PollEvent::Reaped) => (
                self.at(Stage::Done),
                PollAction::Return(termination_result(self.platform, cause, failure)),
            ),
            _ => (self, PollAction::Return(Ok(None))),
        }
    }

    /// Plans the launch of a child from its argument vector, whose first
    /// element is the executable, and gives the controller that will watch it.
    pub fn start(argv: &[String], timeout: Option<u128>, platform: Platform) -> (r: (
        Process,
        Launch,
    ))
        requires
            argv.len() > 0,
        ensures
            r.0 == (Process { timeout, platform, stage: Stage::Idle }),
            r.1.program@ == argv[0]@,
            texts(r.1.args@) == texts(argv@).skip(1),
            r.1.log_line@ == shell_quoted(texts(argv@)),
            r.1.spawn_failure@ == "failed to spawn "@ + joined_by_blank(texts(argv@)),
            r.1.own_process_group == !(platform is Native),
    {
        let log_line = cheap_shell_quote(argv);
        let program = argv[0].clone();
        let mut args: Vec<String> = Vec::new();
        let mut i: usize = 1;
        while i < argv.len()
            invariant
                1 <= i <= argv.len(),
                args@.len() == i - 1,
                texts(args@) == texts(argv@).subrange(1, i as int),
            decreases argv.len() - i,
        {
            let ghost before = args@;
            let item = argv[i].clone();
            args.push(item);
            proof {
                let wanted = texts(argv@).subrange(1, i + 1);
                assert forall|j: int| 0 <= j < wanted.len() implies texts(args@)[j] == wanted[j] by {
                    if j < before.len() {
                        assert(texts(before)[j] == texts(argv@).subrange(1, i as int)[j]);
                    }
                }
                assert(texts(args@) =~= wanted);
            }
            i += 1;
        }
        assert(texts(argv@).subrange(1, i as int) =~= texts(argv@).skip(1));
        let mut spawn_failure = "failed to spawn ".to_owned();
        let joined = join_by_blank(argv);
        spawn_failure.append(joined.as_str());
        let launch = Launch {
            program,
            args,
            log_line,
            spawn_failure,
            own_process_group: uses_process_groups(platform),
        };
        (Process { timeout, platform, stage: Stage::Idle }, launch)
    }

    /// Whether `event` is the one the controller waits for.
    pub fn expects(&self, event: PollEvent) -> (r: bool)
        ensures
            r == self.accepts(event),
    {
        match self.stage {
            Stage::Idle => matches!(event, PollEvent::Begin(_)),
            Stage::AwaitInterrupt => matches!(event, PollEvent::Interrupt(_)),
            Stage::AwaitExit => matches!(event, PollEvent::Exit(_) | PollEvent::ExitCheckFailed),
            Stage::AwaitSignal(_) => matches!(event, PollEvent::SignalSent(_)),
            Stage::AwaitReap(_, _) => matches!(event, PollEvent::Reaped),
            Stage::Done => false,
        }
    }

    /// Takes the next event of a poll and says what to do next. A poll is a
    /// run of such calls from `Begin` to the first `Return`.
    pub fn poll(&mut self, event: PollEvent) -> (action: PollAction)
        requires
            old(self).accepts(event),
        ensures
            (*final(self), action) == old(self).step(event),
    {
        match (self.stage, event) {
            (Stage::Idle, PollEvent::Begin(elapsed)) => {
                let late = match self.timeout {
                    Some(limit) => elapsed > limit,
                    None => false,
                };
                if late {
                    self.stage = Stage::AwaitSignal(Cause::Timeout);
                    PollAction::SendTermination
                } else {
                    self.stage = Stage::AwaitInterrupt;
                    PollAction::CheckInterrupt
                }
            },
            (Stage::AwaitInterrupt, PollEvent::Interrupt(requested)) => {
                if requested {
                    self.stage = Stage::AwaitSignal(Cause::Interrupt);
                    PollAction::SendTermination
                } else {
                    self.stage = Stage::AwaitExit;
                    PollAction::TryWait
                }
            },
            (Stage::AwaitExit, PollEvent::Exit(Some(report))) => {
                self.stage = Stage::Done;
                PollAction::Return(Ok(Some(ProcessStatus::from_exit(report))))
            },
            (Stage::AwaitExit, PollEvent::Exit(None)) => {
                self.stage = Stage::Idle;
                PollAction::Return(Ok(None))
            },
            (Stage::AwaitExit, PollEvent::ExitCheckFailed) => {
                self.stage = Stage::Idle;
                PollAction::Return(Err(PollError::ExitCheck))
            },
            (Stage::AwaitSignal(cause), PollEvent::SignalSent(failure)) => {
                self.stage = Stage::AwaitReap(cause, failure);
                PollAction::WaitForExit
            },
            (Stage::AwaitReap(cause, failure), PollEvent::Reaped) => {
                self.stage = Stage::Done;
                let result = match judge_termination(self.platform, failure) {
                    Err(e) => Err(PollError::Termination(e)),
                    Ok(_) => match cause {
                        Cause::Timeout => Ok(Some(ProcessStatus::Timeout)),
                        Cause::Interrupt => Err(PollError::Interrupted),
                    },
                };
                PollAction::Return(result)
            },
            _ => PollAction::Return(Ok(None)),
        }
    }
}

/// Within one poll the timeout is looked at before anything else: once the
/// child has run longer than its timeout, the poll asks for its termination
/// without asking for an interrupt or for the child's exit.
pub proof fn lemma_timeout_wins(process: Process, elapsed: u128)
    requires
        process.stage == Stage::Idle,
    ensures
        timed_out(process.timeout, elapsed) ==> process.step(PollEvent::Begin(elapsed)) == (
            process.at(Stage::AwaitSignal(Cause::Timeout)),
            PollAction::SendTermination,
        ),
        !timed_out(process.timeout, elapsed) ==> process.step(PollEvent::Begin(elapsed)).1
            == PollAction::CheckInterrupt,
        process.timeout is None ==> !timed_out(process.timeout, elapsed),
{
}

/// A child that has run longer than its timeout is terminated and waited
/// for, whatever came of the termination request, before the poll returns;
/// the poll then reports `Timeout`, unless the request failed for another
/// reason than the child being gone already.
pub proof fn lemma_timeout_is_reaped(process: Process, elapsed: u128, failure: Option<i32>)
    requires
        process.stage == Stage::Idle,
        timed_out(process.timeout, elapsed),
    ensures
        ({
            let (p1, a1) = process.step(PollEvent::Begin(elapsed));
            let (p2, a2) = p1.step(PollEvent::SignalSent(failure));
            let (p3, a3) = p2.step(PollEvent::Reaped);
            &&& a1 == PollAction::SendTermination
            &&& p1.accepts(PollEvent::SignalSent(failure))
            &&& a2 == PollAction::WaitForExit
            &&& p2.accepts(PollEvent::Reaped)
            &&& p3.stage == Stage::Done
            &&& a3 == PollAction::Return(
                match termination_verdict(process.platform, failure) {
                    Ok(_) => Ok(Some(ProcessStatus::Timeout)),
                    Err(e) => Err(PollError::Termination(e)),
                },
            )
        }),
{
}

/// An interrupt that is requested while the child runs within its time has
/// the child terminated and waited for, and the poll then reports an error,
/// never a status of the child.
pub proof fn lemma_interrupt_gives_no_status(process: Process, elapsed: u128, failure: Option<i32>)
    requires
        process.stage == Stage::Idle,
        !timed_out(process.timeout, elapsed),
    ensures
        ({
            let (p1, a1) = process.step(PollEvent::Begin(elapsed));
            let (p2, a2) = p1.step(PollEvent::Interrupt(true));
            let (p3, a3) = p2.step(PollEvent::SignalSent(failure));
            let (p4, a4) = p3.step(PollEvent::Reaped);
            &&& a1 == PollAction::CheckInterrupt
            &&& p1.accepts(PollEvent::Interrupt(true))
            &&& a2 == PollAction::SendTermination
            &&& p2.accepts(PollEvent::SignalSent(failure))
            &&& a3 == PollAction::WaitForExit
            &&& p3.accepts(PollEvent::Reaped)
            &&& p4.stage == Stage::Done
            &&& a4 == PollAction::Return(
                match termination_verdict(process.platform, failure) {
                    Ok(_) => Err(PollError::Interrupted),
                    Err(e) => Err(PollError::Termination(e)),
                },
            )
        }),
{
}

/// No poll reports `Timeout` or an interrupt but as the answer to the child
/// having been waited for.
pub proof fn lemma_verdicts_follow_reaping(process: Process, event: PollEvent)
    requires
        process.accepts(event),
        process.step(event).1 == PollAction::Return(Ok(Some(ProcessStatus::Timeout)))
            || process.step(event).1 == PollAction::Return(Err(PollError::Interrupted)),
    ensures
        process.stage is AwaitReap,
        event == PollEvent::Reaped,
{
}

/// A child that is found to have exited, with no timeout passed and no
/// interrupt requested, is reported by the status of its exit, and the
/// controller is done.
pub proof fn lemma_exit_is_reported(process: Process, elapsed: u128, report: ExitReport)
    requires
        process.stage == Stage::Idle,
        !timed_out(process.timeout, elapsed),
    ensures
        ({
            let (p1, a1) = process.step(PollEvent::Begin(elapsed));
            let (p2, a2) = p1.step(PollEvent::Interrupt(false));
            let (p3, a3) = p2.step(PollEvent::Exit(Some(report)));
            let (p4, a4) = p2.step(PollEvent::Exit(None));
            &&& a1 == PollAction::CheckInterrupt
            &&& a2 == PollAction::TryWait
            &&& a3 == PollAction::Return(Ok(Some(status_of_exit(report))))
            &&& p3.stage == Stage::Done
            &&& a4 == PollAction::Return(Ok(None))
            &&& p4 == process
        }),
{
}

/// A termination request that finds the child gone leads to the same result
/// of the poll as one that the system accepted.
pub proof fn lemma_gone_child_converges(platform: Platform, cause: Cause)
    requires
        !(platform is Native),
    ensures
        termination_result(platform, cause, Some(crate::terminate::ESRCH)) == termination_result(
            platform,
            cause,
            None,
        ),
        termination_result(platform, cause, None) is Err <==> cause == Cause::Interrupt,
{
}

/// The strings in their order, with one blank between each two neighbours.
pub fn join_by_blank(parts: &[String]) -> (r: String)
    ensures
        r@ == joined_by_blank(texts(parts@)),
{
    let mut out = String::new();
    let mut i: usize = 0;
    assert(texts(parts@).take(0) =~= Seq::<Seq<char>>::empty());
    while i < parts.len()
        invariant
            0 <= i <= parts.len(),
            out@ == joined_by_blank(texts(parts@).take(i as int)),
        decreases parts.len() - i,
    {
        if i > 0 {
            out.append(" ");
        }
        out.append(parts[i].as_str());
        proof {
            reveal_strlit(" ");
            let upto = texts(parts@).take(i + 1);
            assert(upto.drop_last() =~= texts(parts@).take(i as int));
            assert(upto.last() == parts@[i as int]@);
            assert(" "@ =~= seq![' ']);
            if i == 0 {
                assert(out@ =~= upto[0]);
            } else {
                assert(out@ =~= joined_by_blank(upto.drop_last()).push(' ') + upto.last());
            }
        }
        i += 1;
    }
    assert(texts(parts@).take(i as int) =~= texts(parts@));
    out
}

} // verus!
