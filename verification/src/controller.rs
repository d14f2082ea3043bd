//! The workflow: read the parameters, write new ones if asked to, report.
//!
//! The system calls are not made here. A [`Controller`] says which call it wants
//! made next, takes the answer, and says what comes after it, until it has a
//! report or an error. Whoever drives it makes each call once and decides
//! nothing.

use crate::errno::ErrnoCodes;
use crate::error::{
    classify_read_failure, classify_write_failure, read_failure, write_failure, Operation,
    SchedError, WriteFailure,
};
use crate::sched::SCHED;
use crate::text::{decimal, decimal_string};
use vstd::prelude::*;

verus! {

/// What is to be done with the process.
#[derive(Debug, Copy, Clone, PartialEq, Eq, Structural)]
pub enum Command {
    /// Report its scheduling class and priority.
    Read,
    /// Give it the class `sched` and the priority `prio`, then report.
    Write { sched: SCHED, prio: i32 },
}

/// A call that the controller wants made.
#[derive(Debug, Copy, Clone, PartialEq, Eq, Structural)]
pub enum Request {
    /// Read the scheduling parameters of `pid`.
    GetParams { pid: i32 },
    /// Give `pid` the policy with the code `policy` and the priority `priority`.
    SetScheduler { pid: i32, policy: i32, priority: i32 },
    /// Read the scheduling policy of `pid`.
    GetScheduler { pid: i32 },
    /// Ask for the lowest priority that the policy with the code `policy` allows.
    PriorityMin { policy: i32 },
    /// Ask for the highest priority that the policy with the code `policy` allows.
    PriorityMax { policy: i32 },
    /// Read the error number that the call before left.
    LastError,
}

/// What came back from a call.
#[derive(Debug, Copy, Clone, PartialEq, Eq, Structural)]
pub enum Answer {
    /// From [`Request::GetParams`]: the status of the call, which is 0 if it
    /// succeeded, and the priority that it read.
    Params { status: i32, priority: i32 },
    /// From [`Request::SetScheduler`]: the status of the call, which is negative
    /// if it failed.
    SetScheduler { status: i32 },
    /// From [`Request::GetScheduler`]: the code of the policy, or a negative
    /// number if the call failed.
    Scheduler { policy: i32 },
    /// From [`Request::PriorityMin`].
    PriorityMin { bound: i32 },
    /// From [`Request::PriorityMax`].
    PriorityMax { bound: i32 },
    /// From [`Request::LastError`].
    LastError { errno: i32 },
}

/// The scheduling class and the priority that are taken to be in effect.
#[derive(Debug, Copy, Clone, PartialEq, Eq, Structural)]
pub struct Report {
    /// The class, or `None` where the operating system would not tell.
    pub class: Option<SCHED>,
    /// The priority as it was read or, after a write, as it was written.
    pub priority: i32,
}

/// What the driver of a controller does next.
#[derive(Debug, Copy, Clone, PartialEq, Eq, Structural)]
pub enum Action {
    /// Make this call and hand the answer to [`Controller::step`].
    Call(Request),
    /// Stop and print the report.
    Report(Report),
    /// Stop and tell of the error, and print no report.
    Fail(SchedError),
}

/// How far the workflow has come.
#[derive(Debug, Copy, Clone, PartialEq, Eq, Structural)]
pub enum Phase {
    /// The parameters are being read.
    ReadingParams,
    /// Reading the parameters failed and the error number is being fetched.
    ReadFailed,
    /// The new policy and priority are being set.
    Writing { sched: SCHED, prio: i32 },
    /// Setting them failed and the error number is being fetched.
    WriteFailed { sched: SCHED },
    /// The priority was out of range and the lowest one is being asked for.
    AskingMin { sched: SCHED },
    /// The lowest priority is known and the highest one is being asked for.
    AskingMax { sched: SCHED, min: i32 },
    /// The policy is being read for the report.
    ReadingPolicy { priority: i32 },
    /// The workflow ended with a report.
    Reported(Report),
    /// The workflow ended with an error.
    Failed(SchedError),
}

/// One run of the workflow on one process.
#[derive(Debug, Copy, Clone, PartialEq, Eq, Structural)]
pub struct Controller {
    /// The process.
    pub pid: i32,
    /// What is to be done with it.
    pub command: Command,
    /// The error numbers that failures are classified by.
    pub codes: ErrnoCodes,
    /// How far the run has come.
    pub phase: Phase,
}

/// How the workflow ends once the policy has been asked for: with a report, or
/// with an error if the answer is the code of no class. A negative answer means
/// that the call failed, which is no reason not to report.
pub open spec fn conclusion(policy: i32, priority: i32) -> Phase {
    if policy < 0 {
        Phase::Reported(Report { class: None, priority })
    } else {
        match SCHED::of_code(policy as int) {
            Some(class) => Phase::Reported(Report { class: Some(class), priority }),
            None => Phase::Failed(SchedError::UnrecognizedPolicyCode { code: policy }),
        }
    }
}

/// Ends the workflow on the answer to the question for the policy.
pub fn conclude(policy: i32, priority: i32) -> (phase: Phase)
    ensures
        phase == conclusion(policy, priority),
{
    if policy < 0 {
        Phase::Reported(Report { class: None, priority })
    } else {
        match SCHED::try_decode(policy) {
            Some(class) => Phase::Reported(Report { class: Some(class), priority }),
            None => Phase::Failed(SchedError::UnrecognizedPolicyCode { code: policy }),
        }
    }
}

impl Report {
    /// The name of the class, or `INVALID` where there is none.
    pub open spec fn class_text(self) -> Seq<char> {
        match self.class {
            Some(class) => class.name(),
            None => "INVALID"@,
        }
    }

    /// The priority in decimal.
    pub open spec fn priority_text(self) -> Seq<char> {
        decimal(self.priority as int)
    }

    /// The first line of the report: the name of the class, or `INVALID`.
    pub fn class_name(&self) -> (name: &'static str)
        ensures
            name@ == self.class_text(),
    {
        match self.class {
            Some(class) => class.display_name(),
            None => "INVALID",
        }
    }

    /// The second line of the report: the priority in decimal.
    pub fn priority_line(&self) -> (line: String)
        ensures
            line@ == self.priority_text(),
    {
        decimal_string(self.priority)
    }
}

impl Controller {
    /// The run as it begins.
    pub open spec fn start(pid: i32, command: Command, codes: ErrnoCodes) -> Controller {
        Controller { pid, command, codes, phase: Phase::ReadingParams }
    }

    /// What the driver is to do in this phase.
    pub open spec fn pending(self) -> Action {
        match self.phase {
            Phase::ReadingParams => Action::Call(Request::GetParams { pid: self.pid }),
            Phase::ReadFailed => Action::Call(Request::LastError),
            Phase::Writing { sched, prio } => Action::Call(
                Request::SetScheduler { pid: self.pid, policy: sched.code() as i32, priority: prio },
            ),
            Phase::WriteFailed { .. } => Action::Call(Request::LastError),
            Phase::AskingMin { sched } => Action::Call(
                Request::PriorityMin { policy: sched.code() as i32 },
            ),
            Phase::AskingMax { sched, .. } => Action::Call(
                Request::PriorityMax { policy: sched.code() as i32 },
            ),
            Phase::ReadingPolicy { .. } => Action::Call(
                Request::GetScheduler { pid: self.pid },
            ),
            Phase::Reported(report) => Action::Report(report),
            Phase::Failed(error) => Action::Fail(error),
        }
    }

    /// The phase that `answer` leads to. An answer to a call that this phase did
    /// not ask for changes nothing.
    pub open spec fn next_phase(self, answer: Answer) -> Phase {
        match (self.phase, answer) {
            (Phase::ReadingParams, Answer::Params { status, priority }) => {
                if status != 0 {
                    Phase::ReadFailed
                } else {
                    match self.command {
                        Command::Read => Phase::ReadingPolicy { priority },
                        Command::Write { sched, prio } => Phase::Writing { sched, prio },
                    }
                }
            },
            (Phase::ReadFailed, Answer::LastError { errno }) => Phase::Failed(
                read_failure(self.codes, self.pid, errno),
            ),
            (Phase::Writing { sched, prio }, Answer::SetScheduler { status }) => {
                if status < 0 {
                    Phase::WriteFailed { sched }
                } else {
                    Phase::ReadingPolicy { priority: prio }
                }
            },
            (Phase::WriteFailed { sched }, Answer::LastError { errno }) => {
                match write_failure(self.codes, self.pid, errno) {
                    WriteFailure::OutOfRange => Phase::AskingMin { sched },
                    WriteFailure::Other(error) => Phase::Failed(error),
                }
            },
            (Phase::AskingMin { sched }, Answer::PriorityMin { bound }) => Phase::AskingMax {
                sched,
                min: bound,
            },
            (Phase::AskingMax { sched, min }, Answer::PriorityMax { bound }) => Phase::Failed(
                SchedError::PriorityOutOfRange { policy: sched, min, max: bound },
            ),
            (Phase::ReadingPolicy { priority }, Answer::Scheduler { policy }) => conclusion(
                policy,
                priority,
            ),
            _ => self.phase,
        }
    }

    /// The run after `answer` has come in.
    pub open spec fn after(self, answer: Answer) -> Controller {
        Controller { phase: self.next_phase(answer), ..self }
    }

    /// Begins a run that does `command` to the process `pid` and classifies
    /// failures by `codes`.
    pub fn new(pid: i32, command: Command, codes: ErrnoCodes) -> (controller: Controller)
        ensures
            controller == Controller::start(pid, command, codes),
    {
        Controller { pid, command, codes, phase: Phase::ReadingParams }
    }

    /// What the driver is to do now.
    pub fn action(&self) -> (action: Action)
        ensures
            action == self.pending(),
    {
        match self.phase {
            Phase::ReadingParams => Action::Call(Request::GetParams { pid: self.pid }),
            Phase::ReadFailed => Action::Call(Request::LastError),
            Phase::Writing { sched, prio } => Action::Call(
                Request::SetScheduler { pid: self.pid, policy: sched.encode(), priority: prio },
            ),
            Phase::WriteFailed { .. } => Action::Call(Request::LastError),
            Phase::AskingMin { sched } => Action::Call(
                Request::PriorityMin { policy: sched.encode() },
            ),
            Phase::AskingMax { sched, .. } => Action::Call(
                Request::PriorityMax { policy: sched.encode() },
            ),
            Phase::ReadingPolicy { .. } => Action::Call(
                Request::GetScheduler { pid: self.pid },
            ),
            Phase::Reported(report) => Action::Report(report),
            Phase::Failed(error) => Action::Fail(error),
        }
    }

    /// Takes the answer to the call that was asked for and says what to do next.
    pub fn step(&mut self, answer: Answer) -> (action: Action)
        ensures
            *final(self) == old(self).after(answer),
            action == final(self).pending(),
    {
        let next = match (self.phase, answer) {
            (Phase::ReadingParams, Answer::Params { status, priority }) => {
                if status != 0 {
                    Phase::ReadFailed
                } else {
                    match self.command {
                        Command::Read => Phase::ReadingPolicy { priority },
                        Command::Write { sched, prio } => Phase::Writing { sched, prio },
                    }
                }
            },
            (Phase::ReadFailed, Answer::LastError { errno }) => Phase::Failed(
                classify_read_failure(&self.codes, self.pid, errno),
            ),
            (Phase::Writing { sched, prio }, Answer::SetScheduler { status }) => {
                if status < 0 {
                    Phase::WriteFailed { sched }
                } else {
                    Phase::ReadingPolicy { priority: prio }
                }
            },
            (Phase::WriteFailed { sched }, Answer::LastError { errno }) => {
                match classify_write_failure(&self.codes, self.pid, errno) {
                    WriteFailure::OutOfRange => Phase::AskingMin { sched },
                    WriteFailure::Other(error) => Phase::Failed(error),
                }
            },
            (Phase::AskingMin { sched }, Answer::PriorityMin { bound }) => Phase::AskingMax {
                sched,
                min: bound,
            },
            (Phase::AskingMax { sched, min }, Answer::PriorityMax { bound }) => Phase::Failed(
                SchedError::PriorityOutOfRange { policy: sched, min, max: bound },
            ),
            (Phase::ReadingPolicy { priority }, Answer::Scheduler { policy }) => conclude(
                policy,
                priority,
            ),
            (phase, _) => phase,
        };
        self.phase = next;
        self.action()
    }
}

/// Whether `answer` is of the kind that `request` asks for.
pub open spec fn answers(request: Request, answer: Answer) -> bool {
    match (request, answer) {
        (Request::GetParams { .. }, Answer::Params { .. }) => true,
        (Request::SetScheduler { .. }, Answer::SetScheduler { .. }) => true,
        (Request::GetScheduler { .. }, Answer::Scheduler { .. }) => true,
        (Request::PriorityMin { .. }, Answer::PriorityMin { .. }) => true,
        (Request::PriorityMax { .. }, Answer::PriorityMax { .. }) => true,
        (Request::LastError, Answer::LastError { .. }) => true,
        _ => false,
    }
}

/// The most calls, reads of the error number among them, that a run in this
/// phase can still ask for.
pub open spec fn calls_left(phase: Phase) -> nat {
    match phase {
        Phase::ReadingParams => 5,
        Phase::Writing { .. } => 4,
        Phase::WriteFailed { .. } => 3,
        Phase::AskingMin { .. } => 2,
        Phase::AskingMax { .. } => 1,
        Phase::ReadFailed => 1,
        Phase::ReadingPolicy { .. } => 1,
        Phase::Reported(_) => 0,
        Phase::Failed(_) => 0,
    }
}

/// Every run ends: the answer to the call that was asked for brings the run
/// nearer to its end, and a run asks for five calls at most.
pub proof fn lemma_answer_brings_end_nearer(controller: Controller, request: Request, answer: Answer)
    requires
        controller.pending() == Action::Call(request),
        answers(request, answer),
    ensures
        calls_left(controller.after(answer).phase) < calls_left(controller.phase) <= 5,
{
}

/// An answer that was not asked for changes nothing, and so does any answer once
/// the run has ended.
pub proof fn lemma_other_answers_change_nothing(controller: Controller, answer: Answer)
    requires
        match controller.pending() {
            Action::Call(request) => !answers(request, answer),
            _ => true,
        },
    ensures
        controller.after(answer) == controller,
{
}

/// What the operating system has to say during one run: the answer that each
/// call would get if the run came to make it.
#[derive(Debug, Copy, Clone, PartialEq, Eq, Structural)]
pub struct Replies {
    /// The status of reading the parameters, which is 0 if it succeeds.
    pub getparam_status: i32,
    /// The priority that reading the parameters finds.
    pub priority: i32,
    /// The error number that a failed read of the parameters leaves.
    pub getparam_errno: i32,
    /// The status of setting the policy, which is negative if it fails.
    pub setscheduler_status: i32,
    /// The error number that a failed setting of the policy leaves.
    pub setscheduler_errno: i32,
    /// The lowest priority of the policy that was to be set.
    pub priority_min: i32,
    /// The highest priority of the policy that was to be set.
    pub priority_max: i32,
    /// The code of the policy, or a negative number if it cannot be read.
    pub policy: i32,
}

/// How a run of `command` on `pid` ends, given what the operating system has to
/// say: with a report, or with an error and no report.
///
/// The parameters are read first, and a failure to read them ends the run. A
/// write then sets the policy and the priority, and a failure to do so ends the
/// run, with the bounds of the policy where the priority was out of range. What
/// is left ends as [`conclusion`] says, with the priority that was read or, after
/// a write, the priority that was written.
pub open spec fn outcome(pid: i32, command: Command, codes: ErrnoCodes, replies: Replies) -> Phase {
    if replies.getparam_status != 0 {
        Phase::Failed(read_failure(codes, pid, replies.getparam_errno))
    } else {
        match command {
            Command::Read => conclusion(replies.policy, replies.priority),
            Command::Write { sched, prio } => {
                if replies.setscheduler_status >= 0 {
                    conclusion(replies.policy, prio)
                } else {
                    match write_failure(codes, pid, replies.setscheduler_errno) {
                        WriteFailure::OutOfRange => Phase::Failed(
                            SchedError::PriorityOutOfRange {
                                policy: sched,
                                min: replies.priority_min,
                                max: replies.priority_max,
                            },
                        ),
                        WriteFailure::Other(error) => Phase::Failed(error),
                    }
                }
            },
        }
    }
}

impl Controller {
    /// The answer that the call asked for in this phase gets.
    pub open spec fn reply(self, replies: Replies) -> Answer {
        match self.phase {
            Phase::ReadingParams => Answer::Params {
                status: replies.getparam_status,
                priority: replies.priority,
            },
            Phase::ReadFailed => Answer::LastError { errno: replies.getparam_errno },
            Phase::Writing { .. } => Answer::SetScheduler { status: replies.setscheduler_status },
            Phase::WriteFailed { .. } => Answer::LastError { errno: replies.setscheduler_errno },
            Phase::AskingMin { .. } => Answer::PriorityMin { bound: replies.priority_min },
            Phase::AskingMax { .. } => Answer::PriorityMax { bound: replies.priority_max },
            _ => Answer::Scheduler { policy: replies.policy },
        }
    }

    /// The run after `calls` more calls have been made and answered.
    pub open spec fn driven(self, replies: Replies, calls: nat) -> Controller
        decreases calls,
    {
        if calls == 0 {
            self
        } else {
            self.after(self.reply(replies)).driven(replies, (calls - 1) as nat)
        }
    }
}

/// A run whose calls are made as they are asked for, and answered as the
/// operating system answers them, has ended after five calls, and it has ended as
/// [`outcome`] says.
pub proof fn lemma_run_ends_with_outcome(
    pid: i32,
    command: Command,
    codes: ErrnoCodes,
    replies: Replies,
)
    ensures
        Controller::start(pid, command, codes).driven(replies, 5).phase == outcome(
            pid,
            command,
            codes,
            replies,
        ),
        calls_left(outcome(pid, command, codes, replies)) == 0,
{
    reveal_with_fuel(Controller::driven, 6);
}

/// Where the parameters cannot be read, the run asks for the error number and
/// ends with the error that the number stands for, whatever the command was. No
/// report is made. The error is `NoPermission` where the number is `eperm`.
pub proof fn lemma_failed_read_ends_run(
    pid: i32,
    command: Command,
    codes: ErrnoCodes,
    status: i32,
    priority: i32,
    errno: i32,
)
    requires
        status != 0,
    ensures
        ({
            let begun = Controller::start(pid, command, codes);
            let failed = begun.after(Answer::Params { status, priority });
            let ended = failed.after(Answer::LastError { errno });
            &&& begun.pending() == Action::Call(Request::GetParams { pid })
            &&& failed.pending() == Action::Call(Request::LastError)
            &&& ended.pending() == Action::Fail(read_failure(codes, pid, errno))
            &&& errno == codes.eperm ==> ended.pending() == Action::Fail(
                SchedError::NoPermission { operation: Operation::Read },
            )
        }),
{
}

/// Where the parameters can be read, a read ends with a report that holds the
/// priority that was read and the class that the operating system names. Where
/// the policy cannot be read, the report is still made, and its class reads
/// `INVALID`.
pub proof fn lemma_read_reports_priority_read(
    pid: i32,
    codes: ErrnoCodes,
    priority: i32,
    policy: i32,
)
    requires
        policy < 0 || SCHED::is_code(policy as int),
    ensures
        ({
            let read = Controller::start(pid, Command::Read, codes).after(
                Answer::Params { status: 0, priority },
            );
            let report = Report {
                class: if policy < 0 {
                    None
                } else {
                    SCHED::of_code(policy as int)
                },
                priority,
            };
            &&& read.pending() == Action::Call(Request::GetScheduler { pid })
            &&& read.after(Answer::Scheduler { policy }).pending() == Action::Report(report)
            &&& report.priority_text() == decimal(priority as int)
            &&& policy < 0 ==> report.class_text() == "INVALID"@
        }),
{
}

/// Where a write fails because the priority is out of range, the run asks for
/// the lowest and the highest priority of the policy that was to be set, and
/// ends with an error that holds that policy and both bounds. The message names
/// all three.
pub proof fn lemma_out_of_range_reports_bounds(
    pid: i32,
    sched: SCHED,
    prio: i32,
    codes: ErrnoCodes,
    priority: i32,
    status: i32,
    errno: i32,
    min: i32,
    max: i32,
)
    requires
        status < 0,
        write_failure(codes, pid, errno) == WriteFailure::OutOfRange,
    ensures
        ({
            let writing = Controller::start(pid, Command::Write { sched, prio }, codes).after(
                Answer::Params { status: 0, priority },
            );
            let failed = writing.after(Answer::SetScheduler { status });
            let asking_min = failed.after(Answer::LastError { errno });
            let asking_max = asking_min.after(Answer::PriorityMin { bound: min });
            let ended = asking_max.after(Answer::PriorityMax { bound: max });
            let error = SchedError::PriorityOutOfRange { policy: sched, min, max };
            &&& writing.pending() == Action::Call(
                Request::SetScheduler { pid, policy: sched.code() as i32, priority: prio },
            )
            &&& failed.pending() == Action::Call(Request::LastError)
            &&& asking_min.pending() == Action::Call(
                Request::PriorityMin { policy: sched.code() as i32 },
            )
            &&& asking_max.pending() == Action::Call(
                Request::PriorityMax { policy: sched.code() as i32 },
            )
            &&& ended.pending() == Action::Fail(error)
            &&& error.text() == "Invalid params for Sched Class "@ + sched.name()
                + ", priority should between: "@ + decimal(min as int) + "/"@ + decimal(max as int)
        }),
{
}

/// Where a write fails for any other reason, the run ends with the error that
/// the error number stands for, and no report is made.
pub proof fn lemma_failed_write_ends_run(
    pid: i32,
    sched: SCHED,
    prio: i32,
    codes: ErrnoCodes,
    priority: i32,
    status: i32,
    errno: i32,
    error: SchedError,
)
    requires
        status < 0,
        write_failure(codes, pid, errno) == WriteFailure::Other(error),
    ensures
        Controller::start(pid, Command::Write { sched, prio }, codes).after(
            Answer::Params { status: 0, priority },
        ).after(Answer::SetScheduler { status }).after(Answer::LastError { errno }).pending()
            == Action::Fail(error),
{
}

/// After a write that succeeded, the report holds the priority that was
/// written, whatever priority was read before, and the class that the operating
/// system then names.
pub proof fn lemma_written_priority_is_reported(
    pid: i32,
    sched: SCHED,
    prio: i32,
    codes: ErrnoCodes,
    priority: i32,
    status: i32,
    policy: i32,
)
    requires
        status >= 0,
        policy < 0 || SCHED::is_code(policy as int),
    ensures
        ({
            let written = Controller::start(pid, Command::Write { sched, prio }, codes).after(
                Answer::Params { status: 0, priority },
            ).after(Answer::SetScheduler { status });
            let report = Report {
                class: if policy < 0 {
                    None
                } else {
                    SCHED::of_code(policy as int)
                },
                priority: prio,
            };
            &&& written.pending() == Action::Call(Request::GetScheduler { pid })
            &&& written.after(Answer::Scheduler { policy }).pending() == Action::Report(report)
            &&& report.priority_text() == decimal(prio as int)
        }),
{
}

/// A policy code that stands for no class ends the run, after a read as after a
/// write, with an error of its own: no classification of an error number gives
/// `UnrecognizedPolicyCode`.
pub proof fn lemma_unrecognized_policy_is_no_os_error(
    controller: Controller,
    priority: i32,
    policy: i32,
    errno: i32,
)
    requires
        controller.phase == (Phase::ReadingPolicy { priority }),
        policy >= 0,
        !SCHED::is_code(policy as int),
    ensures
        controller.after(Answer::Scheduler { policy }).pending() == Action::Fail(
            SchedError::UnrecognizedPolicyCode { code: policy },
        ),
        !(read_failure(controller.codes, controller.pid, errno) is UnrecognizedPolicyCode),
        write_failure(controller.codes, controller.pid, errno) matches WriteFailure::Other(error)
            ==> !(error is UnrecognizedPolicyCode),
{
}

} // verus!
