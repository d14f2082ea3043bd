//! What can go wrong, how a failed call is classified, and what is said of it.

use crate::errno::ErrnoCodes;
use crate::sched::SCHED;
use crate::text::{append_decimal, decimal};
use vstd::prelude::*;
use vstd::string::StringExecFns;

verus! {

/// The operation during which a call failed.
#[derive(Debug, Copy, Clone, PartialEq, Eq, Structural)]
pub enum Operation {
    /// Reading the scheduling parameters of the process.
    Read,
    /// Setting its scheduling policy and parameters.
    Write,
}

/// Why the scheduling parameters could not be read, set or reported.
#[derive(Debug, Copy, Clone, PartialEq, Eq, Structural)]
pub enum SchedError {
    /// The caller has no right to do the operation on the process.
    NoPermission { operation: Operation },
    /// No process has the given id.
    NoSuchProcess { operation: Operation, pid: i32 },
    /// The operating system turned the arguments of a write down.
    InvalidArguments,
    /// The priority is outside the range that the policy allows, which runs from
    /// `min` to `max`.
    PriorityOutOfRange { policy: SCHED, min: i32, max: i32 },
    /// The operating system reported a policy whose code stands for no class.
    UnrecognizedPolicyCode { code: i32 },
    /// The operating system gave an error number that has no meaning here.
    Unknown { errno: i32 },
}

/// How a failed write is classified.
#[derive(Debug, Copy, Clone, PartialEq, Eq, Structural)]
pub enum WriteFailure {
    /// The priority is out of range: the range is still to be asked for.
    OutOfRange,
    /// Any other failure, with the error that it amounts to.
    Other(SchedError),
}

/// The error that a failed read of the parameters of `pid` amounts to, given the
/// error number that the operating system left.
pub open spec fn read_failure(codes: ErrnoCodes, pid: i32, errno: i32) -> SchedError {
    if errno == codes.eperm {
        SchedError::NoPermission { operation: Operation::Read }
    } else if errno == codes.esrch {
        SchedError::NoSuchProcess { operation: Operation::Read, pid }
    } else {
        SchedError::Unknown { errno }
    }
}

/// What a failed write to `pid` amounts to, given the error number that the
/// operating system left.
pub open spec fn write_failure(codes: ErrnoCodes, pid: i32, errno: i32) -> WriteFailure {
    if errno == codes.enavail {
        WriteFailure::Other(SchedError::InvalidArguments)
    } else if errno == codes.eperm {
        WriteFailure::Other(SchedError::NoPermission { operation: Operation::Write })
    } else if errno == codes.esrch {
        WriteFailure::Other(SchedError::NoSuchProcess { operation: Operation::Write, pid })
    } else if errno == codes.einval {
        WriteFailure::OutOfRange
    } else {
        WriteFailure::Other(SchedError::Unknown { errno })
    }
}

/// Classifies a failed read of the parameters of `pid`.
pub fn classify_read_failure(codes: &ErrnoCodes, pid: i32, errno: i32) -> (error: SchedError)
    ensures
        error == read_failure(*codes, pid, errno),
{
    if errno == codes.eperm {
        SchedError::NoPermission { operation: Operation::Read }
    } else if errno == codes.esrch {
        SchedError::NoSuchProcess { operation: Operation::Read, pid }
    } else {
        SchedError::Unknown { errno }
    }
}

/// Classifies a failed write to `pid`.
pub fn classify_write_failure(codes: &ErrnoCodes, pid: i32, errno: i32) -> (failure: WriteFailure)
    ensures
        failure == write_failure(*codes, pid, errno),
{
    if errno == codes.enavail {
        WriteFailure::Other(SchedError::InvalidArguments)
    } else if errno == codes.eperm {
        WriteFailure::Other(SchedError::NoPermission { operation: Operation::Write })
    } else if errno == codes.esrch {
        WriteFailure::Other(SchedError::NoSuchProcess { operation: Operation::Write, pid })
    } else if errno == codes.einval {
        WriteFailure::OutOfRange
    } else {
        WriteFailure::Other(SchedError::Unknown { errno })
    }
}

/// Where the four codes are four different numbers, each of them is classified as
/// the failure that it stands for.
pub proof fn lemma_distinct_codes_are_told_apart(codes: ErrnoCodes, pid: i32)
    requires
        codes.distinct(),
    ensures
        read_failure(codes, pid, codes.eperm) == (SchedError::NoPermission {
            operation: Operation::Read,
        }),
        read_failure(codes, pid, codes.esrch) == (SchedError::NoSuchProcess {
            operation: Operation::Read,
            pid,
        }),
        write_failure(codes, pid, codes.enavail) == WriteFailure::Other(
            SchedError::InvalidArguments,
        ),
        write_failure(codes, pid, codes.eperm) == WriteFailure::Other(
            SchedError::NoPermission { operation: Operation::Write },
        ),
        write_failure(codes, pid, codes.esrch) == WriteFailure::Other(
            SchedError::NoSuchProcess { operation: Operation::Write, pid },
        ),
        write_failure(codes, pid, codes.einval) == WriteFailure::OutOfRange,
{
}

impl SchedError {
    /// The one line that tells the user of this error.
    pub open spec fn text(self) -> Seq<char> {
        match self {
            SchedError::NoPermission { operation: Operation::Read } => {
                "The requesting process does not have permission to obtain the scheduling parameters of the specified process"@
            },
            SchedError::NoPermission { operation: Operation::Write } => {
                "The calling thread does not have appropriate privileges"@
            },
            SchedError::NoSuchProcess { operation: Operation::Read, pid } => {
                "No process can be found corresponding to that specified by pid "@ + decimal(
                    pid as int,
                )
            },
            SchedError::NoSuchProcess { operation: Operation::Write, pid } => {
                "The thread whose ID is "@ + decimal(pid as int) + " could not be found."@
            },
            SchedError::InvalidArguments => {
                "Invalid arguments: pid is negative or param is NULL\n                              policy is not one of the recognized policies\n                              param does not make sense for the specified policy"@
            },
            SchedError::PriorityOutOfRange { policy, min, max } => {
                "Invalid params for Sched Class "@ + policy.name()
                    + ", priority should between: "@ + decimal(min as int) + "/"@ + decimal(
                    max as int,
                )
            },
            SchedError::UnrecognizedPolicyCode { code } => {
                "invalid policy: "@ + decimal(code as int)
            },
            SchedError::Unknown { errno } => "unknow error: "@ + decimal(errno as int),
        }
    }

    /// The one line that tells the user of this error.
    pub fn message(&self) -> (text: String)
        ensures
            text@ == self.text(),
    {
        match *self {
            SchedError::NoPermission { operation: Operation::Read } => {
                String::from_str(
                    "The requesting process does not have permission to obtain the scheduling parameters of the specified process",
                )
            },
            SchedError::NoPermission { operation: Operation::Write } => {
                String::from_str("The calling thread does not have appropriate privileges")
            },
            SchedError::NoSuchProcess { operation: Operation::Read, pid } => {
                let mut text = String::from_str(
                    "No process can be found corresponding to that specified by pid ",
                );
                append_decimal(&mut text, pid);
                text
            },
            SchedError::NoSuchProcess { operation: Operation::Write, pid } => {
                let mut text = String::from_str("The thread whose ID is ");
                append_decimal(&mut text, pid);
                text.append(" could not be found.");
                text
            },
            SchedError::InvalidArguments => {
                String::from_str(
                    "Invalid arguments: pid is negative or param is NULL\n                              policy is not one of the recognized policies\n                              param does not make sense for the specified policy",
                )
            },
            SchedError::PriorityOutOfRange { policy, min, max } => {
                let mut text = String::from_str("Invalid params for Sched Class ");
                text.append(policy.display_name());
                text.append(", priority should between: ");
                append_decimal(&mut text, min);
                text.append("/");
                append_decimal(&mut text, max);
                text
            },
            SchedError::UnrecognizedPolicyCode { code } => {
                let mut text = String::from_str("invalid policy: ");
                append_decimal(&mut text, code);
                text
            },
            SchedError::Unknown { errno } => {
                let mut text = String::from_str("unknow error: ");
                append_decimal(&mut text, errno);
                text
            },
        }
    }
}

} // verus!
