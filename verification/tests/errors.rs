use schedctl::errno::ErrnoCodes;
use schedctl::error::{
    classify_read_failure, classify_write_failure, Operation, SchedError, WriteFailure,
};
use schedctl::sched::SCHED;

fn table() -> ErrnoCodes {
    ErrnoCodes { eperm: 1, esrch: 3, einval: 22, enavail: 119 }
}

#[test]
fn host_codes_are_those_of_libc() {
    let codes = ErrnoCodes::host();
    assert_eq!(codes.eperm, libc::EPERM);
    assert_eq!(codes.esrch, libc::ESRCH);
    assert_eq!(codes.einval, libc::EINVAL);
    assert_eq!(codes.enavail, libc::ENAVAIL);
}

#[test]
fn host_codes_differ_from_each_other() {
    let codes = ErrnoCodes::host();
    let all = [codes.eperm, codes.esrch, codes.einval, codes.enavail];
    for i in 0..all.len() {
        for j in 0..all.len() {
            assert_eq!(all[i] == all[j], i == j);
        }
    }
}

#[test]
fn read_failure_by_error_number() {
    let codes = table();
    assert_eq!(
        classify_read_failure(&codes, 42, 1),
        SchedError::NoPermission { operation: Operation::Read }
    );
    assert_eq!(
        classify_read_failure(&codes, 42, 3),
        SchedError::NoSuchProcess { operation: Operation::Read, pid: 42 }
    );
    assert_eq!(classify_read_failure(&codes, 42, 22), SchedError::Unknown { errno: 22 });
    assert_eq!(classify_read_failure(&codes, 42, 119), SchedError::Unknown { errno: 119 });
    assert_eq!(classify_read_failure(&codes, 42, 0), SchedError::Unknown { errno: 0 });
    assert_eq!(classify_read_failure(&codes, 42, -7), SchedError::Unknown { errno: -7 });
}

#[test]
fn read_failure_on_the_host() {
    let codes = ErrnoCodes::host();
    assert_eq!(
        classify_read_failure(&codes, 7, libc::EPERM),
        SchedError::NoPermission { operation: Operation::Read }
    );
    assert_eq!(
        classify_read_failure(&codes, 7, libc::ESRCH),
        SchedError::NoSuchProcess { operation: Operation::Read, pid: 7 }
    );
    assert_eq!(
        classify_read_failure(&codes, 7, libc::EINVAL),
        SchedError::Unknown { errno: libc::EINVAL }
    );
}

#[test]
fn write_failure_by_error_number() {
    let codes = table();
    assert_eq!(
        classify_write_failure(&codes, 42, 119),
        WriteFailure::Other(SchedError::InvalidArguments)
    );
    assert_eq!(
        classify_write_failure(&codes, 42, 1),
        WriteFailure::Other(SchedError::NoPermission { operation: Operation::Write })
    );
    assert_eq!(
        classify_write_failure(&codes, 42, 3),
        WriteFailure::Other(SchedError::NoSuchProcess { operation: Operation::Write, pid: 42 })
    );
    assert_eq!(classify_write_failure(&codes, 42, 22), WriteFailure::OutOfRange);
    assert_eq!(
        classify_write_failure(&codes, 42, 5),
        WriteFailure::Other(SchedError::Unknown { errno: 5 })
    );
}

#[test]
fn write_failure_on_the_host() {
    let codes = ErrnoCodes::host();
    assert_eq!(
        classify_write_failure(&codes, 7, libc::ENAVAIL),
        WriteFailure::Other(SchedError::InvalidArguments)
    );
    assert_eq!(
        classify_write_failure(&codes, 7, libc::EPERM),
        WriteFailure::Other(SchedError::NoPermission { operation: Operation::Write })
    );
    assert_eq!(
        classify_write_failure(&codes, 7, libc::ESRCH),
        WriteFailure::Other(SchedError::NoSuchProcess { operation: Operation::Write, pid: 7 })
    );
    assert_eq!(classify_write_failure(&codes, 7, libc::EINVAL), WriteFailure::OutOfRange);
    assert_eq!(
        classify_write_failure(&codes, 7, libc::ENOMEM),
        WriteFailure::Other(SchedError::Unknown { errno: libc::ENOMEM })
    );
}

#[test]
fn the_first_matching_code_decides() {
    let codes = ErrnoCodes { eperm: 9, esrch: 9, einval: 9, enavail: 9 };
    assert_eq!(
        classify_read_failure(&codes, 1, 9),
        SchedError::NoPermission { operation: Operation::Read }
    );
    assert_eq!(
        classify_write_failure(&codes, 1, 9),
        WriteFailure::Other(SchedError::InvalidArguments)
    );
}

#[test]
fn message_of_no_permission() {
    assert_eq!(
        SchedError::NoPermission { operation: Operation::Read }.message(),
        "The requesting process does not have permission to obtain the scheduling parameters of the specified process"
    );
    assert_eq!(
        SchedError::NoPermission { operation: Operation::Write }.message(),
        "The calling thread does not have appropriate privileges"
    );
}

#[test]
fn message_of_no_such_process() {
    assert_eq!(
        SchedError::NoSuchProcess { operation: Operation::Read, pid: 4242 }.message(),
        "No process can be found corresponding to that specified by pid 4242"
    );
    assert_eq!(
        SchedError::NoSuchProcess { operation: Operation::Write, pid: 4242 }.message(),
        "The thread whose ID is 4242 could not be found."
    );
    assert_eq!(
        SchedError::NoSuchProcess { operation: Operation::Write, pid: -3 }.message(),
        "The thread whose ID is -3 could not be found."
    );
}

#[test]
fn message_of_invalid_arguments() {
    let message = SchedError::InvalidArguments.message();
    let lines: Vec<&str> = message.split('\n').collect();
    assert_eq!(lines.len(), 3);
    assert_eq!(lines[0], "Invalid arguments: pid is negative or param is NULL");
    assert_eq!(
        lines[1],
        format!("{}policy is not one of the recognized policies", " ".repeat(30))
    );
    assert_eq!(
        lines[2],
        format!("{}param does not make sense for the specified policy", " ".repeat(30))
    );
}

#[test]
fn message_of_priority_out_of_range() {
    let error = SchedError::PriorityOutOfRange { policy: SCHED::RR, min: 1, max: 99 };
    let message = error.message();
    assert!(message.contains("rr"));
    assert!(message.contains("1"));
    assert!(message.contains("99"));
    assert_eq!(message, "Invalid params for Sched Class rr, priority should between: 1/99");
    assert_eq!(
        SchedError::PriorityOutOfRange { policy: SCHED::NORMAL, min: 0, max: 0 }.message(),
        "Invalid params for Sched Class normal, priority should between: 0/0"
    );
    assert_eq!(
        SchedError::PriorityOutOfRange { policy: SCHED::DEADLINE, min: -20, max: 19 }.message(),
        "Invalid params for Sched Class deadline, priority should between: -20/19"
    );
}

#[test]
fn message_of_unrecognized_policy_code() {
    assert_eq!(SchedError::UnrecognizedPolicyCode { code: 4 }.message(), "invalid policy: 4");
    assert_eq!(SchedError::UnrecognizedPolicyCode { code: 64 }.message(), "invalid policy: 64");
}

#[test]
fn message_of_unknown_error() {
    assert_eq!(SchedError::Unknown { errno: 12 }.message(), "unknow error: 12");
    assert_eq!(SchedError::Unknown { errno: 0 }.message(), "unknow error: 0");
}
