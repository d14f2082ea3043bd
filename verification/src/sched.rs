//! The scheduling classes, their numeric codes and their names.

use vstd::prelude::*;
use vstd::string::StrSliceExecFns;

verus! {

/// A scheduling class of the operating system.
///
/// The classes are ordered as their codes are.
#[allow(clippy::upper_case_acronyms)]
#[derive(Debug, Copy, Clone, PartialEq, Eq, PartialOrd, Ord, Structural)]
pub enum SCHED {
    /// Default time-sharing.
    NORMAL,
    /// Real-time, first in, first out.
    FIFO,
    /// Real-time, round-robin.
    RR,
    /// Batch, for non-interactive work.
    BATCH,
    /// Runs only when nothing else does.
    IDLE,
    /// Deadline-based real-time.
    DEADLINE,
    /// Extensible scheduling class.
    EXT,
}

impl SCHED {
    /// The code by which the operating system knows this class.
    pub open spec fn code(self) -> int {
        match self {
            SCHED::NORMAL => 0,
            SCHED::FIFO => 1,
            SCHED::RR => 2,
            SCHED::BATCH => 3,
            SCHED::IDLE => 5,
            SCHED::DEADLINE => 6,
            SCHED::EXT => 7,
        }
    }

    /// Whether `code` is the code of a class. 4 is reserved and is none.
    pub open spec fn is_code(code: int) -> bool {
        0 <= code <= 7 && code != 4
    }

    /// The class that `code` stands for, if any.
    pub open spec fn of_code(code: int) -> Option<SCHED> {
        if code == 0 {
            Some(SCHED::NORMAL)
        } else if code == 1 {
            Some(SCHED::FIFO)
        } else if code == 2 {
            Some(SCHED::RR)
        } else if code == 3 {
            Some(SCHED::BATCH)
        } else if code == 5 {
            Some(SCHED::IDLE)
        } else if code == 6 {
            Some(SCHED::DEADLINE)
        } else if code == 7 {
            Some(SCHED::EXT)
        } else {
            None
        }
    }

    /// The lower-case name of this class, as it is typed and printed.
    pub open spec fn name(self) -> Seq<char> {
        match self {
            SCHED::NORMAL => "normal"@,
            SCHED::FIFO => "fifo"@,
            SCHED::RR => "rr"@,
            SCHED::BATCH => "batch"@,
            SCHED::IDLE => "idle"@,
            SCHED::DEADLINE => "deadline"@,
            SCHED::EXT => "ext"@,
        }
    }

    /// The class that is called `name`, if any. Case matters.
    pub open spec fn of_name(name: Seq<char>) -> Option<SCHED> {
        if name == "normal"@ {
            Some(SCHED::NORMAL)
        } else if name == "fifo"@ {
            Some(SCHED::FIFO)
        } else if name == "rr"@ {
            Some(SCHED::RR)
        } else if name == "batch"@ {
            Some(SCHED::BATCH)
        } else if name == "idle"@ {
            Some(SCHED::IDLE)
        } else if name == "deadline"@ {
            Some(SCHED::DEADLINE)
        } else if name == "ext"@ {
            Some(SCHED::EXT)
        } else {
            None
        }
    }

    /// The code of this class.
    pub fn encode(self) -> (code: i32)
        ensures
            code == self.code(),
    {
        match self {
            SCHED::NORMAL => 0,
            SCHED::FIFO => 1,
            SCHED::RR => 2,
            SCHED::BATCH => 3,
            SCHED::IDLE => 5,
            SCHED::DEADLINE => 6,
            SCHED::EXT => 7,
        }
    }

    /// The class with the given code, or `None` where the code is that of no class.
    pub fn try_decode(code: i32) -> (policy: Option<SCHED>)
        ensures
            policy == SCHED::of_code(code as int),
    {
        match code {
            0 => Some(SCHED::NORMAL),
            1 => Some(SCHED::FIFO),
            2 => Some(SCHED::RR),
            3 => Some(SCHED::BATCH),
            5 => Some(SCHED::IDLE),
            6 => Some(SCHED::DEADLINE),
            7 => Some(SCHED::EXT),
            _ => None,
        }
    }

    /// The class with the given code, which must be the code of a class.
    pub fn decode(code: i32) -> (policy: SCHED)
        requires
            SCHED::is_code(code as int),
        ensures
            SCHED::of_code(code as int) == Some(policy),
    {
        match code {
            0 => SCHED::NORMAL,
            1 => SCHED::FIFO,
            2 => SCHED::RR,
            3 => SCHED::BATCH,
            5 => SCHED::IDLE,
            6 => SCHED::DEADLINE,
            _ => SCHED::EXT,
        }
    }

    /// The name of this class.
    pub fn display_name(self) -> (name: &'static str)
        ensures
            name@ == self.name(),
    {
        match self {
            SCHED::NORMAL => "normal",
            SCHED::FIFO => "fifo",
            SCHED::RR => "rr",
            SCHED::BATCH => "batch",
            SCHED::IDLE => "idle",
            SCHED::DEADLINE => "deadline",
            SCHED::EXT => "ext",
        }
    }

    /// The class called `name`, or `None` where no class has that name.
    pub fn parse(name: &str) -> (policy: Option<SCHED>)
        ensures
            policy == SCHED::of_name(name@),
    {
        if same_text(name, "normal") {
            Some(SCHED::NORMAL)
        } else if same_text(name, "fifo") {
            Some(SCHED::FIFO)
        } else if same_text(name, "rr") {
            Some(SCHED::RR)
        } else if same_text(name, "batch") {
            Some(SCHED::BATCH)
        } else if same_text(name, "idle") {
            Some(SCHED::IDLE)
        } else if same_text(name, "deadline") {
            Some(SCHED::DEADLINE)
        } else if same_text(name, "ext") {
            Some(SCHED::EXT)
        } else {
            None
        }
    }
}

impl From<SCHED> for i32 {
    /// The code of the class, as [`SCHED::encode`] gives it.
    fn from(policy: SCHED) -> (code: i32) {
        policy.encode()
    }
}

impl vstd::std_specs::convert::FromSpecImpl<SCHED> for i32 {
    open spec fn obeys_from_spec() -> bool {
        true
    }

    open spec fn from_spec(policy: SCHED) -> i32 {
        policy.code() as i32
    }
}

/// Whether two strings hold the same characters.
fn same_text(left: &str, right: &str) -> (same: bool)
    ensures
        same == (left@ == right@),
{
    let len = left.unicode_len();
    if len != right.unicode_len() {
        return false;
    }
    let mut i: usize = 0;
    while i < len
        invariant
            len == left@.len(),
            len == right@.len(),
            i <= len,
            forall|j: int| 0 <= j < i ==> left@[j] == right@[j],
        decreases len - i,
    {
        if left.get_char(i) != right.get_char(i) {
            return false;
        }
        i += 1;
    }
    assert(left@ =~= right@);
    true
}

/// Decoding the code of a class gives that class.
pub proof fn lemma_decode_encode(policy: SCHED)
    ensures
        SCHED::is_code(policy.code()),
        SCHED::of_code(policy.code()) == Some(policy),
{
}

/// A code stands for a class exactly if it is one of the seven codes, and that
/// class has the code.
pub proof fn lemma_encode_decode(code: int)
    ensures
        SCHED::of_code(code) is Some <==> SCHED::is_code(code),
        SCHED::of_code(code) matches Some(policy) ==> policy.code() == code,
{
}

/// Two classes with the same name are the same class.
pub proof fn lemma_name_injective(left: SCHED, right: SCHED)
    requires
        left.name() == right.name(),
    ensures
        left == right,
{
    lemma_names_spelled_out();
}

/// Parsing the name of a class gives that class.
pub proof fn lemma_parse_display_name(policy: SCHED)
    ensures
        SCHED::of_name(policy.name()) == Some(policy),
{
    lemma_names_spelled_out();
}

/// A name stands for a class exactly if it is the name of that class.
pub proof fn lemma_display_name_parse(name: Seq<char>)
    ensures
        SCHED::of_name(name) matches Some(policy) ==> policy.name() == name,
        SCHED::of_name(name) is None ==> forall|policy: SCHED| policy.name() != name,
{
}

/// The seven names, character by character.
pub proof fn lemma_names_spelled_out()
    ensures
        "normal"@ == seq!['n', 'o', 'r', 'm', 'a', 'l'],
        "fifo"@ == seq!['f', 'i', 'f', 'o'],
        "rr"@ == seq!['r', 'r'],
        "batch"@ == seq!['b', 'a', 't', 'c', 'h'],
        "idle"@ == seq!['i', 'd', 'l', 'e'],
        "deadline"@ == seq!['d', 'e', 'a', 'd', 'l', 'i', 'n', 'e'],
        "ext"@ == seq!['e', 'x', 't'],
{
    reveal_strlit("normal");
    reveal_strlit("fifo");
    reveal_strlit("rr");
    reveal_strlit("batch");
    reveal_strlit("idle");
    reveal_strlit("deadline");
    reveal_strlit("ext");
    assert("normal"@ =~= seq!['n', 'o', 'r', 'm', 'a', 'l']);
    assert("fifo"@ =~= seq!['f', 'i', 'f', 'o']);
    assert("rr"@ =~= seq!['r', 'r']);
    assert("batch"@ =~= seq!['b', 'a', 't', 'c', 'h']);
    assert("idle"@ =~= seq!['i', 'd', 'l', 'e']);
    assert("deadline"@ =~= seq!['d', 'e', 'a', 'd', 'l', 'i', 'n', 'e']);
    assert("ext"@ =~= seq!['e', 'x', 't']);
}

} // verus!
