//! The vocabulary of the calculator flow: the named units of work, the
//! store slots, the output lines and the fatal faults.

use vstd::prelude::*;

verus! {

/// A named unit of work.  The scheduler queues and invokes these; each
/// one is a step of the interactive calculator flow.
#[derive(Debug, Clone, Copy, PartialEq, Eq, Structural)]
pub enum Unit {
    /// Prints the banner and menu text.
    Banner,
    /// Seeds the task queue with the banner and the menu.
    Greeting,
    /// Reads one menu choice: `r` starts a calculation, `q` quits,
    /// anything else re-enqueues the menu.
    Menu,
    /// Defensive reset: clears both queues, then enqueues the
    /// calculation body.
    EnterBody,
    /// Enqueues the five steps of one calculation pass.
    CalcBody,
    /// Collects the first operand.
    CollectFirst,
    /// Collects the operator.
    CollectOperator,
    /// Collects the second operand.
    CollectSecond,
    /// Removes the collected entries, computes and prints the result.
    Compute,
}

/// The store slots used by the calculator flow.
#[derive(Debug, Clone, Copy, PartialEq, Eq, Structural)]
pub enum Storage {
    FirstValue,
    Operation,
    SecondValue,
    ResultValue,
}

/// The key under which a slot's entry is stored.
pub open spec fn spec_slot_id(s: Storage) -> usize {
    match s {
        Storage::FirstValue => 0,
        Storage::Operation => 1,
        Storage::SecondValue => 2,
        Storage::ResultValue => 3,
    }
}

impl Storage {
    /// The key under which this slot's entry is stored.
    pub fn id(self) -> (r: usize)
        ensures
            r == spec_slot_id(self),
    {
        match self {
            Storage::FirstValue => 0,
            Storage::Operation => 1,
            Storage::SecondValue => 2,
            Storage::ResultValue => 3,
        }
    }
}

/// One line of terminal output, as a structured value.  The caller
/// renders these; the text of each is fixed by the interactive protocol.
#[derive(Debug, Clone, Copy, PartialEq, Eq, Structural)]
pub enum OutLine {
    /// `Hello!`
    Hello,
    /// `r - run`
    MenuRun,
    /// `q - quit`
    MenuQuit,
    /// `First value:`
    AskFirst,
    /// `Operation(+ - * /):`
    AskOperation,
    /// `Second value:`
    AskSecond,
    /// `Result: {n}`
    ResultLine(i32),
}

/// A fatal condition: an error with no local recovery path, on which
/// the surrounding process terminates abnormally.
#[derive(Debug, Clone, Copy, PartialEq, Eq, Structural)]
pub enum Fault {
    /// A first or second value was not parseable as a 32-bit integer.
    BadNumber,
    /// A store entry was missing when the result was computed.
    MissingEntry,
    /// The operation entry held no recognised operator.
    BadOperator,
    /// The arithmetic yielded nothing: a type mismatch or a division
    /// by zero.
    OpFailed,
}

} // verus!
