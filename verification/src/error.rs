//! What a failed call reports: the operation that was asked for and the
//! condition that stopped it.

use vstd::prelude::*;
use vstd::string::StringExecFns;
use crate::operation::Operation;

verus! {

/// The condition that stopped a call.
#[derive(Clone, Copy, Debug, PartialEq, Eq, Structural)]
pub enum Condition {
    /// The input series do not have the shape the indicator reads: their
    /// number is not its input count, or they differ in length.
    ShapeMismatch,
    /// The input series are longer than the native engine can index.
    InputTooLong,
    /// The native engine ran and reported `status`, which is not success.
    ComputationFailed { status: u32 },
    /// The native engine reported success together with a span of results
    /// that lies outside the input or outside an output buffer.
    InvalidReport,
}

/// A failed call: which operation, and which condition.
#[derive(Clone, Copy, Debug, PartialEq, Eq, Structural)]
pub struct CallError {
    pub operation: Operation,
    pub condition: Condition,
}

/// The character that stands for a decimal digit.
pub open spec fn digit(d: nat) -> char
    recommends
        d < 10,
{
    if d == 0 {
        '0'
    } else if d == 1 {
        '1'
    } else if d == 2 {
        '2'
    } else if d == 3 {
        '3'
    } else if d == 4 {
        '4'
    } else if d == 5 {
        '5'
    } else if d == 6 {
        '6'
    } else if d == 7 {
        '7'
    } else if d == 8 {
        '8'
    } else {
        '9'
    }
}

/// A number in decimal, without leading zeros.
pub open spec fn decimal(n: nat) -> Seq<char>
    decreases n,
{
    if n < 10 {
        seq![digit(n)]
    } else {
        decimal(n / 10).push(digit(n % 10))
    }
}

fn digit_text(d: u32) -> (text: &'static str)
    requires
        d < 10,
    ensures
        text@ == seq![digit(d as nat)],
{
    proof {
        reveal_strlit("0");
        reveal_strlit("1");
        reveal_strlit("2");
        reveal_strlit("3");
        reveal_strlit("4");
        reveal_strlit("5");
        reveal_strlit("6");
        reveal_strlit("7");
        reveal_strlit("8");
        reveal_strlit("9");
    }
    if d == 0 {
        "0"
    } else if d == 1 {
        "1"
    } else if d == 2 {
        "2"
    } else if d == 3 {
        "3"
    } else if d == 4 {
        "4"
    } else if d == 5 {
        "5"
    } else if d == 6 {
        "6"
    } else if d == 7 {
        "7"
    } else if d == 8 {
        "8"
    } else {
        "9"
    }
}

/// Writes `n` in decimal at the end of `text`.
pub fn push_decimal(text: &mut String, n: u32)
    ensures
        final(text)@ == old(text)@ + decimal(n as nat),
    decreases n,
{
    if n >= 10 {
        push_decimal(text, n / 10);
    }
    text.append(digit_text(n % 10));
}

impl Condition {
    /// The condition in words.
    pub open spec fn text(self) -> Seq<char> {
        match self {
            Condition::ShapeMismatch => "the input series differ in number or length"@,
            Condition::InputTooLong => "the input series are too long for the native engine"@,
            Condition::ComputationFailed { status } => "the native computation failed with status "@
                + decimal(status as nat),
            Condition::InvalidReport => "the native computation reported results out of bounds"@,
        }
    }

    /// Returns the condition in words.
    pub fn describe(self) -> (text: String)
        ensures
            text@ == self.text(),
    {
        match self {
            Condition::ShapeMismatch => String::from_str(
                "the input series differ in number or length",
            ),
            Condition::InputTooLong => String::from_str(
                "the input series are too long for the native engine",
            ),
            Condition::ComputationFailed { status } => {
                let mut text = String::from_str("the native computation failed with status ");
                push_decimal(&mut text, status);
                text
            },
            Condition::InvalidReport => String::from_str(
                "the native computation reported results out of bounds",
            ),
        }
    }
}

impl CallError {
    /// The error in words: the operation's name, a colon and a space,
    /// then the condition.
    pub open spec fn text(self) -> Seq<char> {
        self.operation.name() + ": "@ + self.condition.text()
    }

    /// Returns the error in words.
    pub fn message(&self) -> (text: String)
        ensures
            text@ == self.text(),
    {
        let mut text = self.operation.label();
        text.append(": ");
        let condition = self.condition.describe();
        text.append(condition.as_str());
        text
    }
}

} // verus!
