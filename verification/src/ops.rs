//! The operations of the stack machine.

use vstd::prelude::*;

verus! {

/// One operation of the stack machine.
///
/// The operand stack is a run-time concept of the generated program: the
/// generator itself never holds operand values, it only lowers each operation
/// to instruction text.
#[derive(Clone, Copy, PartialEq, Eq, Structural)]
pub enum Operation {
    /// Pop two values, push their sum.
    Plus,
    /// Pop the subtrahend, then the minuend, push (minuend - subtrahend).
    Minus,
    /// Push a constant onto the operand stack.
    Push(i64),
    /// Pop one value and print it in decimal, followed by a newline.
    Dump,
}

} // verus!
