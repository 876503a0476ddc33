//! The run-time meaning of generated programs.
//!
//! The generated instruction sequences implement a stack machine: the
//! hardware stack holds the operands, arithmetic is on 64-bit machine words,
//! and printing renders the popped word as an unsigned decimal number. This
//! module models that machine — a stack of mathematical integers and the
//! printed output — and proves the arithmetic properties of generated
//! programs against it. A machine word holds the value reduced modulo the
//! word base, so the model tracks exact integers and applies the reduction
//! where the machine would observe it, at printing time.

use crate::decimal::dec_nat;
use crate::ops::Operation;
use vstd::prelude::*;

verus! {

/// The number of distinct values of a 64-bit machine word.
pub open spec fn word_base() -> int {
    0x1_0000_0000_0000_0000
}

/// The unsigned 64-bit word that holds the integer `v`.
pub open spec fn word_of(v: int) -> nat {
    (v % word_base()) as nat
}

/// The observable state of the generated program: the operand stack (top
/// last) and the text printed so far.
#[verifier::ext_equal]
pub struct MachineState {
    pub stack: Seq<int>,
    pub out: Seq<char>,
}

/// The state before the first lowered operation runs.
pub open spec fn init_state() -> MachineState {
    MachineState { stack: Seq::empty(), out: Seq::empty() }
}

/// The effect of one operation on the machine state.
///
/// `Plus` and `Minus` pop the two topmost values and push the sum or the
/// difference; for `Minus` the most recently pushed value is the subtrahend.
/// `Dump` pops one value and prints its 64-bit word as an unsigned decimal
/// number followed by a newline. An operation whose operands are missing
/// violates the stack discipline; the generator models no error for it and
/// the state is left as it is.
pub open spec fn step(op: Operation, s: MachineState) -> MachineState {
    match op {
        Operation::Push(x) => MachineState { stack: s.stack.push(x as int), out: s.out },
        Operation::Plus => if s.stack.len() >= 2 {
            MachineState {
                stack: s.stack.drop_last().drop_last().push(
                    s.stack[s.stack.len() - 2] + s.stack.last(),
                ),
                out: s.out,
            }
        } else {
            s
        },
        Operation::Minus => if s.stack.len() >= 2 {
            MachineState {
                stack: s.stack.drop_last().drop_last().push(
                    s.stack[s.stack.len() - 2] - s.stack.last(),
                ),
                out: s.out,
            }
        } else {
            s
        },
        Operation::Dump => if s.stack.len() >= 1 {
            MachineState {
                stack: s.stack.drop_last(),
                out: s.out + dec_nat(word_of(s.stack.last())) + seq!['\n'],
            }
        } else {
            s
        },
    }
}

/// Runs a program from a given state, one operation at a time.
pub open spec fn run_from(program: Seq<Operation>, s: MachineState) -> MachineState
    decreases program.len(),
{
    if program.len() == 0 {
        s
    } else {
        run_from(program.drop_first(), step(program[0], s))
    }
}

/// Runs a program from the initial state.
pub open spec fn run(program: Seq<Operation>) -> MachineState {
    run_from(program, init_state())
}

/// The sum of a sequence of integers.
pub open spec fn isum(vals: Seq<int>) -> int
    decreases vals.len(),
{
    if vals.len() == 0 {
        0
    } else {
        isum(vals.drop_last()) + vals.last()
    }
}

/// The pushed constants, as mathematical integers.
pub open spec fn ints_of(vals: Seq<i64>) -> Seq<int> {
    Seq::new(vals.len(), |i: int| vals[i] as int)
}

/// One `Push` operation for each value, in order.
pub open spec fn pushes(vals: Seq<i64>) -> Seq<Operation> {
    Seq::new(vals.len(), |i: int| Operation::Push(vals[i]))
}

/// `count` consecutive `Plus` operations.
pub open spec fn plus_ops(count: nat) -> Seq<Operation> {
    Seq::new(count, |i: int| Operation::Plus)
}

/// The program that pushes every value, folds them into one sum, and prints
/// it.
pub open spec fn sum_program(vals: Seq<i64>) -> Seq<Operation>
    recommends
        vals.len() >= 1,
{
    pushes(vals) + plus_ops((vals.len() - 1) as nat) + seq![Operation::Dump]
}

/// Running a concatenation of programs runs the second from where the first
/// ended.
pub proof fn lemma_run_append(a: Seq<Operation>, b: Seq<Operation>, s: MachineState)
    ensures
        run_from(a + b, s) == run_from(b, run_from(a, s)),
    decreases a.len(),
{
    if a.len() == 0 {
        assert(a + b =~= b);
    } else {
        assert((a + b)[0] == a[0]);
        assert((a + b).drop_first() =~= a.drop_first() + b);
        lemma_run_append(a.drop_first(), b, step(a[0], s));
    }
}

/// A run of `Push` operations appends exactly the pushed values to the
/// operand stack and prints nothing.
pub proof fn lemma_run_pushes(vals: Seq<i64>, s: MachineState)
    ensures
        run_from(pushes(vals), s) == (MachineState { stack: s.stack + ints_of(vals), out: s.out }),
    decreases vals.len(),
{
    if vals.len() == 0 {
        assert(pushes(vals) =~= Seq::<Operation>::empty());
        assert(s.stack + ints_of(vals) =~= s.stack);
        assert(run_from(pushes(vals), s) =~= (MachineState {
            stack: s.stack + ints_of(vals),
            out: s.out,
        }));
    } else {
        let rest = vals.drop_first();
        let s1 = step(Operation::Push(vals[0]), s);
        assert(pushes(vals)[0] == Operation::Push(vals[0]));
        assert(pushes(vals).drop_first() =~= pushes(rest));
        lemma_run_pushes(rest, s1);
        assert(s1.stack + ints_of(rest) =~= s.stack + ints_of(vals));
        assert(run_from(pushes(vals), s) =~= (MachineState {
            stack: s.stack + ints_of(vals),
            out: s.out,
        }));
    }
}

/// Folding `n` values above a fixed base of the stack with `n - 1` additions
/// leaves their sum in place of the values, prints nothing, and never touches
/// the base.
pub proof fn lemma_run_plus_fold(base: Seq<int>, vals: Seq<int>, out: Seq<char>)
    requires
        vals.len() >= 1,
    ensures
        run_from(plus_ops((vals.len() - 1) as nat), MachineState { stack: base + vals, out: out })
            == (MachineState { stack: base.push(isum(vals)), out: out }),
    decreases vals.len(),
{
    let k = (vals.len() - 1) as nat;
    let s0 = MachineState { stack: base + vals, out: out };
    if vals.len() == 1 {
        assert(plus_ops(k) =~= Seq::<Operation>::empty());
        assert(vals.drop_last().len() == 0);
        assert(isum(vals.drop_last()) == 0);
        assert(isum(vals) == vals[0]);
        assert(base + vals =~= base.push(isum(vals)));
        assert(run_from(plus_ops(k), s0) =~= (MachineState {
            stack: base.push(isum(vals)),
            out: out,
        }));
    } else {
        let a = vals[vals.len() - 2];
        let b = vals.last();
        let folded = vals.drop_last().drop_last().push(a + b);
        assert(plus_ops(k)[0] == Operation::Plus);
        assert(plus_ops(k).drop_first() =~= plus_ops((k - 1) as nat));
        assert(s0.stack.len() >= 2);
        assert(s0.stack.last() == b);
        assert(s0.stack[s0.stack.len() - 2] == a);
        assert(s0.stack.drop_last().drop_last() =~= base + vals.drop_last().drop_last());
        let s1 = step(Operation::Plus, s0);
        assert(s1.stack =~= base + folded);
        assert(vals.drop_last().last() == a);
        assert(vals.drop_last().drop_last() =~= folded.drop_last());
        assert(folded.last() == a + b);
        assert(isum(vals) == isum(vals.drop_last()) + b);
        assert(isum(vals.drop_last()) == isum(vals.drop_last().drop_last()) + a);
        assert(isum(folded) == isum(folded.drop_last()) + folded.last());
        assert(isum(folded) == isum(vals));
        lemma_run_plus_fold(base, folded, out);
        assert(run_from(plus_ops(k), s0) =~= (MachineState {
            stack: base.push(isum(vals)),
            out: out,
        }));
    }
}

/// Any sequence of pushed constants folded by additions and printed yields
/// exactly the decimal rendering of their arithmetic sum, provided the sum
/// lies within the machine-word range; the program ends with an empty operand
/// stack.
pub proof fn lemma_sum_program_prints_sum(vals: Seq<i64>)
    requires
        vals.len() >= 1,
        0 <= isum(ints_of(vals)) < word_base(),
    ensures
        run(sum_program(vals)).out == dec_nat(isum(ints_of(vals)) as nat) + seq!['\n'],
        run(sum_program(vals)).stack == Seq::<int>::empty(),
{
    let total = isum(ints_of(vals));
    let front = pushes(vals) + plus_ops((vals.len() - 1) as nat);
    lemma_run_append(front, seq![Operation::Dump], init_state());
    lemma_run_append(pushes(vals), plus_ops((vals.len() - 1) as nat), init_state());
    lemma_run_pushes(vals, init_state());
    assert(Seq::<int>::empty() + ints_of(vals) =~= ints_of(vals));
    lemma_run_plus_fold(Seq::<int>::empty(), ints_of(vals), Seq::<char>::empty());
    let s2 = run_from(front, init_state());
    assert(s2.stack =~= seq![total]);
    vstd::arithmetic::div_mod::lemma_small_mod(total as nat, word_base() as nat);
    assert(word_of(total) == total as nat);
    let s3 = run_from(seq![Operation::Dump], s2);
    assert(seq![Operation::Dump].len() == 1);
    assert(seq![Operation::Dump][0] == Operation::Dump);
    assert(seq![Operation::Dump].drop_first() =~= Seq::<Operation>::empty());
    assert(s3 == run_from(seq![Operation::Dump].drop_first(), step(Operation::Dump, s2)));
    assert(s3 == step(Operation::Dump, s2));
    assert(s3.stack =~= Seq::<int>::empty());
    assert(s3.out =~= dec_nat(total as nat) + seq!['\n']);
}

/// Subtraction is order-sensitive: pushing `a`, then `b`, then subtracting
/// leaves `a - b` on the stack — the most recently pushed value is the
/// subtrahend — and never `b - a` unless the two agree.
pub proof fn lemma_minus_order(a: i64, b: i64)
    ensures
        run_from(seq![Operation::Push(a), Operation::Push(b), Operation::Minus], init_state()).stack
            == seq![a as int - b as int],
        a != b ==> run_from(
            seq![Operation::Push(a), Operation::Push(b), Operation::Minus],
            init_state(),
        ).stack != seq![b as int - a as int],
{
    let prog = seq![Operation::Push(a), Operation::Push(b), Operation::Minus];
    let s1 = step(Operation::Push(a), init_state());
    let s2 = step(Operation::Push(b), s1);
    let s3 = step(Operation::Minus, s2);
    assert(prog.len() == 3);
    assert(prog[0] == Operation::Push(a));
    assert(prog.drop_first() =~= seq![Operation::Push(b), Operation::Minus]);
    assert(run_from(prog, init_state()) == run_from(
        seq![Operation::Push(b), Operation::Minus],
        s1,
    ));
    assert(seq![Operation::Push(b), Operation::Minus][0] == Operation::Push(b));
    assert(seq![Operation::Push(b), Operation::Minus].drop_first() =~= seq![Operation::Minus]);
    assert(run_from(seq![Operation::Push(b), Operation::Minus], s1) == run_from(
        seq![Operation::Minus],
        s2,
    ));
    assert(seq![Operation::Minus][0] == Operation::Minus);
    assert(seq![Operation::Minus].drop_first() =~= Seq::<Operation>::empty());
    assert(run_from(seq![Operation::Minus], s2) == run_from(
        seq![Operation::Minus].drop_first(),
        s3,
    ));
    assert(seq![Operation::Minus].drop_first().len() == 0);
    assert(run_from(seq![Operation::Minus], s2) == s3);
    assert(run_from(prog, init_state()) == s3);
    assert(s2.stack =~= seq![a as int, b as int]);
    assert(s2.stack[0] == a as int);
    assert(s3.stack =~= seq![a as int - b as int]);
    if a != b {
        assert(a as int - b as int != b as int - a as int);
        assert(seq![a as int - b as int][0] != seq![b as int - a as int][0]);
    }
}

} // verus!
