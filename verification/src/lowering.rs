//! Lowering of operations to assembly text.
//!
//! The generated program is plain text for one assembler dialect, declaring an
//! ELF64 executable with entry point `_start`. Its layout is fixed: a file
//! prelude, one decimal-printing runtime subroutine (emitted unconditionally),
//! the lowered operations in order, and an exit sequence with status 0. The
//! specification functions here give the exact text, character for character,
//! and [`compile`] is proved to return it.

use crate::decimal::{dec_i64, dec_nat, digit_char, push_dec_i64};
use crate::machine::{ints_of, isum, run, sum_program};
use crate::ops::Operation;
use vstd::prelude::*;

verus! {

/// The file prelude: executable format declaration and entry point.
pub open spec fn prelude_text() -> Seq<char> {
    "format ELF64 executable\n"@ + "\n"@ + "entry _start\n"@ + "\n"@
}

/// The runtime subroutine `dump`: converts the value in `rdi` to decimal
/// ASCII digits most-significant-first by repeated division, places a
/// trailing newline after them, and writes digits and newline with a single
/// `write` syscall. The divisions assume a non-negative (unsigned) value.
pub open spec fn dump_routine_text() -> Seq<char> {
    "dump:\n"@ + "\tmov rax, rdi\n"@ + "\tmov r10, 0\n"@ + "\tdec rsp\n"@
        + "\tmov byte [rsp], 10\n"@ + "\tinc r10\n"@ + ".prepend_digit:\n"@ + "\tmov rdx, 0\n"@
        + "\tmov rbx, 10\n"@ + "\tdiv rbx\n"@ + "\tadd rdx, 48\n"@ + "\tdec rsp\n"@
        + "\tmov [rsp], dl\n"@ + "\tinc r10\n"@ + "\tcmp rax, 0\n"@ + "\tjne .prepend_digit\n"@
        + ".print_digit:\n"@ + "\tmov rax, 1\n"@ + "\tmov rdi, 1\n"@ + "\tmov rsi, rsp\n"@
        + "\tmov rdx, r10\n"@ + "\tsyscall\n"@ + "\tadd rsp, r10\n"@ + "\tret\n"@
}

/// Everything emitted before the first lowered operation: the prelude, the
/// runtime subroutine, and the `_start` label.
pub open spec fn header_text() -> Seq<char> {
    prelude_text() + dump_routine_text() + "\n"@ + "_start:\n"@
}

/// The instruction lines for one operation.
///
/// `Plus` and `Minus` pop two operands and push the result; for `Minus` the
/// most recently pushed value is the subtrahend. `Push` pushes a literal.
/// `Dump` pops one value into `rdi` and calls the runtime subroutine.
pub open spec fn op_text(op: Operation) -> Seq<char> {
    match op {
        Operation::Plus => "\tpop rax\n"@ + "\tpop rdi\n"@ + "\tadd rax, rdi\n"@
            + "\tpush rax\n"@,
        Operation::Minus => "\tpop rdi\n"@ + "\tpop rax\n"@ + "\tsub rax, rdi\n"@
            + "\tpush rax\n"@,
        Operation::Push(x) => "\tpush "@ + dec_i64(x) + "\n"@,
        Operation::Dump => "\tpop rdi\n"@ + "\tcall dump\n"@,
    }
}

/// The lowered operations, in program order.
pub open spec fn body_text(program: Seq<Operation>) -> Seq<char>
    decreases program.len(),
{
    if program.len() == 0 {
        Seq::empty()
    } else {
        body_text(program.drop_last()) + op_text(program.last())
    }
}

/// The exit sequence: an exit syscall with status 0, emitted after every
/// program regardless of its outcome.
pub open spec fn exit_text() -> Seq<char> {
    "\tmov rax, 60\n"@ + "\tmov rdi, 0\n"@ + "\tsyscall\n"@
}

/// The complete generated program for an operation sequence.
pub open spec fn program_text(program: Seq<Operation>) -> Seq<char> {
    header_text() + body_text(program) + exit_text()
}

fn emit_prelude(s: &mut String)
    ensures
        final(s)@ == old(s)@ + prelude_text(),
{
    s.append("format ELF64 executable\n");
    s.append("\n");
    s.append("entry _start\n");
    s.append("\n");
    proof {
        assert(final(s)@ =~= old(s)@ + prelude_text());
    }
}

fn emit_dump_routine(s: &mut String)
    ensures
        final(s)@ == old(s)@ + dump_routine_text(),
{
    s.append("dump:\n");
    s.append("\tmov rax, rdi\n");
    s.append("\tmov r10, 0\n");
    s.append("\tdec rsp\n");
    s.append("\tmov byte [rsp], 10\n");
    s.append("\tinc r10\n");
    s.append(".prepend_digit:\n");
    s.append("\tmov rdx, 0\n");
    s.append("\tmov rbx, 10\n");
    s.append("\tdiv rbx\n");
    s.append("\tadd rdx, 48\n");
    s.append("\tdec rsp\n");
    s.append("\tmov [rsp], dl\n");
    s.append("\tinc r10\n");
    s.append("\tcmp rax, 0\n");
    s.append("\tjne .prepend_digit\n");
    s.append(".print_digit:\n");
    s.append("\tmov rax, 1\n");
    s.append("\tmov rdi, 1\n");
    s.append("\tmov rsi, rsp\n");
    s.append("\tmov rdx, r10\n");
    s.append("\tsyscall\n");
    s.append("\tadd rsp, r10\n");
    s.append("\tret\n");
    proof {
        assert(final(s)@ =~= old(s)@ + dump_routine_text());
    }
}

/// Appends the instruction lines for one operation.
pub fn lower_op(s: &mut String, op: &Operation)
    ensures
        final(s)@ == old(s)@ + op_text(*op),
{
    match op {
        Operation::Plus => {
            s.append("\tpop rax\n");
            s.append("\tpop rdi\n");
            s.append("\tadd rax, rdi\n");
            s.append("\tpush rax\n");
        },
        Operation::Minus => {
            s.append("\tpop rdi\n");
            s.append("\tpop rax\n");
            s.append("\tsub rax, rdi\n");
            s.append("\tpush rax\n");
        },
        Operation::Push(x) => {
            s.append("\tpush ");
            push_dec_i64(s, *x);
            s.append("\n");
        },
        Operation::Dump => {
            s.append("\tpop rdi\n");
            s.append("\tcall dump\n");
        },
    }
    proof {
        assert(final(s)@ =~= old(s)@ + op_text(*op));
    }
}

/// Generates the complete assembly program for an operation sequence.
pub fn compile(program: &Vec<Operation>) -> (s: String)
    ensures
        s@ == program_text(program@),
{
    let mut s = String::new();
    emit_prelude(&mut s);
    emit_dump_routine(&mut s);
    s.append("\n");
    s.append("_start:\n");
    proof {
        assert(s@ =~= header_text());
    }
    let mut i: usize = 0;
    while i < program.len()
        invariant
            i <= program.len(),
            s@ == header_text() + body_text(program@.take(i as int)),
        decreases program.len() - i,
    {
        lower_op(&mut s, &program[i]);
        proof {
            assert(program@.take(i + 1 as int).drop_last() =~= program@.take(i as int));
            assert(program@.take(i + 1 as int).last() == program@[i as int]);
            assert(s@ =~= header_text() + body_text(program@.take(i + 1 as int)));
        }
        i = i + 1;
    }
    s.append("\tmov rax, 60\n");
    s.append("\tmov rdi, 0\n");
    s.append("\tsyscall\n");
    proof {
        assert(program@.take(program.len() as int) =~= program@);
        assert(s@ =~= program_text(program@));
    }
    s
}

/// Every generated program ends with the exit sequence, whose status operand
/// is the literal 0: the generated executable always exits with status 0,
/// whatever it pushed or printed.
pub proof fn lemma_exit_status_zero(program: Seq<Operation>)
    ensures
        program_text(program).len() >= exit_text().len(),
        program_text(program).skip(
            program_text(program).len() - exit_text().len(),
        ) == exit_text(),
{
    assert(program_text(program).skip(
        program_text(program).len() - exit_text().len(),
    ) =~= exit_text());
}

/// The generator is deterministic: the output is a function of the operation
/// sequence alone, so two runs on the same program produce identical text.
pub proof fn lemma_deterministic(program: Seq<Operation>, first: Seq<char>, second: Seq<char>)
    requires
        first == program_text(program),
        second == program_text(program),
    ensures
        first == second,
{
}

/// The fixed sample program: push 10, push 15, add, print.
pub open spec fn sample_ops() -> Seq<Operation> {
    seq![
        Operation::Push(10),
        Operation::Push(15),
        Operation::Plus,
        Operation::Dump,
    ]
}

/// Builds the fixed sample program.
pub fn sample_program() -> (p: Vec<Operation>)
    ensures
        p@ == sample_ops(),
{
    let p: Vec<Operation> = vec![
        Operation::Push(10),
        Operation::Push(15),
        Operation::Plus,
        Operation::Dump,
    ];
    proof {
        assert(p@ =~= sample_ops());
    }
    p
}

/// The fixed sample program, run on the machine model, prints exactly "25"
/// followed by a newline and leaves the operand stack empty; by
/// [`lemma_exit_status_zero`] the generated executable then exits with
/// status 0.
pub proof fn lemma_sample_program_output()
    ensures
        run(sample_ops()).out == "25\n"@,
        run(sample_ops()).stack == Seq::<int>::empty(),
{
    let vals: Seq<i64> = seq![10i64, 15i64];
    assert(ints_of(vals) =~= seq![10int, 15int]);
    assert(seq![10int, 15int].drop_last() =~= seq![10int]);
    assert(seq![10int].drop_last() =~= Seq::<int>::empty());
    assert(isum(Seq::<int>::empty()) == 0);
    assert(isum(seq![10int]) == 10);
    assert(isum(ints_of(vals)) == 25);
    assert(sum_program(vals) =~= sample_ops());
    crate::machine::lemma_sum_program_prints_sum(vals);
    assert(dec_nat(2) == seq![digit_char(2)]);
    assert(dec_nat(25) == dec_nat(2).push(digit_char(5)));
    reveal_strlit("25\n");
    assert(dec_nat(25) + seq!['\n'] =~= "25\n"@);
}

} // verus!
