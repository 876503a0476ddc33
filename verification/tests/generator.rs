use stackgen::decimal::decimal_string;
use stackgen::lowering::{compile, sample_program};
use stackgen::ops::Operation;

const HEADER: &str = "format ELF64 executable

entry _start

dump:
\tmov rax, rdi
\tmov r10, 0
\tdec rsp
\tmov byte [rsp], 10
\tinc r10
.prepend_digit:
\tmov rdx, 0
\tmov rbx, 10
\tdiv rbx
\tadd rdx, 48
\tdec rsp
\tmov [rsp], dl
\tinc r10
\tcmp rax, 0
\tjne .prepend_digit
.print_digit:
\tmov rax, 1
\tmov rdi, 1
\tmov rsi, rsp
\tmov rdx, r10
\tsyscall
\tadd rsp, r10
\tret

_start:
";

const EXIT: &str = "\tmov rax, 60
\tmov rdi, 0
\tsyscall
";

#[test]
fn sample_program_text() {
    let text = compile(&sample_program());
    let expected = format!(
        "{}{}{}",
        HEADER,
        "\tpush 10
\tpush 15
\tpop rax
\tpop rdi
\tadd rax, rdi
\tpush rax
\tpop rdi
\tcall dump
",
        EXIT
    );
    assert_eq!(text, expected);
}

#[test]
fn empty_program_is_header_and_exit() {
    let text = compile(&vec![]);
    assert_eq!(text, format!("{}{}", HEADER, EXIT));
}

#[test]
fn generator_is_deterministic() {
    let program = sample_program();
    let first = compile(&program);
    let second = compile(&program);
    assert_eq!(first, second);
}

#[test]
fn exit_sequence_closes_every_program() {
    let programs: Vec<Vec<Operation>> = vec![
        vec![],
        vec![Operation::Push(3), Operation::Dump],
        vec![Operation::Push(1), Operation::Push(2), Operation::Minus],
        sample_program(),
    ];
    for program in &programs {
        let text = compile(program);
        assert!(text.ends_with("\tmov rax, 60\n\tmov rdi, 0\n\tsyscall\n"));
    }
}

#[test]
fn minus_pops_subtrahend_first() {
    let text = compile(&vec![
        Operation::Push(7),
        Operation::Push(3),
        Operation::Minus,
        Operation::Dump,
    ]);
    // rdi takes the most recently pushed value (the subtrahend), rax the
    // earlier one, so the generated code computes 7 - 3, not 3 - 7.
    assert!(text.contains("\tpush 7\n\tpush 3\n\tpop rdi\n\tpop rax\n\tsub rax, rdi\n\tpush rax\n"));
}

#[test]
fn plus_lowering_lines() {
    let text = compile(&vec![Operation::Plus]);
    let expected = format!(
        "{}{}{}",
        HEADER, "\tpop rax\n\tpop rdi\n\tadd rax, rdi\n\tpush rax\n", EXIT
    );
    assert_eq!(text, expected);
}

#[test]
fn dump_lowering_lines() {
    let text = compile(&vec![Operation::Dump]);
    let expected = format!("{}{}{}", HEADER, "\tpop rdi\n\tcall dump\n", EXIT);
    assert_eq!(text, expected);
}

#[test]
fn push_negative_constant() {
    let text = compile(&vec![Operation::Push(-42)]);
    assert!(text.contains("\tpush -42\n"));
}

#[test]
fn decimal_rendering_exact_values() {
    assert_eq!(decimal_string(0), "0");
    assert_eq!(decimal_string(7), "7");
    assert_eq!(decimal_string(10), "10");
    assert_eq!(decimal_string(25), "25");
    assert_eq!(decimal_string(-1), "-1");
    assert_eq!(decimal_string(-305), "-305");
    assert_eq!(decimal_string(1_000_000), "1000000");
}

#[test]
fn decimal_rendering_extremes() {
    assert_eq!(decimal_string(i64::MAX), "9223372036854775807");
    assert_eq!(decimal_string(i64::MIN), "-9223372036854775808");
}

#[test]
fn decimal_rendering_matches_std() {
    let values: Vec<i64> = vec![0, 1, -1, 9, 10, 99, 100, -99, 12345, -67890, i64::MAX, i64::MIN];
    for v in values {
        assert_eq!(decimal_string(v), v.to_string());
    }
}
