use wolf_asm::ast;
use wolf_asm::diag::{DiagKind, Diagnostics, Level};
use wolf_asm::executable::{Executable, Stmt};
use wolf_asm::flags::Flags;
use wolf_asm::label_offsets::LabelOffsets;
use wolf_asm::layout::{Imm, InstrLayout, Layout, Reg, L2};
use wolf_asm::machine::{Machine, ProgramStatus};
use wolf_asm::memory::Memory;
use wolf_asm::registers::Registers;
use wolf_asm::span::Span;
use wolf_asm::stdio::Stdio;
use wolf_asm::validate::validate_program;

const TEST_MEMORY: u64 = 1024;

fn z() -> Span {
    Span { start: 0, end: 0 }
}

fn id(name: &[u8]) -> ast::Ident {
    ast::Ident { value: name.to_vec(), span: z() }
}

fn num(value: i128) -> ast::Integer {
    ast::Integer { value, span: z() }
}

fn reg_arg(n: u8) -> ast::InstrArg {
    ast::InstrArg::Register(ast::Register {
        kind: ast::RegisterKind::Numbered(n),
        offset: None,
        span: z(),
    })
}

fn imm_arg(value: i128) -> ast::InstrArg {
    ast::InstrArg::Immediate(num(value))
}

fn name_arg(name: &[u8]) -> ast::InstrArg {
    ast::InstrArg::Name(id(name))
}

fn instr(name: &[u8], args: Vec<ast::InstrArg>) -> ast::Stmt {
    ast::Stmt::Instr(ast::Instr { name: id(name), args })
}

fn code_header() -> ast::Stmt {
    ast::Stmt::Section(ast::Section { kind: ast::SectionKind::Code(z()), span: z() })
}

fn static_header() -> ast::Stmt {
    ast::Stmt::Section(ast::Section { kind: ast::SectionKind::Static(z()), span: z() })
}

fn label(name: &[u8]) -> ast::Stmt {
    ast::Stmt::Label(id(name))
}

fn assemble(stmts: Vec<ast::Stmt>) -> (Executable, Diagnostics) {
    let mut diag = Diagnostics::new();
    let program = validate_program(ast::Program { stmts }, &mut diag);
    let labels = LabelOffsets::new(&program);
    let exec = Executable::layout_executable(program, &mut diag, &labels);
    (exec, diag)
}

fn run_to_quit(exec: &Executable) -> Machine {
    let mut vm = Machine {
        program_counter: 0,
        memory: Memory::new(TEST_MEMORY as usize),
        registers: Registers::new(TEST_MEMORY),
        flags: Flags::init(),
        io: Stdio::new(),
    };
    exec.write_into(&mut vm.memory, 0).unwrap();
    vm.push_quit_addr().unwrap();
    let mut budget = 1000;
    loop {
        match vm.step() {
            Ok(ProgramStatus::Quit) => break,
            Ok(ProgramStatus::Continue) => (),
            other => panic!("run stopped unexpectedly: {:?}", other),
        }
        budget -= 1;
        assert!(budget > 0, "program did not reach the quit sentinel");
    }
    vm
}

fn error_kinds(diag: &Diagnostics) -> Vec<DiagKind> {
    diag.records
        .iter()
        .filter(|d| d.level == Level::Error)
        .map(|d| d.kind)
        .collect()
}

fn r(n: u8) -> Reg {
    Reg { value: n }
}

#[test]
fn assemble_and_run_arithmetic() {
    let (exec, diag) = assemble(vec![
        code_header(),
        instr(b"mov", vec![reg_arg(0), imm_arg(5)]),
        instr(b"add", vec![reg_arg(0), imm_arg(37)]),
        instr(b"push", vec![reg_arg(0)]),
        instr(b"pop", vec![reg_arg(1)]),
        instr(b"ret", vec![]),
    ]);
    assert_eq!(error_kinds(&diag), vec![]);
    assert_eq!(exec.code_section.len(), 5);
    let vm = run_to_quit(&exec);
    assert_eq!(vm.registers.load(r(1)), 42);
}

#[test]
fn assemble_and_run_branching() {
    // The taken jump skips the second mov, so the register keeps 1.
    let (exec, diag) = assemble(vec![
        code_header(),
        instr(b"mov", vec![reg_arg(1), imm_arg(1)]),
        instr(b"jmp", vec![name_arg(b"end")]),
        instr(b"mov", vec![reg_arg(1), imm_arg(2)]),
        label(b"end"),
        instr(b"ret", vec![]),
    ]);
    assert_eq!(error_kinds(&diag), vec![]);
    let vm = run_to_quit(&exec);
    assert_eq!(vm.registers.load(r(1)), 1);
}

#[test]
fn label_offsets_accumulate_sizes() {
    let mut diag = Diagnostics::new();
    let program = validate_program(
        ast::Program {
            stmts: vec![
                code_header(),
                label(b"start"),
                instr(b"nop", vec![]),
                label(b"target"),
                instr(b"nop", vec![]),
                static_header(),
                label(b"data"),
                ast::Stmt::StaticData(ast::StaticData::StaticZero(ast::StaticZero {
                    nbytes: num(16),
                    span: z(),
                })),
                label(b"tail"),
                ast::Stmt::StaticData(ast::StaticData::StaticBytes(ast::StaticBytes {
                    size: 4,
                    value: num(7),
                    span: z(),
                })),
            ],
        },
        &mut diag,
    );
    assert_eq!(error_kinds(&diag), vec![]);
    let labels = LabelOffsets::new(&program);
    assert_eq!(labels.lookup(&id(b"start"), &mut diag).value, 0);
    assert_eq!(labels.lookup(&id(b"target"), &mut diag).value, 8);
    assert_eq!(labels.lookup(&id(b"data"), &mut diag).value, 16);
    assert_eq!(labels.lookup(&id(b"tail"), &mut diag).value, 32);
    assert_eq!(error_kinds(&diag), vec![]);
    // An unknown label is diagnosed and recovers as zero.
    assert_eq!(labels.lookup(&id(b"nowhere"), &mut diag).value, 0);
    assert_eq!(error_kinds(&diag), vec![DiagKind::UnknownLabel]);
}

#[test]
fn constants_substitute_into_operands() {
    let (exec, diag) = assemble(vec![
        ast::Stmt::Const(ast::Const { name: id(b"answer"), value: num(42), span: z() }),
        code_header(),
        instr(b"mov", vec![reg_arg(0), name_arg(b"answer")]),
    ]);
    assert_eq!(error_kinds(&diag), vec![]);
    assert_eq!(
        exec.code_section,
        vec![Stmt::Instr(InstrLayout {
            base_opcode: 228,
            layout: Layout::L2(L2(r(0), Imm { bits: 46, value: 42 })),
        })]
    );
}

#[test]
fn duplicate_labels_are_diagnosed() {
    let (_, diag) = assemble(vec![
        code_header(),
        label(b"twice"),
        instr(b"nop", vec![]),
        label(b"twice"),
        instr(b"nop", vec![]),
    ]);
    assert_eq!(error_kinds(&diag), vec![DiagKind::DuplicateName]);
}

#[test]
fn section_faults_are_diagnosed() {
    // A statement outside any section.
    let (_, diag) = assemble(vec![instr(b"nop", vec![])]);
    assert_eq!(error_kinds(&diag), vec![DiagKind::SectionOrderError]);

    // Duplicate `.code` sections.
    let (_, diag) = assemble(vec![code_header(), code_header()]);
    assert_eq!(error_kinds(&diag), vec![DiagKind::DuplicateSection]);

    // `.code` after `.static` breaks the required order.
    let (_, diag) = assemble(vec![static_header(), code_header()]);
    assert_eq!(error_kinds(&diag), vec![DiagKind::SectionOrderError]);
}

#[test]
fn out_of_range_immediate_recovers_as_zero() {
    // The mov immediate field holds 46 bits; this one needs more.
    let (exec, diag) = assemble(vec![
        code_header(),
        instr(b"mov", vec![reg_arg(0), imm_arg(1i128 << 50)]),
    ]);
    assert_eq!(error_kinds(&diag), vec![DiagKind::ImmediateRangeError]);
    assert_eq!(
        exec.code_section,
        vec![Stmt::Instr(InstrLayout {
            base_opcode: 228,
            layout: Layout::L2(L2(r(0), Imm { bits: 46, value: 0 })),
        })]
    );
}

#[test]
fn unknown_mnemonic_recovers_as_nop() {
    let (exec, diag) = assemble(vec![
        code_header(),
        instr(b"frobnicate", vec![reg_arg(0)]),
    ]);
    assert_eq!(error_kinds(&diag), vec![DiagKind::UnknownMnemonic]);
    assert_eq!(
        exec.code_section,
        vec![Stmt::Instr(InstrLayout {
            base_opcode: 0,
            layout: Layout::L1(wolf_asm::layout::L1(r(0), r(0))),
        })]
    );
}

#[test]
fn missing_arguments_are_padded_with_register_zero() {
    let (exec, diag) = assemble(vec![code_header(), instr(b"add", vec![reg_arg(3)])]);
    assert_eq!(error_kinds(&diag), vec![DiagKind::OperandArityError]);
    // The missing source recovers as register zero.
    assert_eq!(
        exec.code_section,
        vec![Stmt::Instr(InstrLayout {
            base_opcode: 12,
            layout: Layout::L1(wolf_asm::layout::L1(r(3), r(0))),
        })]
    );
}

#[test]
fn static_data_is_emitted_into_memory() {
    let (exec, diag) = assemble(vec![
        code_header(),
        instr(b"ret", vec![]),
        static_header(),
        ast::Stmt::StaticData(ast::StaticData::StaticBytes(ast::StaticBytes {
            size: 4,
            value: num(0x01020304),
            span: z(),
        })),
        ast::Stmt::StaticData(ast::StaticData::StaticByteStr(ast::StaticByteStr {
            bytes: ast::Bytes { value: b"ok".to_vec(), span: z() },
            span: z(),
        })),
    ]);
    assert_eq!(error_kinds(&diag), vec![]);
    let mut mem = Memory::new(64);
    let end = exec.write_into(&mut mem, 0).unwrap();
    // One 8-byte instruction, four value bytes, two literal bytes.
    assert_eq!(end, 14);
    assert_eq!(mem.read_u32(8).unwrap(), 0x01020304);
    assert_eq!(mem.get(12).unwrap(), b'o');
    assert_eq!(mem.get(13).unwrap(), b'k');
}

#[test]
fn wrong_operand_kind_is_diagnosed() {
    // A destination must be a register; an immediate there is diagnosed and
    // recovers as register zero.
    let (exec, diag) = assemble(vec![
        code_header(),
        instr(b"mov", vec![imm_arg(5), imm_arg(6)]),
    ]);
    assert_eq!(error_kinds(&diag), vec![DiagKind::OperandKindError]);
    assert_eq!(
        exec.code_section,
        vec![Stmt::Instr(InstrLayout {
            base_opcode: 228,
            layout: Layout::L2(L2(r(0), Imm { bits: 46, value: 6 })),
        })]
    );
}

#[test]
fn unresolved_include_is_diagnosed() {
    let (_, diag) = assemble(vec![
        ast::Stmt::Include(ast::Include {
            path: ast::Bytes { value: b"lib.wa".to_vec(), span: z() },
        }),
        code_header(),
        instr(b"ret", vec![]),
    ]);
    assert_eq!(error_kinds(&diag), vec![DiagKind::IncludeError]);
}

#[test]
fn negative_static_bytes_assemble_in_signed_range() {
    // The accepted range runs from the signed minimum to the unsigned
    // maximum of the width: -1 fits every width and emits all-ones bytes.
    let (exec, diag) = assemble(vec![
        code_header(),
        instr(b"ret", vec![]),
        static_header(),
        ast::Stmt::StaticData(ast::StaticData::StaticBytes(ast::StaticBytes {
            size: 1,
            value: num(-1),
            span: z(),
        })),
        ast::Stmt::StaticData(ast::StaticData::StaticBytes(ast::StaticBytes {
            size: 2,
            value: num(-2),
            span: z(),
        })),
    ]);
    assert_eq!(error_kinds(&diag), vec![]);
    let mut mem = Memory::new(64);
    exec.write_into(&mut mem, 0).unwrap();
    assert_eq!(mem.get(8).unwrap(), 0xff);
    assert_eq!(mem.read_u16(9).unwrap(), 0xfffe);
}

#[test]
fn out_of_range_static_bytes_are_diagnosed() {
    // Below the signed minimum of the width.
    let (_, diag) = assemble(vec![
        static_header(),
        ast::Stmt::StaticData(ast::StaticData::StaticBytes(ast::StaticBytes {
            size: 1,
            value: num(-129),
            span: z(),
        })),
    ]);
    assert_eq!(error_kinds(&diag), vec![DiagKind::ImmediateRangeError]);

    // Above the unsigned maximum of the width.
    let (_, diag) = assemble(vec![
        static_header(),
        ast::Stmt::StaticData(ast::StaticData::StaticBytes(ast::StaticBytes {
            size: 1,
            value: num(256),
            span: z(),
        })),
    ]);
    assert_eq!(error_kinds(&diag), vec![DiagKind::ImmediateRangeError]);
}

#[test]
fn constant_redefinition_warns_only_on_changed_value() {
    // A redefinition with the same value is silent.
    let (_, diag) = assemble(vec![
        ast::Stmt::Const(ast::Const { name: id(b"k"), value: num(7), span: z() }),
        ast::Stmt::Const(ast::Const { name: id(b"k"), value: num(7), span: z() }),
        code_header(),
        instr(b"ret", vec![]),
    ]);
    assert!(diag.records.is_empty());

    // A redefinition with another value earns a warning, and the last value
    // wins.
    let (exec, diag) = assemble(vec![
        ast::Stmt::Const(ast::Const { name: id(b"k"), value: num(7), span: z() }),
        ast::Stmt::Const(ast::Const { name: id(b"k"), value: num(9), span: z() }),
        code_header(),
        instr(b"mov", vec![reg_arg(0), name_arg(b"k")]),
    ]);
    assert_eq!(error_kinds(&diag), vec![]);
    let warnings: Vec<_> = diag.records.iter().filter(|d| d.level == Level::Warning).collect();
    assert_eq!(warnings.len(), 1);
    assert_eq!(warnings[0].kind, DiagKind::DuplicateName);
    assert_eq!(
        exec.code_section,
        vec![Stmt::Instr(InstrLayout {
            base_opcode: 228,
            layout: Layout::L2(L2(r(0), Imm { bits: 46, value: 9 })),
        })]
    );
}

#[test]
fn constant_colliding_with_label_is_an_error() {
    let (_, diag) = assemble(vec![
        ast::Stmt::Const(ast::Const { name: id(b"here"), value: num(7), span: z() }),
        code_header(),
        label(b"here"),
        instr(b"ret", vec![]),
    ]);
    assert_eq!(error_kinds(&diag), vec![DiagKind::DuplicateName]);
}

#[test]
fn labels_survive_a_statement_outside_any_section() {
    // The faulting statement is dropped but its pending labels stay and
    // attach to the next landed statement.
    let mut diag = Diagnostics::new();
    let program = validate_program(
        ast::Program {
            stmts: vec![
                label(b"entry"),
                instr(b"nop", vec![]),
                code_header(),
                instr(b"ret", vec![]),
            ],
        },
        &mut diag,
    );
    assert_eq!(error_kinds(&diag), vec![DiagKind::SectionOrderError]);
    let labels = LabelOffsets::new(&program);
    assert_eq!(labels.lookup(&id(b"entry"), &mut diag).value, 0);
    assert_eq!(error_kinds(&diag), vec![DiagKind::SectionOrderError]);
}

#[test]
fn image_that_does_not_fit_is_rejected() {
    let (exec, diag) = assemble(vec![code_header(), instr(b"ret", vec![])]);
    assert_eq!(error_kinds(&diag), vec![]);
    let mut mem = Memory::new(4);
    let e = exec.write_into(&mut mem, 0).unwrap_err();
    assert_eq!(e.capacity, 4);
    assert_eq!(mem.capacity(), 4);
}
