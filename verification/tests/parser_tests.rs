use wolf_asm::ast;
use wolf_asm::diag::Diagnostics;
use wolf_asm::executable::Executable;
use wolf_asm::flags::Flags;
use wolf_asm::label_offsets::LabelOffsets;
use wolf_asm::layout::Reg;
use wolf_asm::lexer::collect_tokens;
use wolf_asm::machine::{Machine, ProgramStatus};
use wolf_asm::memory::Memory;
use wolf_asm::parser::parse_program;
use wolf_asm::registers::Registers;
use wolf_asm::stdio::Stdio;
use wolf_asm::validate::validate_program;

fn parse(source: &[u8]) -> (ast::Program, Diagnostics) {
    let mut diag = Diagnostics::new();
    let tokens = collect_tokens(source.to_vec(), &mut diag);
    let program = parse_program(&tokens, &mut diag);
    (program, diag)
}

#[test]
fn parse_statements() {
    let (program, diag) = parse(
        b"section .code\nstart: mov $0, counter\nret\nsection .static\n.const counter 7\ncounter_cell: .b4 7\n.zero 16\n.bytes \"hi\"\n",
    );
    assert!(diag.records.is_empty(), "unexpected diagnostics: {:?}", diag.records);
    // Statements in order: header, label, mov, ret, header, const, label,
    // three data directives.
    assert_eq!(program.stmts.len(), 10);
    assert!(matches!(&program.stmts[0], ast::Stmt::Section(s) if matches!(s.kind, ast::SectionKind::Code(_))));
    assert!(matches!(&program.stmts[1], ast::Stmt::Label(l) if l.value == b"start".to_vec()));
    assert!(matches!(&program.stmts[2], ast::Stmt::Instr(i) if i.name.value == b"mov".to_vec() && i.args.len() == 2));
    assert!(matches!(&program.stmts[3], ast::Stmt::Instr(i) if i.name.value == b"ret".to_vec() && i.args.is_empty()));
    assert!(matches!(&program.stmts[4], ast::Stmt::Section(s) if matches!(s.kind, ast::SectionKind::Static(_))));
    assert!(matches!(&program.stmts[5], ast::Stmt::Const(c) if c.name.value == b"counter".to_vec() && c.value.value == 7));
    assert!(matches!(&program.stmts[6], ast::Stmt::Label(l) if l.value == b"counter_cell".to_vec()));
    assert!(matches!(
        &program.stmts[7],
        ast::Stmt::StaticData(ast::StaticData::StaticBytes(b)) if b.size == 4 && b.value.value == 7
    ));
    assert!(matches!(
        &program.stmts[8],
        ast::Stmt::StaticData(ast::StaticData::StaticZero(zz)) if zz.nbytes.value == 16
    ));
    assert!(matches!(
        &program.stmts[9],
        ast::Stmt::StaticData(ast::StaticData::StaticByteStr(b)) if b.bytes.value == b"hi".to_vec()
    ));
}

#[test]
fn parse_reports_faults_and_recovers() {
    let (program, diag) = parse(b"section .data\nmov $0, 1\n");
    // The bad section name is diagnosed; the next line still parses.
    assert_eq!(diag.records.len(), 1);
    assert_eq!(program.stmts.len(), 1);
    assert!(matches!(&program.stmts[0], ast::Stmt::Instr(i) if i.name.value == b"mov".to_vec()));
}

#[test]
fn source_text_assembles_and_runs() {
    let source = b"# sums two values on the stack\nsection .code\nmov $0, 5\nadd $0, 37\npush $0\npop $1\nret\n";
    let (program, mut diag) = parse(source);
    assert!(diag.records.is_empty());
    let validated = validate_program(program, &mut diag);
    let labels = LabelOffsets::new(&validated);
    let exec = Executable::layout_executable(validated, &mut diag, &labels);
    assert!(diag.records.is_empty());

    let mut vm = Machine {
        program_counter: 0,
        memory: Memory::new(1024),
        registers: Registers::new(1024),
        flags: Flags::init(),
        io: Stdio::new(),
    };
    exec.write_into(&mut vm.memory, 0).unwrap();
    vm.push_quit_addr().unwrap();
    let mut budget = 100;
    loop {
        match vm.step() {
            Ok(ProgramStatus::Quit) => break,
            Ok(ProgramStatus::Continue) => (),
            other => panic!("run stopped unexpectedly: {:?}", other),
        }
        budget -= 1;
        assert!(budget > 0);
    }
    assert_eq!(vm.registers.load(Reg { value: 1 }), 42);
}
