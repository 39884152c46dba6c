use wolf_asm::decode::{DecodeError, Instr, Load1, Loadu1, Store4};
use wolf_asm::execute::{ExecuteError, STDIN_ADDR, STDOUT_ADDR};
use wolf_asm::flags::Flags;
use wolf_asm::layout::{Imm, InstrLayout, Layout, Reg, L1, L10};
use wolf_asm::machine::{ExecutionError, Machine, ProgramStatus};
use wolf_asm::memory::Memory;
use wolf_asm::operands::{Destination, Location, Source};
use wolf_asm::registers::Registers;
use wolf_asm::stdio::Stdio;

const TEST_MEMORY: u64 = 1024;

fn fresh_vm() -> Machine {
    Machine {
        program_counter: 0,
        memory: Memory::new(TEST_MEMORY as usize),
        registers: Registers::new(TEST_MEMORY),
        flags: Flags::init(),
        io: Stdio::new(),
    }
}

fn nullary(base_opcode: u16) -> u64 {
    InstrLayout {
        base_opcode,
        layout: Layout::L1(L1(Reg { value: 0 }, Reg { value: 0 })),
    }
    .to_binary()
}

fn unary_imm(base_opcode: u16, value: i64) -> u64 {
    InstrLayout { base_opcode, layout: Layout::L10(L10(Imm { bits: 52, value })) }.to_binary()
}

#[test]
fn call_then_ret_resumes_after_call() {
    // call target; nop; nop; target: ret — after ret the program counter is
    // the address of the instruction following the call.
    let mut vm = fresh_vm();
    // call (base opcode 612) with an immediate target of 24.
    vm.memory.write_u64(0, unary_imm(612, 24)).unwrap();
    // nop (base opcode 0) twice.
    vm.memory.write_u64(8, nullary(0)).unwrap();
    vm.memory.write_u64(16, nullary(0)).unwrap();
    // target: ret (base opcode 624).
    vm.memory.write_u64(24, nullary(624)).unwrap();

    assert_eq!(vm.step().unwrap(), ProgramStatus::Continue);
    assert_eq!(vm.program_counter, 24);
    assert_eq!(vm.step().unwrap(), ProgramStatus::Continue);
    assert_eq!(vm.program_counter, 8);
}

#[test]
fn quit_sentinel_stops_the_run() {
    // The sentinel pushed before the run makes the entry point's final ret
    // terminate cleanly.
    let mut vm = fresh_vm();
    vm.push_quit_addr().unwrap();
    vm.memory.write_u64(0, nullary(624)).unwrap(); // ret
    assert_eq!(vm.step().unwrap(), ProgramStatus::Quit);
    assert_eq!(vm.program_counter, u64::MAX);
}

#[test]
fn decode_rejects_unknown_opcode() {
    let mut vm = fresh_vm();
    // Opcode 11 is the twelfth slot of the first kind: no layout there.
    vm.memory.write_u64(0, 11u64 << 52).unwrap();
    match vm.step() {
        Err(ExecutionError::DecodeError(DecodeError::InvalidOpcode(op))) => assert_eq!(op, 11),
        other => panic!("unexpected step outcome: {:?}", other),
    }
}

#[test]
fn decode_rejects_unsupported_layout() {
    // pop (base opcode 396) only accepts the single-register layout; the
    // immediate layout at offset 9 is not one of them.
    let word = unary_imm(396, 1);
    assert_eq!(
        Instr::decode(word),
        Err(DecodeError::UnsupportedInstructionLayout)
    );
}

#[test]
fn fetch_out_of_bounds_fails() {
    let mut vm = fresh_vm();
    vm.program_counter = TEST_MEMORY - 4;
    match vm.step() {
        Err(ExecutionError::OutOfBounds(e)) => {
            assert_eq!(e.addr, TEST_MEMORY - 4);
            assert_eq!(e.capacity, TEST_MEMORY);
        },
        other => panic!("unexpected step outcome: {:?}", other),
    }
}

#[test]
fn stdout_writes_are_utf8_scalars() {
    let mut vm = fresh_vm();
    // 'A'
    Store4 { loc: Location::Immediate(STDOUT_ADDR as i128), source: Source::Immediate(65) }
        .execute(&mut vm)
        .unwrap();
    // A three-byte scalar.
    Store4 { loc: Location::Immediate(STDOUT_ADDR as i128), source: Source::Immediate(0x4e16) }
        .execute(&mut vm)
        .unwrap();
    // A surrogate value is no scalar: the replacement character is emitted.
    Store4 { loc: Location::Immediate(STDOUT_ADDR as i128), source: Source::Immediate(0xd800) }
        .execute(&mut vm)
        .unwrap();
    let out = vm.io.take_output();
    let mut expected = vec![65u8];
    expected.extend_from_slice(&[0xe4, 0xb8, 0x96]);
    expected.extend_from_slice(&[0xef, 0xbf, 0xbd]);
    assert_eq!(out, expected);
    assert_eq!(vm.io.take_output(), Vec::<u8>::new());
}

#[test]
fn stdin_reads_bytes_then_eof_zero() {
    let mut vm = fresh_vm();
    let dest = Destination::Register(Reg { value: 3 });
    let loc = Location::Immediate(STDIN_ADDR as i128);

    // An open, empty input blocks the read and changes nothing.
    let r = Loadu1 { dest, loc }.execute(&mut vm);
    assert_eq!(r, Err(ExecuteError::AwaitingInput));

    vm.io.provide_input(&vec![90, 200]);
    Loadu1 { dest, loc }.execute(&mut vm).unwrap();
    assert_eq!(vm.registers.load(Reg { value: 3 }), 90);

    // A sign-extending single-byte load from input sign-extends the byte.
    Load1 { dest, loc }.execute(&mut vm).unwrap();
    assert_eq!(vm.registers.load(Reg { value: 3 }) as i64, 200u8 as i8 as i64);

    // Once the input is closed, reads return zero.
    vm.io.close_input();
    Loadu1 { dest, loc }.execute(&mut vm).unwrap();
    assert_eq!(vm.registers.load(Reg { value: 3 }), 0);
}

#[test]
fn awaiting_input_leaves_the_machine_unchanged() {
    let mut vm = fresh_vm();
    // loadu1 $0, STDIN (base opcode 252, layout L2: register + immediate).
    let word = InstrLayout {
        base_opcode: 252,
        layout: Layout::L2(wolf_asm::layout::L2(
            Reg { value: 0 },
            Imm { bits: 46, value: STDIN_ADDR as i64 },
        )),
    }
    .to_binary();
    vm.memory.write_u64(0, word).unwrap();
    assert_eq!(vm.step().unwrap(), ProgramStatus::AwaitingInput);
    assert_eq!(vm.program_counter, 0);
    // With input supplied, the same step succeeds.
    vm.io.provide_input(&vec![7]);
    assert_eq!(vm.step().unwrap(), ProgramStatus::Continue);
    assert_eq!(vm.registers.load(Reg { value: 0 }), 7);
    assert_eq!(vm.program_counter, 8);
}

#[test]
fn memory_rejects_out_of_bounds() {
    let mut mem = Memory::new(16);
    assert!(mem.write_u64(8, 0x0102030405060708).is_ok());
    assert_eq!(mem.read_u64(8).unwrap(), 0x0102030405060708);
    assert_eq!(mem.read_u16(8).unwrap(), 0x0708);
    assert_eq!(mem.read_u32(8).unwrap(), 0x05060708);
    assert_eq!(mem.get(8).unwrap(), 0x08);
    let e = mem.read_u64(9).unwrap_err();
    assert_eq!(e.addr, 9);
    assert_eq!(e.capacity, 16);
    assert!(mem.set(16, 1).is_err());
    assert!(mem.write_u16(15, 1).is_err());
    // A failed write leaves memory unchanged.
    assert_eq!(mem.read_u64(8).unwrap(), 0x0102030405060708);
}

#[test]
fn registers_initialize_stack_and_frame_pointers() {
    let regs = Registers::new(TEST_MEMORY);
    assert_eq!(regs.load_sp(), TEST_MEMORY);
    assert_eq!(regs.load_fp(), TEST_MEMORY);
    for i in 0..62u8 {
        assert_eq!(regs.load(Reg { value: i }), 0);
    }
}
