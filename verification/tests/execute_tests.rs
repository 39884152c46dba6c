use wolf_asm::decode::{
    Add, And, Cmp, Div, Divru, Ja, Jae, Jb, Jbe, Je, Jg, Jge, Jl, Jle, Jne, Jns, Js, Mov, Mul,
    Mull, Mulu, Not, Or, Pop, Push, Rem, Sub, Test, Xor,
};
use wolf_asm::operands::Location;
use wolf_asm::execute::ExecuteError;
use wolf_asm::flags::{Flags, CF, OF};
use wolf_asm::flags::CF::{Carry, NoCarry};
use wolf_asm::flags::OF::{NoOverflow, Overflow};
use wolf_asm::flags::SF::{NegativeSign, PositiveSign};
use wolf_asm::flags::ZF::{NonZero, Zero};
use wolf_asm::layout::Reg;
use wolf_asm::machine::Machine;
use wolf_asm::memory::Memory;
use wolf_asm::operands::{Destination, Source};
use wolf_asm::registers::Registers;
use wolf_asm::stdio::Stdio;

const TEST_MEMORY: u64 = 1024; // 1 kB

fn r(reg: u8) -> Reg {
    assert!(reg < 64);
    Reg { value: reg }
}

fn dest(reg: u8) -> Destination {
    Destination::Register(r(reg))
}

fn fresh_vm() -> Machine {
    Machine {
        program_counter: 0,
        memory: Memory::new(TEST_MEMORY as usize),
        registers: Registers::new(TEST_MEMORY),
        flags: Flags::init(),
        io: Stdio::new(),
    }
}

fn reg_value(vm: &Machine, reg: u8) -> u64 {
    vm.registers.load(r(reg))
}

#[test]
fn add_flags() {
    fn add(a: i128, b: i128, expected: u64, flags: Flags) {
        let mut vm = fresh_vm();
        Mov { dest: dest(0), source: Source::Immediate(a) }.execute(&mut vm).unwrap();
        Add { dest: dest(0), source: Source::Immediate(b) }.execute(&mut vm).unwrap();
        assert_eq!(reg_value(&vm, 0), expected);
        assert_eq!(vm.flags, flags);
    }

    let f = |carry, zero, sign, overflow| Flags { carry, zero, sign, overflow };
    add(32, -32, 0, f(Carry, Zero, PositiveSign, NoOverflow));
    add(32, -34, -2i64 as u64, f(NoCarry, NonZero, NegativeSign, NoOverflow));
    add(33, 27, 60, f(NoCarry, NonZero, PositiveSign, NoOverflow));
    add(
        0xffffffffffffffffu64 as i128,
        1,
        0,
        f(Carry, Zero, PositiveSign, NoOverflow),
    );
    add(
        0x7fffffffffffffffi64 as i128,
        1,
        i64::MIN as u64,
        f(NoCarry, NonZero, NegativeSign, Overflow),
    );
}

#[test]
fn sub_flags() {
    fn sub(a: i128, b: i128, expected: u64, flags: Flags) {
        let mut vm = fresh_vm();
        Mov { dest: dest(0), source: Source::Immediate(a) }.execute(&mut vm).unwrap();
        Sub { dest: dest(0), source: Source::Immediate(b) }.execute(&mut vm).unwrap();
        assert_eq!(reg_value(&vm, 0), expected);
        assert_eq!(vm.flags, flags);
    }

    let f = |carry, zero, sign, overflow| Flags { carry, zero, sign, overflow };
    sub(32, 32, 0, f(NoCarry, Zero, PositiveSign, NoOverflow));
    sub(32, 34, -2i64 as u64, f(Carry, NonZero, NegativeSign, NoOverflow));
    sub(33, -27, 60, f(Carry, NonZero, PositiveSign, NoOverflow));
    sub(
        0xffffffffffffffffu64 as i128,
        -1,
        0,
        f(NoCarry, Zero, PositiveSign, NoOverflow),
    );
    sub(
        0x7fffffffffffffffi64 as i128,
        -1,
        i64::MIN as u64,
        f(Carry, NonZero, NegativeSign, Overflow),
    );
}

#[test]
fn cmp_flags() {
    fn cmp(a: i128, b: i128, flags: Flags) {
        let mut vm = fresh_vm();
        Mov { dest: dest(0), source: Source::Immediate(a) }.execute(&mut vm).unwrap();
        Cmp { source1: Source::Register(r(0)), source2: Source::Immediate(b) }
            .execute(&mut vm)
            .unwrap();
        // The register is unchanged by a compare.
        assert_eq!(reg_value(&vm, 0), (a as u64), "register changed by cmp");
        assert_eq!(vm.flags, flags);
    }

    let f = |carry, zero, sign, overflow| Flags { carry, zero, sign, overflow };
    cmp(32, 32, f(NoCarry, Zero, PositiveSign, NoOverflow));
    cmp(32, 34, f(Carry, NonZero, NegativeSign, NoOverflow));
    cmp(33, -27, f(Carry, NonZero, PositiveSign, NoOverflow));
    cmp(
        0xffffffffffffffffu64 as i128,
        -1,
        f(NoCarry, Zero, PositiveSign, NoOverflow),
    );
    cmp(
        0x7fffffffffffffffi64 as i128,
        -1,
        f(Carry, NonZero, NegativeSign, Overflow),
    );
}

#[test]
fn mul_flags() {
    fn mul(a: i128, b: i128, expected: u64, carry: CF, overflow: OF) {
        let mut vm = fresh_vm();
        Mov { dest: dest(0), source: Source::Immediate(a) }.execute(&mut vm).unwrap();
        Mul { dest: dest(0), source: Source::Immediate(b) }.execute(&mut vm).unwrap();
        assert_eq!(reg_value(&vm, 0), expected);
        assert_eq!(vm.flags.carry, carry);
        assert_eq!(vm.flags.overflow, overflow);
    }

    mul(32, 0, 0, NoCarry, NoOverflow);
    mul(32, 1, 32, NoCarry, NoOverflow);
    mul(32, -1, -32i64 as u64, NoCarry, NoOverflow);

    mul(32, -34, -1088i64 as u64, NoCarry, NoOverflow);
    mul(33, 27, 891, NoCarry, NoOverflow);

    mul(
        0x1fffffffffffffffi64 as i128,
        0x1fffffffffffffffi64 as i128,
        -4611686018427387903i64 as u64,
        Carry,
        Overflow,
    );
    mul(
        0x7fffffffffffffffi64 as i128,
        0x7fffffffffffffffi64 as i128,
        1,
        Carry,
        Overflow,
    );
}

#[test]
fn mulu_flags() {
    fn mulu(a: i128, b: i128, expected: u64, carry: CF, overflow: OF) {
        let mut vm = fresh_vm();
        Mov { dest: dest(0), source: Source::Immediate(a) }.execute(&mut vm).unwrap();
        Mulu { dest: dest(0), source: Source::Immediate(b) }.execute(&mut vm).unwrap();
        assert_eq!(reg_value(&vm, 0), expected);
        assert_eq!(vm.flags.carry, carry);
        assert_eq!(vm.flags.overflow, overflow);
    }

    mulu(32, 0, 0, NoCarry, NoOverflow);
    mulu(32, 1, 32, NoCarry, NoOverflow);

    mulu(33, 27, 891, NoCarry, NoOverflow);

    mulu(
        0x1fffffffffffffffu64 as i128,
        0x1fffffffffffffffu64 as i128,
        0xc000000000000001,
        Carry,
        Overflow,
    );
    mulu(
        0xffffffffffffffffu64 as i128,
        0xffffffffffffffffu64 as i128,
        1,
        Carry,
        Overflow,
    );
    mulu(
        0x7fffffffffffffffi64 as i128,
        0x7fffffffffffffffi64 as i128,
        1,
        Carry,
        Overflow,
    );
}

#[test]
fn mull_wide_product() {
    // 2^32 squared is 2^64: low word zero, high word one.
    let mut vm = fresh_vm();
    Mov { dest: dest(0), source: Source::Immediate(0x100000000) }.execute(&mut vm).unwrap();
    Mull { dest_hi: dest(1), dest: dest(0), source: Source::Immediate(0x100000000) }
        .execute(&mut vm)
        .unwrap();
    assert_eq!(reg_value(&vm, 0), 0);
    assert_eq!(reg_value(&vm, 1), 1);

    // A negative product has its 128-bit two's complement split.
    let mut vm = fresh_vm();
    Mov { dest: dest(0), source: Source::Immediate(-1) }.execute(&mut vm).unwrap();
    Mull { dest_hi: dest(1), dest: dest(0), source: Source::Immediate(2) }
        .execute(&mut vm)
        .unwrap();
    assert_eq!(reg_value(&vm, 0) as i64, -2);
    assert_eq!(reg_value(&vm, 1), u64::MAX);
}

#[test]
fn division_semantics() {
    // Signed division truncates toward zero; the remainder follows the
    // dividend's sign.
    fn div_rem(a: i64, b: i64, q: i64, rem: i64) {
        let mut vm = fresh_vm();
        Mov { dest: dest(0), source: Source::Immediate(a as i128) }.execute(&mut vm).unwrap();
        Div { dest: dest(0), source: Source::Immediate(b as i128) }.execute(&mut vm).unwrap();
        assert_eq!(reg_value(&vm, 0) as i64, q, "{} / {}", a, b);

        let mut vm = fresh_vm();
        Mov { dest: dest(0), source: Source::Immediate(a as i128) }.execute(&mut vm).unwrap();
        Rem { dest: dest(0), source: Source::Immediate(b as i128) }.execute(&mut vm).unwrap();
        assert_eq!(reg_value(&vm, 0) as i64, rem, "{} % {}", a, b);
    }

    div_rem(7, 2, 3, 1);
    div_rem(-7, 2, -3, -1);
    div_rem(7, -2, -3, 1);
    div_rem(-7, -2, 3, -1);
    div_rem(i64::MIN, -1, i64::MIN, 0);

    // Unsigned quotient and remainder land in both destinations.
    let mut vm = fresh_vm();
    Mov { dest: dest(0), source: Source::Immediate(43) }.execute(&mut vm).unwrap();
    Divru { dest_rem: dest(1), dest: dest(0), source: Source::Immediate(5) }
        .execute(&mut vm)
        .unwrap();
    assert_eq!(reg_value(&vm, 0), 8);
    assert_eq!(reg_value(&vm, 1), 3);
}

#[test]
fn divide_by_zero_is_an_error() {
    let mut vm = fresh_vm();
    Mov { dest: dest(0), source: Source::Immediate(7) }.execute(&mut vm).unwrap();
    let r = Div { dest: dest(0), source: Source::Immediate(0) }.execute(&mut vm);
    assert_eq!(r, Err(ExecuteError::DivideByZero));
    // The machine is unchanged by the fault.
    assert_eq!(reg_value(&vm, 0), 7);
}

#[test]
fn push_pop_round_trip() {
    // `push 42; pop $1` leaves 42 in the register and the stack pointer
    // where it started.
    let mut vm = fresh_vm();
    let sp_before = reg_value(&vm, 63);
    Push { source: Source::Immediate(42) }.execute(&mut vm).unwrap();
    assert_eq!(reg_value(&vm, 63), sp_before - 8);
    Pop { dest: dest(1) }.execute(&mut vm).unwrap();
    assert_eq!(reg_value(&vm, 1), 42);
    assert_eq!(reg_value(&vm, 63), sp_before);
}

#[test]
fn bitwise_ops_and_flags() {
    let mut vm = fresh_vm();
    Mov { dest: dest(0), source: Source::Immediate(0b1100) }.execute(&mut vm).unwrap();
    And { dest: dest(0), source: Source::Immediate(0b1010) }.execute(&mut vm).unwrap();
    assert_eq!(reg_value(&vm, 0), 0b1000);
    assert_eq!(vm.flags.carry, NoCarry);
    assert_eq!(vm.flags.overflow, NoOverflow);
    assert_eq!(vm.flags.zero, wolf_asm::flags::ZF::NonZero);

    Or { dest: dest(0), source: Source::Immediate(0b0011) }.execute(&mut vm).unwrap();
    assert_eq!(reg_value(&vm, 0), 0b1011);

    Xor { dest: dest(0), source: Source::Immediate(0b1011) }.execute(&mut vm).unwrap();
    assert_eq!(reg_value(&vm, 0), 0);
    assert_eq!(vm.flags.zero, wolf_asm::flags::ZF::Zero);

    Not { dest: dest(0) }.execute(&mut vm).unwrap();
    assert_eq!(reg_value(&vm, 0), u64::MAX);
    // `not` leaves the flags alone.
    assert_eq!(vm.flags.zero, wolf_asm::flags::ZF::Zero);

    // `test` sets the AND flags without writing back.
    Mov { dest: dest(1), source: Source::Immediate(0b0101) }.execute(&mut vm).unwrap();
    Test { source1: Source::Register(r(1)), source2: Source::Immediate(0b1010) }
        .execute(&mut vm)
        .unwrap();
    assert_eq!(vm.flags.zero, wolf_asm::flags::ZF::Zero);
    assert_eq!(reg_value(&vm, 1), 0b0101);
}

#[test]
fn conditional_jumps_follow_the_flag_table() {
    // After `cmp 3, 5` (signed and unsigned less).
    fn after_cmp(a: i128, b: i128) -> Machine {
        let mut vm = fresh_vm();
        Mov { dest: dest(0), source: Source::Immediate(a) }.execute(&mut vm).unwrap();
        Cmp { source1: Source::Register(r(0)), source2: Source::Immediate(b) }
            .execute(&mut vm)
            .unwrap();
        vm
    }
    let target = Location::Immediate(0x80);

    let mut vm = after_cmp(3, 5);
    Jl { loc: target }.execute(&mut vm).unwrap();
    assert_eq!(vm.program_counter, 0x80, "3 < 5 takes jl");

    let mut vm = after_cmp(3, 5);
    Jge { loc: target }.execute(&mut vm).unwrap();
    assert_eq!(vm.program_counter, 0, "3 < 5 does not take jge");

    let mut vm = after_cmp(3, 5);
    Jb { loc: target }.execute(&mut vm).unwrap();
    assert_eq!(vm.program_counter, 0x80, "3 below 5 takes jb");

    let mut vm = after_cmp(5, 5);
    Je { loc: target }.execute(&mut vm).unwrap();
    assert_eq!(vm.program_counter, 0x80, "equal takes je");

    let mut vm = after_cmp(5, 5);
    Jne { loc: target }.execute(&mut vm).unwrap();
    assert_eq!(vm.program_counter, 0, "equal does not take jne");

    let mut vm = after_cmp(7, 5);
    Jg { loc: target }.execute(&mut vm).unwrap();
    assert_eq!(vm.program_counter, 0x80, "7 > 5 takes jg");

    let mut vm = after_cmp(7, 5);
    Ja { loc: target }.execute(&mut vm).unwrap();
    assert_eq!(vm.program_counter, 0x80, "7 above 5 takes ja");

    let mut vm = after_cmp(5, 5);
    Jle { loc: target }.execute(&mut vm).unwrap();
    assert_eq!(vm.program_counter, 0x80, "equal takes jle");

    let mut vm = after_cmp(5, 5);
    Jae { loc: target }.execute(&mut vm).unwrap();
    assert_eq!(vm.program_counter, 0x80, "equal takes jae");

    let mut vm = after_cmp(5, 5);
    Jbe { loc: target }.execute(&mut vm).unwrap();
    assert_eq!(vm.program_counter, 0x80, "equal takes jbe");

    // Signed and unsigned comparisons part ways on a negative operand:
    // -1 is signed-less but unsigned-above.
    let mut vm = after_cmp(-1, 5);
    Jl { loc: target }.execute(&mut vm).unwrap();
    assert_eq!(vm.program_counter, 0x80, "-1 < 5 takes jl");

    let mut vm = after_cmp(-1, 5);
    Ja { loc: target }.execute(&mut vm).unwrap();
    assert_eq!(vm.program_counter, 0x80, "-1 is above 5 unsigned");
}

#[test]
fn sign_flag_jumps() {
    let target = Location::Immediate(0x80);
    let mut vm = fresh_vm();
    Mov { dest: dest(0), source: Source::Immediate(0) }.execute(&mut vm).unwrap();
    Sub { dest: dest(0), source: Source::Immediate(1) }.execute(&mut vm).unwrap();
    Js { loc: target }.execute(&mut vm).unwrap();
    assert_eq!(vm.program_counter, 0x80, "a negative result takes js");

    let mut vm = fresh_vm();
    Mov { dest: dest(0), source: Source::Immediate(1) }.execute(&mut vm).unwrap();
    Sub { dest: dest(0), source: Source::Immediate(1) }.execute(&mut vm).unwrap();
    Jns { loc: target }.execute(&mut vm).unwrap();
    assert_eq!(vm.program_counter, 0x80, "a non-negative result takes jns");
}
