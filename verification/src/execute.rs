use vstd::prelude::*;
use crate::decode::{
    Add, And, Call, Cmp, Div, Divr, Divru, Divu, Instr, Ja, Jae, Jb, Jbe, Je, Jg, Jge, Jl, Jle,
    Jmp, Jne, Jno, Jns, Jnz, Jo, Js, Jz, Load1, Load2, Load4, Load8, Loadu1, Loadu2, Loadu4,
    Loadu8, Mov, Mul, Mull, Mullu, Mulu, Nop, Not, Or, Pop, Push, Rem, Remu, Ret, Store1, Store2,
    Store4, Store8, Sub, Test, Xor,
};
use crate::flags::{CF, Flags, OF, SF, ZF};
use crate::machine::Machine;
use crate::memory::{OutOfBounds, le_at, written};
use crate::operands::{Destination, Location, Source};
use crate::stdio::{InputByte, Stdio, utf8_bytes};

verus! {

/// The program counter value that stops execution.
pub const QUIT_ADDR: u64 = 0xffffffffffffffff;

/// The memory-mapped address of standard output.
pub const STDOUT_ADDR: u64 = 0xffff000c;

/// The memory-mapped address of standard input.
pub const STDIN_ADDR: u64 = 0xffff0004;

/// The byte a read returns once the input has ended.
pub const EOF_BYTE: u8 = 0;

/// A fault that terminates the run.
#[derive(Debug, Clone, Copy, PartialEq, Eq, Structural)]
pub enum ExecuteError {
    /// A memory access outside the machine's capacity.
    OutOfBounds(OutOfBounds),
    /// Divided a number by zero.
    DivideByZero,
    /// An input read could not complete yet; the machine is unchanged and
    /// the instruction can be retried once input arrives.
    AwaitingInput,
}

/// A 64-bit wrap of an arbitrary integer: its value modulo `2^64`.
pub open spec fn wrap64(v: int) -> u64 {
    (v % 0x10000000000000000) as u64
}

/// The signed reading of a 64-bit word.
pub open spec fn as_signed(u: u64) -> int {
    if u < 0x8000000000000000 {
        u as int
    } else {
        u - 0x10000000000000000
    }
}

pub open spec fn zero_flag(r: u64) -> ZF {
    if r == 0 {
        ZF::Zero
    } else {
        ZF::NonZero
    }
}

pub open spec fn sign_flag(r: u64) -> SF {
    if r >= 0x8000000000000000 {
        SF::NegativeSign
    } else {
        SF::PositiveSign
    }
}

/// The result of `add`: the 64-bit sum.
pub open spec fn add_result(l: u64, r: u64) -> u64 {
    wrap64(l + r)
}

/// The flags after `add`: carry on unsigned wrap, overflow on signed wrap,
/// zero and sign from the result.
pub open spec fn add_flags_spec(l: u64, r: u64) -> Flags {
    Flags {
        carry: if l + r > u64::MAX {
            CF::Carry
        } else {
            CF::NoCarry
        },
        zero: zero_flag(add_result(l, r)),
        sign: sign_flag(add_result(l, r)),
        overflow: if -0x8000000000000000 <= as_signed(l) + as_signed(r) <= 0x7fffffffffffffff {
            OF::NoOverflow
        } else {
            OF::Overflow
        },
    }
}

/// The result of `sub` and `cmp`: the 64-bit difference.
pub open spec fn sub_result(l: u64, r: u64) -> u64 {
    wrap64(l - r)
}

/// The flags after `sub` and `cmp`: carry on unsigned borrow, overflow on
/// signed wrap, zero and sign from the result.
pub open spec fn sub_flags_spec(l: u64, r: u64) -> Flags {
    Flags {
        carry: if l < r {
            CF::Carry
        } else {
            CF::NoCarry
        },
        zero: zero_flag(sub_result(l, r)),
        sign: sign_flag(sub_result(l, r)),
        overflow: if -0x8000000000000000 <= as_signed(l) - as_signed(r) <= 0x7fffffffffffffff {
            OF::NoOverflow
        } else {
            OF::Overflow
        },
    }
}

/// The flags after a bitwise operation: carry and overflow cleared, zero and
/// sign from the result.
pub open spec fn logic_flags_spec(r: u64) -> Flags {
    Flags { carry: CF::NoCarry, zero: zero_flag(r), sign: sign_flag(r), overflow: OF::NoOverflow }
}

/// The flags after `mul`/`mulu` and their wide forms: carry and overflow
/// from the product, zero and sign kept from before.
pub open spec fn mul_flags_spec(prev: Flags, overflow: bool) -> Flags {
    Flags {
        carry: if overflow {
            CF::Carry
        } else {
            CF::NoCarry
        },
        zero: prev.zero,
        sign: prev.sign,
        overflow: if overflow {
            OF::Overflow
        } else {
            OF::NoOverflow
        },
    }
}

/// The signed 128-bit product of two words read as signed.
pub open spec fn smul_product(l: u64, r: u64) -> int {
    as_signed(l) * as_signed(r)
}

/// Whether a signed product cannot be represented in 64 bits.
pub open spec fn smul_overflows(l: u64, r: u64) -> bool {
    !(-0x8000000000000000 <= smul_product(l, r) <= 0x7fffffffffffffff)
}

/// The unsigned 128-bit product of two words.
pub open spec fn umul_product(l: u64, r: u64) -> int {
    (l as int) * (r as int)
}

/// Whether an unsigned product cannot be represented in 64 bits.
pub open spec fn umul_overflows(l: u64, r: u64) -> bool {
    umul_product(l, r) > u64::MAX
}

/// The magnitude of a signed reading.
pub open spec fn abs_of(v: int) -> int {
    if v >= 0 {
        v
    } else {
        -v
    }
}

/// Truncated (round-toward-zero) signed division, as the machine performs
/// it: the magnitude quotient with the sign of the operands' product.
pub open spec fn tdiv(a: int, b: int) -> int {
    if (a >= 0) == (b >= 0) {
        abs_of(a) / abs_of(b)
    } else {
        -(abs_of(a) / abs_of(b))
    }
}

/// The remainder of truncated signed division: the magnitude remainder with
/// the sign of the dividend.
pub open spec fn trem(a: int, b: int) -> int {
    if a >= 0 {
        abs_of(a) % abs_of(b)
    } else {
        -(abs_of(a) % abs_of(b))
    }
}

/// The value a load writes: `n` bytes, zero- or sign-extended to 64 bits.
pub open spec fn extend_spec(v: int, n: int, signed: bool) -> u64 {
    if signed && n == 1 && v >= 0x80 {
        (v + 0xffffffffffffff00) as u64
    } else if signed && n == 2 && v >= 0x8000 {
        (v + 0xffffffffffff0000) as u64
    } else if signed && n == 4 && v >= 0x80000000 {
        (v + 0xffffffff00000000) as u64
    } else {
        v as u64
    }
}

/// The scalar a store of width `n` sends to the output address: the low
/// four bytes of the stored value (fewer when the store is narrower).
pub open spec fn store_scalar(v: u64, n: int) -> u32 {
    if n == 1 {
        (v % 0x100) as u32
    } else if n == 2 {
        (v % 0x10000) as u32
    } else {
        (v % 0x100000000) as u32
    }
}

/// Everything except the register file and the flags is unchanged.
pub open spec fn same_but_regs_flags(pre: Machine, post: Machine) -> bool {
    &&& post.program_counter == pre.program_counter
    &&& post.memory == pre.memory
    &&& post.io == pre.io
}

/// One register written, flags set, nothing else changed.
pub open spec fn write_post(
    pre: Machine,
    post: Machine,
    dest: Destination,
    value: u64,
    flags: Flags,
) -> bool {
    &&& same_but_regs_flags(pre, post)
    &&& post.registers@ == pre.registers@.update(dest.index_spec(), value)
    &&& post.flags == flags
}

/// Two registers written in order (low then high), flags set, nothing else
/// changed.
pub open spec fn write2_post(
    pre: Machine,
    post: Machine,
    dest: Destination,
    value: u64,
    dest_hi: Destination,
    hi: u64,
    flags: Flags,
) -> bool {
    &&& same_but_regs_flags(pre, post)
    &&& post.registers@ == pre.registers@.update(dest.index_spec(), value).update(
        dest_hi.index_spec(),
        hi,
    )
    &&& post.flags == flags
}

/// Only the flags changed.
pub open spec fn flags_post(pre: Machine, post: Machine, flags: Flags) -> bool {
    &&& same_but_regs_flags(pre, post)
    &&& post.registers == pre.registers
    &&& post.flags == flags
}

/// What a load of width `n` does: reads from the effective address —
/// intercepting the input address, where a byte is consumed, end of input
/// reads as zero, and an open but empty buffer blocks — extends the value
/// to 64 bits, and writes it to the destination.
pub open spec fn load_post(
    pre: Machine,
    post: Machine,
    r: Result<(), ExecuteError>,
    dest: Destination,
    loc: Location,
    n: int,
    signed: bool,
) -> bool {
    let addr = loc.value_spec(pre.registers@);
    &&& post.program_counter == pre.program_counter
    &&& post.memory == pre.memory
    &&& post.flags == pre.flags
    &&& if addr == STDIN_ADDR {
        if pre.io.input_pos < pre.io.input@.len() {
            &&& r is Ok
            &&& post.io == (Stdio { input_pos: (pre.io.input_pos + 1) as usize, ..pre.io })
            &&& post.registers@ == pre.registers@.update(
                dest.index_spec(),
                extend_spec(pre.io.input@[pre.io.input_pos as int] as int, n, signed),
            )
        } else if pre.io.input_closed {
            &&& r is Ok
            &&& post.io == pre.io
            &&& post.registers@ == pre.registers@.update(dest.index_spec(), 0u64)
        } else {
            &&& r == Err::<(), _>(ExecuteError::AwaitingInput)
            &&& post == pre
        }
    } else {
        &&& post.io == pre.io
        &&& if addr + n <= pre.memory@.len() {
            &&& r is Ok
            &&& post.registers@ == pre.registers@.update(
                dest.index_spec(),
                extend_spec(le_at(pre.memory@, addr as int, n), n, signed),
            )
        } else {
            &&& r == Err::<(), _>(
                ExecuteError::OutOfBounds(
                    OutOfBounds { addr, capacity: pre.memory@.len() as u64 },
                ),
            )
            &&& post.registers == pre.registers
        }
    }
}

/// What a store of width `n` does: writes the low `n` bytes of the source
/// to the effective address — intercepting the output address, where the
/// value is emitted as a Unicode scalar instead.
pub open spec fn store_post(
    pre: Machine,
    post: Machine,
    r: Result<(), ExecuteError>,
    loc: Location,
    source: Source,
    n: int,
) -> bool {
    let addr = loc.value_spec(pre.registers@);
    let v = source.value_spec(pre.registers@);
    &&& post.program_counter == pre.program_counter
    &&& post.registers == pre.registers
    &&& post.flags == pre.flags
    &&& if addr == STDOUT_ADDR {
        &&& r is Ok
        &&& post.memory == pre.memory
        &&& post.io == (Stdio {
            output: post.io.output,
            ..pre.io
        })
        &&& post.io.output@ == pre.io.output@ + utf8_bytes(store_scalar(v, n))
    } else {
        &&& post.io == pre.io
        &&& if addr + n <= pre.memory@.len() {
            &&& r is Ok
            &&& post.memory@ == written(pre.memory@, addr as int, n, (v as int) % pow8(n))
        } else {
            &&& r == Err::<(), _>(
                ExecuteError::OutOfBounds(
                    OutOfBounds { addr, capacity: pre.memory@.len() as u64 },
                ),
            )
            &&& post.memory == pre.memory
        }
    }
}

/// `2^(8n)` for the store widths.
pub open spec fn pow8(n: int) -> int {
    if n == 1 {
        0x100
    } else if n == 2 {
        0x10000
    } else if n == 4 {
        0x100000000
    } else {
        0x10000000000000000
    }
}

/// What a conditional jump does: when taken, the program counter becomes
/// the effective address; otherwise nothing changes.
pub open spec fn jump_post(
    pre: Machine,
    post: Machine,
    r: Result<(), ExecuteError>,
    loc: Location,
    taken: bool,
) -> bool {
    &&& r is Ok
    &&& post.memory == pre.memory
    &&& post.io == pre.io
    &&& post.flags == pre.flags
    &&& post.registers == pre.registers
    &&& post.program_counter == if taken {
        loc.value_spec(pre.registers@)
    } else {
        pre.program_counter
    }
}

/// What `push` does: the stack pointer drops by eight, then the value is
/// written at the new top as a 64-bit word.
pub open spec fn push_post(
    pre: Machine,
    post: Machine,
    r: Result<(), ExecuteError>,
    v: u64,
) -> bool {
    let top = wrap64(pre.registers@[63] - 8);
    &&& post.program_counter == pre.program_counter
    &&& post.flags == pre.flags
    &&& post.io == pre.io
    &&& post.registers@ == pre.registers@.update(63, top)
    &&& if top + 8 <= pre.memory@.len() {
        &&& r is Ok
        &&& post.memory@ == written(pre.memory@, top as int, 8, v as int)
    } else {
        &&& r == Err::<(), _>(
            ExecuteError::OutOfBounds(
                OutOfBounds { addr: top, capacity: pre.memory@.len() as u64 },
            ),
        )
        &&& post.memory == pre.memory
    }
}

/// What `pop` does: the 64-bit word at the stack top moves into the
/// destination, then the stack pointer rises by eight.
pub open spec fn pop_post(
    pre: Machine,
    post: Machine,
    r: Result<(), ExecuteError>,
    dest: Destination,
) -> bool {
    let sp = pre.registers@[63];
    &&& post.program_counter == pre.program_counter
    &&& post.flags == pre.flags
    &&& post.io == pre.io
    &&& post.memory == pre.memory
    &&& if sp + 8 <= pre.memory@.len() {
        &&& r is Ok
        &&& post.registers@ == pre.registers@.update(
            dest.index_spec(),
            le_at(pre.memory@, sp as int, 8) as u64,
        ).update(63, wrap64(sp + 8))
    } else {
        &&& r == Err::<(), _>(
            ExecuteError::OutOfBounds(OutOfBounds { addr: sp, capacity: pre.memory@.len() as u64 }),
        )
        &&& post.registers == pre.registers
    }
}

/// What `call` does: the program counter (already pointing past the call)
/// is pushed, then execution jumps to the effective address, which is
/// evaluated after the stack pointer moved.
pub open spec fn call_post(
    pre: Machine,
    post: Machine,
    r: Result<(), ExecuteError>,
    loc: Location,
) -> bool {
    let top = wrap64(pre.registers@[63] - 8);
    let regs2 = pre.registers@.update(63, top);
    &&& post.flags == pre.flags
    &&& post.io == pre.io
    &&& post.registers@ == regs2
    &&& if top + 8 <= pre.memory@.len() {
        &&& r is Ok
        &&& post.memory@ == written(pre.memory@, top as int, 8, pre.program_counter as int)
        &&& post.program_counter == loc.value_spec(regs2)
    } else {
        &&& r == Err::<(), _>(
            ExecuteError::OutOfBounds(
                OutOfBounds { addr: top, capacity: pre.memory@.len() as u64 },
            ),
        )
        &&& post.memory == pre.memory
        &&& post.program_counter == pre.program_counter
    }
}

/// What `ret` does: the 64-bit word at the stack top becomes the program
/// counter, then the stack pointer rises by eight.
pub open spec fn ret_post(pre: Machine, post: Machine, r: Result<(), ExecuteError>) -> bool {
    let sp = pre.registers@[63];
    &&& post.flags == pre.flags
    &&& post.io == pre.io
    &&& post.memory == pre.memory
    &&& if sp + 8 <= pre.memory@.len() {
        &&& r is Ok
        &&& post.program_counter == le_at(pre.memory@, sp as int, 8) as u64
        &&& post.registers@ == pre.registers@.update(63, wrap64(sp + 8))
    } else {
        &&& r == Err::<(), _>(
            ExecuteError::OutOfBounds(OutOfBounds { addr: sp, capacity: pre.memory@.len() as u64 }),
        )
        &&& post == pre
    }
}

/// What a division-family instruction writing one result does. The divisor
/// being zero is a terminating error that changes nothing.
pub open spec fn div_post(
    pre: Machine,
    post: Machine,
    r: Result<(), ExecuteError>,
    dest: Destination,
    source: Source,
    result_if_ok: u64,
) -> bool {
    let b = source.value_spec(pre.registers@);
    if b == 0 {
        &&& r == Err::<(), _>(ExecuteError::DivideByZero)
        &&& post == pre
    } else {
        &&& r is Ok
        &&& write_post(pre, post, dest, result_if_ok, pre.flags)
    }
}

/// As `div_post`, for the forms that write a quotient and a remainder.
pub open spec fn div2_post(
    pre: Machine,
    post: Machine,
    r: Result<(), ExecuteError>,
    dest: Destination,
    dest2: Destination,
    source: Source,
    result_if_ok: u64,
    result2_if_ok: u64,
) -> bool {
    let b = source.value_spec(pre.registers@);
    if b == 0 {
        &&& r == Err::<(), _>(ExecuteError::DivideByZero)
        &&& post == pre
    } else {
        &&& r is Ok
        &&& write2_post(pre, post, dest, result_if_ok, dest2, result2_if_ok, pre.flags)
    }
}

/// The exact machine transformation of each instruction, relating the state
/// before (`pre`) to the state after (`post`) and the outcome.
pub open spec fn instr_post(
    i: Instr,
    pre: Machine,
    post: Machine,
    r: Result<(), ExecuteError>,
) -> bool {
    let regs = pre.registers@;
    match i {
        Instr::Nop(_) => r is Ok && post == pre,
        Instr::Add(x) => {
            let l = x.dest.value_spec(regs);
            let s = x.source.value_spec(regs);
            r is Ok && write_post(pre, post, x.dest, add_result(l, s), add_flags_spec(l, s))
        },
        Instr::Sub(x) => {
            let l = x.dest.value_spec(regs);
            let s = x.source.value_spec(regs);
            r is Ok && write_post(pre, post, x.dest, sub_result(l, s), sub_flags_spec(l, s))
        },
        Instr::Mul(x) => {
            let l = x.dest.value_spec(regs);
            let s = x.source.value_spec(regs);
            r is Ok && write_post(
                pre,
                post,
                x.dest,
                wrap64(smul_product(l, s)),
                mul_flags_spec(pre.flags, smul_overflows(l, s)),
            )
        },
        Instr::Mulu(x) => {
            let l = x.dest.value_spec(regs);
            let s = x.source.value_spec(regs);
            r is Ok && write_post(
                pre,
                post,
                x.dest,
                wrap64(umul_product(l, s)),
                mul_flags_spec(pre.flags, umul_overflows(l, s)),
            )
        },
        Instr::Mull(x) => {
            let l = x.dest.value_spec(regs);
            let s = x.source.value_spec(regs);
            let p = smul_product(l, s);
            r is Ok && write2_post(
                pre,
                post,
                x.dest,
                wrap64(p),
                x.dest_hi,
                wrap64(p / 0x10000000000000000),
                mul_flags_spec(pre.flags, false),
            )
        },
        Instr::Mullu(x) => {
            let l = x.dest.value_spec(regs);
            let s = x.source.value_spec(regs);
            let p = umul_product(l, s);
            r is Ok && write2_post(
                pre,
                post,
                x.dest,
                wrap64(p),
                x.dest_hi,
                wrap64(p / 0x10000000000000000),
                mul_flags_spec(pre.flags, false),
            )
        },
        Instr::Div(x) => {
            let l = x.dest.value_spec(regs);
            let s = x.source.value_spec(regs);
            div_post(pre, post, r, x.dest, x.source, wrap64(tdiv(as_signed(l), as_signed(s))))
        },
        Instr::Divu(x) => {
            let l = x.dest.value_spec(regs);
            let s = x.source.value_spec(regs);
            div_post(pre, post, r, x.dest, x.source, if s == 0 {
                0u64
            } else {
                (l as int / s as int) as u64
            })
        },
        Instr::Rem(x) => {
            let l = x.dest.value_spec(regs);
            let s = x.source.value_spec(regs);
            div_post(pre, post, r, x.dest, x.source, wrap64(trem(as_signed(l), as_signed(s))))
        },
        Instr::Remu(x) => {
            let l = x.dest.value_spec(regs);
            let s = x.source.value_spec(regs);
            div_post(pre, post, r, x.dest, x.source, if s == 0 {
                0u64
            } else {
                (l as int % s as int) as u64
            })
        },
        Instr::Divr(x) => {
            let l = x.dest.value_spec(regs);
            let s = x.source.value_spec(regs);
            div2_post(
                pre,
                post,
                r,
                x.dest,
                x.dest_rem,
                x.source,
                wrap64(tdiv(as_signed(l), as_signed(s))),
                wrap64(trem(as_signed(l), as_signed(s))),
            )
        },
        Instr::Divru(x) => {
            let l = x.dest.value_spec(regs);
            let s = x.source.value_spec(regs);
            div2_post(pre, post, r, x.dest, x.dest_rem, x.source, if s == 0 {
                0u64
            } else {
                (l as int / s as int) as u64
            }, if s == 0 {
                0u64
            } else {
                (l as int % s as int) as u64
            })
        },
        Instr::And(x) => {
            let l = x.dest.value_spec(regs);
            let s = x.source.value_spec(regs);
            r is Ok && write_post(pre, post, x.dest, l & s, logic_flags_spec(l & s))
        },
        Instr::Or(x) => {
            let l = x.dest.value_spec(regs);
            let s = x.source.value_spec(regs);
            r is Ok && write_post(pre, post, x.dest, l | s, logic_flags_spec(l | s))
        },
        Instr::Xor(x) => {
            let l = x.dest.value_spec(regs);
            let s = x.source.value_spec(regs);
            r is Ok && write_post(pre, post, x.dest, l ^ s, logic_flags_spec(l ^ s))
        },
        Instr::Not(x) => {
            let l = x.dest.value_spec(regs);
            r is Ok && write_post(pre, post, x.dest, !l, pre.flags)
        },
        Instr::Test(x) => {
            let l = x.source1.value_spec(regs);
            let s = x.source2.value_spec(regs);
            r is Ok && flags_post(pre, post, logic_flags_spec(l & s))
        },
        Instr::Cmp(x) => {
            let l = x.source1.value_spec(regs);
            let s = x.source2.value_spec(regs);
            r is Ok && flags_post(pre, post, sub_flags_spec(l, s))
        },
        Instr::Mov(x) => {
            let s = x.source.value_spec(regs);
            r is Ok && write_post(pre, post, x.dest, s, pre.flags)
        },
        Instr::Load1(x) => load_post(pre, post, r, x.dest, x.loc, 1, true),
        Instr::Loadu1(x) => load_post(pre, post, r, x.dest, x.loc, 1, false),
        Instr::Load2(x) => load_post(pre, post, r, x.dest, x.loc, 2, true),
        Instr::Loadu2(x) => load_post(pre, post, r, x.dest, x.loc, 2, false),
        Instr::Load4(x) => load_post(pre, post, r, x.dest, x.loc, 4, true),
        Instr::Loadu4(x) => load_post(pre, post, r, x.dest, x.loc, 4, false),
        Instr::Load8(x) => load_post(pre, post, r, x.dest, x.loc, 8, true),
        Instr::Loadu8(x) => load_post(pre, post, r, x.dest, x.loc, 8, false),
        Instr::Store1(x) => store_post(pre, post, r, x.loc, x.source, 1),
        Instr::Store2(x) => store_post(pre, post, r, x.loc, x.source, 2),
        Instr::Store4(x) => store_post(pre, post, r, x.loc, x.source, 4),
        Instr::Store8(x) => store_post(pre, post, r, x.loc, x.source, 8),
        Instr::Push(x) => push_post(
            pre,
            post,
            r,
            x.source.value_spec(regs.update(63, wrap64(regs[63] - 8))),
        ),
        Instr::Pop(x) => pop_post(pre, post, r, x.dest),
        Instr::Jmp(x) => jump_post(pre, post, r, x.loc, true),
        Instr::Je(x) => jump_post(pre, post, r, x.loc, pre.flags.zero is Zero),
        Instr::Jne(x) => jump_post(pre, post, r, x.loc, pre.flags.zero is NonZero),
        Instr::Jg(x) => jump_post(
            pre,
            post,
            r,
            x.loc,
            (pre.flags.sign is NegativeSign) == (pre.flags.overflow is Overflow)
                && pre.flags.zero is NonZero,
        ),
        Instr::Jge(x) => jump_post(
            pre,
            post,
            r,
            x.loc,
            (pre.flags.sign is NegativeSign) == (pre.flags.overflow is Overflow)
                || pre.flags.zero is Zero,
        ),
        Instr::Ja(x) => jump_post(
            pre,
            post,
            r,
            x.loc,
            pre.flags.carry is NoCarry && pre.flags.zero is NonZero,
        ),
        Instr::Jae(x) => jump_post(
            pre,
            post,
            r,
            x.loc,
            pre.flags.carry is NoCarry || pre.flags.zero is Zero,
        ),
        Instr::Jl(x) => jump_post(
            pre,
            post,
            r,
            x.loc,
            (pre.flags.sign is NegativeSign) != (pre.flags.overflow is Overflow),
        ),
        Instr::Jle(x) => jump_post(
            pre,
            post,
            r,
            x.loc,
            (pre.flags.sign is NegativeSign) != (pre.flags.overflow is Overflow)
                || pre.flags.zero is Zero,
        ),
        Instr::Jb(x) => jump_post(pre, post, r, x.loc, pre.flags.carry is Carry),
        Instr::Jbe(x) => jump_post(
            pre,
            post,
            r,
            x.loc,
            pre.flags.carry is Carry || pre.flags.zero is Zero,
        ),
        Instr::Jo(x) => jump_post(pre, post, r, x.loc, pre.flags.overflow is Overflow),
        Instr::Jno(x) => jump_post(pre, post, r, x.loc, pre.flags.overflow is NoOverflow),
        Instr::Jz(x) => jump_post(pre, post, r, x.loc, pre.flags.zero is Zero),
        Instr::Jnz(x) => jump_post(pre, post, r, x.loc, pre.flags.zero is NonZero),
        Instr::Js(x) => jump_post(pre, post, r, x.loc, pre.flags.sign is NegativeSign),
        Instr::Jns(x) => jump_post(pre, post, r, x.loc, pre.flags.sign is PositiveSign),
        Instr::Call(x) => call_post(pre, post, r, x.loc),
        Instr::Ret(_) => ret_post(pre, post, r),
    }
}

/// Adds two words, wrapping at the 64-bit boundary.
pub fn wrapping_add64(l: u64, r: u64) -> (res: u64)
    ensures
        res == wrap64(l + r),
{
    if r <= u64::MAX - l {
        l + r
    } else {
        l - (u64::MAX - r) - 1
    }
}

/// Subtracts two words, wrapping at the 64-bit boundary.
pub fn wrapping_sub64(l: u64, r: u64) -> (res: u64)
    ensures
        res == wrap64(l - r),
{
    if l >= r {
        l - r
    } else {
        l + (u64::MAX - r) + 1
    }
}

/// The signed reading of a word, as a machine integer.
fn as_signed_i64(u: u64) -> (r: i64)
    ensures
        r as int == as_signed(u),
{
    if u < 0x8000000000000000 {
        u as i64
    } else {
        ((u - 0x8000000000000000) as i64) - 0x7fffffffffffffff - 1
    }
}

/// The magnitude of a signed machine integer, as a word.
fn magnitude(a: i64) -> (r: u64)
    ensures
        r as int == abs_of(a as int),
{
    if a >= 0 {
        a as u64
    } else if a == -0x7fffffffffffffff - 1 {
        0x8000000000000000
    } else {
        (-a) as u64
    }
}

/// The 64-bit wrap of a negated word value.
fn wrapping_neg64(v: u64) -> (r: u64)
    ensures
        r == wrap64(-(v as int)),
{
    if v == 0 {
        0
    } else {
        u64::MAX - v + 1
    }
}

impl Nop {
    /// Does nothing.
    pub fn execute(self, vm: &mut Machine) -> (r: Result<(), ExecuteError>)
        requires
            old(vm).wf(),
        ensures
            final(vm).wf(),
            instr_post(Instr::Nop(self), *old(vm), *final(vm), r),
    {
        Ok(())
    }
}

impl Add {
    /// Adds the source to the destination and sets all four flags.
    pub fn execute(self, vm: &mut Machine) -> (r: Result<(), ExecuteError>)
        requires
            old(vm).wf(),
            self.dest.wf(),
            self.source.wf(),
        ensures
            final(vm).wf(),
            instr_post(Instr::Add(self), *old(vm), *final(vm), r),
    {
        let lhs: u64 = self.dest.into_value(vm);
        let rhs: u64 = self.source.into_value(vm);
        let result = wrapping_add64(lhs, rhs);
        let carry = rhs > 0 && lhs > u64::MAX - rhs;
        let signed_sum: i128 = as_signed_i64(lhs) as i128 + as_signed_i64(rhs) as i128;
        let overflow = signed_sum < -0x8000000000000000i128 || signed_sum > 0x7fffffffffffffffi128;
        let flags = Flags {
            carry: if carry {
                CF::Carry
            } else {
                CF::NoCarry
            },
            zero: if result == 0 {
                ZF::Zero
            } else {
                ZF::NonZero
            },
            sign: if result >= 0x8000000000000000 {
                SF::NegativeSign
            } else {
                SF::PositiveSign
            },
            overflow: if overflow {
                OF::Overflow
            } else {
                OF::NoOverflow
            },
        };
        vm.store_dest(self.dest, result);
        vm.flags = flags;
        Ok(())
    }
}

impl Sub {
    /// Subtracts the source from the destination and sets all four flags.
    pub fn execute(self, vm: &mut Machine) -> (r: Result<(), ExecuteError>)
        requires
            old(vm).wf(),
            self.dest.wf(),
            self.source.wf(),
        ensures
            final(vm).wf(),
            instr_post(Instr::Sub(self), *old(vm), *final(vm), r),
    {
        let lhs: u64 = self.dest.into_value(vm);
        let rhs: u64 = self.source.into_value(vm);
        let flags = sub_style_flags(lhs, rhs);
        let result = wrapping_sub64(lhs, rhs);
        vm.store_dest(self.dest, result);
        vm.flags = flags;
        Ok(())
    }
}

/// The flags `sub` and `cmp` compute for a pair of operands.
fn sub_style_flags(lhs: u64, rhs: u64) -> (flags: Flags)
    ensures
        flags == sub_flags_spec(lhs, rhs),
{
    let result = wrapping_sub64(lhs, rhs);
    let signed_diff: i128 = as_signed_i64(lhs) as i128 - as_signed_i64(rhs) as i128;
    let overflow = signed_diff < -0x8000000000000000i128 || signed_diff > 0x7fffffffffffffffi128;
    Flags {
        carry: if lhs < rhs {
            CF::Carry
        } else {
            CF::NoCarry
        },
        zero: if result == 0 {
            ZF::Zero
        } else {
            ZF::NonZero
        },
        sign: if result >= 0x8000000000000000 {
            SF::NegativeSign
        } else {
            SF::PositiveSign
        },
        overflow: if overflow {
            OF::Overflow
        } else {
            OF::NoOverflow
        },
    }
}

impl Cmp {
    /// Sets the flags of the subtraction without writing the result back.
    pub fn execute(self, vm: &mut Machine) -> (r: Result<(), ExecuteError>)
        requires
            old(vm).wf(),
            self.source1.wf(),
            self.source2.wf(),
        ensures
            final(vm).wf(),
            instr_post(Instr::Cmp(self), *old(vm), *final(vm), r),
    {
        let lhs: u64 = self.source1.into_value(vm);
        let rhs: u64 = self.source2.into_value(vm);
        vm.flags = sub_style_flags(lhs, rhs);
        Ok(())
    }
}

impl Test {
    /// Sets the flags of the bitwise AND without writing the result back.
    pub fn execute(self, vm: &mut Machine) -> (r: Result<(), ExecuteError>)
        requires
            old(vm).wf(),
            self.source1.wf(),
            self.source2.wf(),
        ensures
            final(vm).wf(),
            instr_post(Instr::Test(self), *old(vm), *final(vm), r),
    {
        let lhs: u64 = self.source1.into_value(vm);
        let rhs: u64 = self.source2.into_value(vm);
        vm.flags = logic_flags(lhs & rhs);
        Ok(())
    }
}

/// The flags a bitwise operation computes for its result.
fn logic_flags(result: u64) -> (flags: Flags)
    ensures
        flags == logic_flags_spec(result),
{
    Flags {
        carry: CF::NoCarry,
        zero: if result == 0 {
            ZF::Zero
        } else {
            ZF::NonZero
        },
        sign: if result >= 0x8000000000000000 {
            SF::NegativeSign
        } else {
            SF::PositiveSign
        },
        overflow: OF::NoOverflow,
    }
}

impl Mul {
    /// Multiplies signed, keeping the low 64 bits; carry and overflow are
    /// set when the signed product does not fit, zero and sign are kept.
    pub fn execute(self, vm: &mut Machine) -> (r: Result<(), ExecuteError>)
        requires
            old(vm).wf(),
            self.dest.wf(),
            self.source.wf(),
        ensures
            final(vm).wf(),
            instr_post(Instr::Mul(self), *old(vm), *final(vm), r),
    {
        let lhs: u64 = self.dest.into_value(vm);
        let rhs: u64 = self.source.into_value(vm);
        let (low, _high, overflow) = smul_wide(lhs, rhs);
        vm.flags = mul_style_flags(vm.flags, overflow);
        vm.store_dest(self.dest, low);
        Ok(())
    }
}

impl Mulu {
    /// Multiplies unsigned, keeping the low 64 bits; carry and overflow are
    /// set when the product does not fit, zero and sign are kept.
    pub fn execute(self, vm: &mut Machine) -> (r: Result<(), ExecuteError>)
        requires
            old(vm).wf(),
            self.dest.wf(),
            self.source.wf(),
        ensures
            final(vm).wf(),
            instr_post(Instr::Mulu(self), *old(vm), *final(vm), r),
    {
        let lhs: u64 = self.dest.into_value(vm);
        let rhs: u64 = self.source.into_value(vm);
        let (low, _high, overflow) = umul_wide(lhs, rhs);
        vm.flags = mul_style_flags(vm.flags, overflow);
        vm.store_dest(self.dest, low);
        Ok(())
    }
}

impl Mull {
    /// Multiplies signed to a 128-bit result: the low word goes to `dest`,
    /// the high word to `dest_hi`; carry and overflow are cleared.
    pub fn execute(self, vm: &mut Machine) -> (r: Result<(), ExecuteError>)
        requires
            old(vm).wf(),
            self.dest_hi.wf(),
            self.dest.wf(),
            self.source.wf(),
        ensures
            final(vm).wf(),
            instr_post(Instr::Mull(self), *old(vm), *final(vm), r),
    {
        let lhs: u64 = self.dest.into_value(vm);
        let rhs: u64 = self.source.into_value(vm);
        let (low, high, _overflow) = smul_wide(lhs, rhs);
        vm.flags = mul_style_flags(vm.flags, false);
        vm.store_dest(self.dest, low);
        vm.store_dest(self.dest_hi, high);
        Ok(())
    }
}

impl Mullu {
    /// Multiplies unsigned to a 128-bit result: the low word goes to
    /// `dest`, the high word to `dest_hi`; carry and overflow are cleared.
    pub fn execute(self, vm: &mut Machine) -> (r: Result<(), ExecuteError>)
        requires
            old(vm).wf(),
            self.dest_hi.wf(),
            self.dest.wf(),
            self.source.wf(),
        ensures
            final(vm).wf(),
            instr_post(Instr::Mullu(self), *old(vm), *final(vm), r),
    {
        let lhs: u64 = self.dest.into_value(vm);
        let rhs: u64 = self.source.into_value(vm);
        let (low, high, _overflow) = umul_wide(lhs, rhs);
        vm.flags = mul_style_flags(vm.flags, false);
        vm.store_dest(self.dest, low);
        vm.store_dest(self.dest_hi, high);
        Ok(())
    }
}

/// The flags a multiplication computes: carry and overflow together, zero
/// and sign untouched.
fn mul_style_flags(prev: Flags, overflow: bool) -> (flags: Flags)
    ensures
        flags == mul_flags_spec(prev, overflow),
{
    Flags {
        carry: if overflow {
            CF::Carry
        } else {
            CF::NoCarry
        },
        zero: prev.zero,
        sign: prev.sign,
        overflow: if overflow {
            OF::Overflow
        } else {
            OF::NoOverflow
        },
    }
}

/// The 128-bit unsigned product of two words, split into low and high
/// words, and whether it exceeds 64 bits.
fn umul_wide(l: u64, r: u64) -> (res: (u64, u64, bool))
    ensures
        res.0 == wrap64(umul_product(l, r)),
        res.1 == wrap64(umul_product(l, r) / 0x10000000000000000),
        res.2 == umul_overflows(l, r),
{
    proof {
        assert((l as int) * (r as int) <= (0xffffffffffffffff as int) * (0xffffffffffffffff as int))
            by (nonlinear_arith)
            requires
                l <= 0xffffffffffffffffu64 && r <= 0xffffffffffffffffu64,
        ;
        assert((l as int) * (r as int) >= 0) by (nonlinear_arith)
            requires
                l >= 0 && r >= 0,
        ;
    }
    let p: u128 = (l as u128) * (r as u128);
    proof {
        vstd::arithmetic::div_mod::lemma_fundamental_div_mod(p as int, 0x10000000000000000);
        vstd::arithmetic::div_mod::lemma_mod_bound(p as int, 0x10000000000000000);
        vstd::arithmetic::div_mod::lemma_div_pos_is_pos(p as int, 0x10000000000000000);
        vstd::arithmetic::div_mod::lemma_small_mod(
            (p as int / 0x10000000000000000) as nat,
            0x10000000000000000nat,
        );
    }
    let low: u64 = (p % 0x10000000000000000) as u64;
    let high: u64 = (p / 0x10000000000000000) as u64;
    (low, high, high != 0)
}

/// The 128-bit signed product of two words read as signed, split into the
/// low and high words of its two's-complement form, and whether it exceeds
/// the signed 64-bit range.
fn smul_wide(l: u64, r: u64) -> (res: (u64, u64, bool))
    ensures
        res.0 == wrap64(smul_product(l, r)),
        res.1 == wrap64(smul_product(l, r) / 0x10000000000000000),
        res.2 == smul_overflows(l, r),
{
    let a = as_signed_i64(l);
    let b = as_signed_i64(r);
    let ua = magnitude(a);
    let ub = magnitude(b);
    proof {
        assert((ua as int) * (ub as int) <= (0xffffffffffffffff as int) * (
        0xffffffffffffffff as int)) by (nonlinear_arith)
            requires
                ua <= 0xffffffffffffffffu64 && ub <= 0xffffffffffffffffu64,
        ;
        assert((ua as int) * (ub as int) >= 0) by (nonlinear_arith)
            requires
                ua >= 0 && ub >= 0,
        ;
    }
    let up: u128 = (ua as u128) * (ub as u128);
    let ghost p: int = smul_product(l, r);
    proof {
        lemma_signed_product_magnitude(a as int, b as int, ua as int, ub as int);
        assert((ua as int) * (ub as int) == (ua as u128) as int * (ub as u128) as int);
    }
    let negative = (a < 0) != (b < 0) && up != 0;
    if !negative {
        proof {
            assert(p == up as int);
            lemma_wrap64_split_nonneg(up as int);
        }
        let low: u64 = (up % 0x10000000000000000u128) as u64;
        let high: u64 = (up / 0x10000000000000000u128) as u64;
        let overflow = up > 0x7fffffffffffffffu128;
        (low, high, overflow)
    } else {
        let neg: u128 = (u128::MAX - up) + 1;
        proof {
            assert(p == -(up as int));
            lemma_wrap64_split_neg(up as int);
        }
        let low: u64 = (neg % 0x10000000000000000u128) as u64;
        let high: u64 = (neg / 0x10000000000000000u128) as u64;
        let overflow = up > 0x8000000000000000u128;
        (low, high, overflow)
    }
}

/// The product of two signed values equals their magnitudes' product with
/// the appropriate sign.
proof fn lemma_signed_product_magnitude(a: int, b: int, ua: int, ub: int)
    requires
        ua == abs_of(a),
        ub == abs_of(b),
    ensures
        (a >= 0) == (b >= 0) || ua * ub == 0 ==> a * b == ua * ub,
        !((a >= 0) == (b >= 0)) ==> a * b == -(ua * ub),
        ua * ub == abs_of(a * b),
        a * b >= 0x8000000000000000 ==> ua * ub >= 0x8000000000000000,
{
    assert(a * b == if (a >= 0) == (b >= 0) {
        ua * ub
    } else {
        -(ua * ub)
    }) by (nonlinear_arith)
        requires
            ua == abs_of(a) && ub == abs_of(b),
    ;
    assert(ua * ub >= 0) by (nonlinear_arith)
        requires
            ua >= 0 && ub >= 0,
    ;
}

/// Splitting a non-negative value below `2^128` at the 64-bit boundary
/// matches the Euclidean quotient and remainder `wrap64` uses.
proof fn lemma_wrap64_split_nonneg(up: int)
    requires
        0 <= up < 0x100000000000000000000000000000000,
    ensures
        wrap64(up) == up % 0x10000000000000000,
        wrap64(up / 0x10000000000000000) == up / 0x10000000000000000,
{
    vstd::arithmetic::div_mod::lemma_mod_bound(up, 0x10000000000000000);
    vstd::arithmetic::div_mod::lemma_div_pos_is_pos(up, 0x10000000000000000);
    vstd::arithmetic::div_mod::lemma_fundamental_div_mod(up, 0x10000000000000000);
    vstd::arithmetic::div_mod::lemma_small_mod(
        (up % 0x10000000000000000) as nat,
        0x10000000000000000nat,
    );
    vstd::arithmetic::div_mod::lemma_small_mod(
        (up / 0x10000000000000000) as nat,
        0x10000000000000000nat,
    );
}

/// The two's-complement 128-bit form of `-up` splits at the 64-bit
/// boundary into exactly the words `wrap64` assigns to `-up` and its high
/// part.
proof fn lemma_wrap64_split_neg(up: int)
    requires
        0 < up < 0x100000000000000000000000000000000,
    ensures
        ({
            let neg = 0x100000000000000000000000000000000 - up;
            &&& wrap64(-up) == neg % 0x10000000000000000
            &&& wrap64((-up) / 0x10000000000000000) == neg / 0x10000000000000000
        }),
{
    let m: int = 0x10000000000000000;
    let neg = 0x100000000000000000000000000000000 - up;
    let k = up / m;
    let s = up % m;
    vstd::arithmetic::div_mod::lemma_mod_bound(up, m);
    vstd::arithmetic::div_mod::lemma_div_pos_is_pos(up, m);
    vstd::arithmetic::div_mod::lemma_fundamental_div_mod(up, m);
    assert(up == k * m + s);
    assert(k < m) by {
        if k >= m {
            assert(k * m >= m * m) by (nonlinear_arith)
                requires
                    k >= m && m > 0,
            ;
        }
    };
    if s == 0 {
        assert(k > 0);
        // neg == (m - k) * m, and -up == (-k) * m.
        assert(neg == (m - k) * m + 0) by (nonlinear_arith)
            requires
                neg == 0x100000000000000000000000000000000 - up && up == k * m + 0 && m
                    == 0x10000000000000000,
        ;
        vstd::arithmetic::div_mod::lemma_fundamental_div_mod_converse(neg, m, m - k, 0);
        assert(-up == (-k) * m + 0) by (nonlinear_arith)
            requires
                up == k * m + 0,
        ;
        vstd::arithmetic::div_mod::lemma_fundamental_div_mod_converse(-up, m, -k, 0);
        // wrap64(-up) == 0 == neg % m.
        vstd::arithmetic::div_mod::lemma_fundamental_div_mod_converse(
            (-up) / m,
            m,
            -1,
            m - k,
        );
    } else {
        // neg == (m - k - 1) * m + (m - s), and -up == (-k - 1) * m + (m - s).
        assert(neg == (m - k - 1) * m + (m - s)) by (nonlinear_arith)
            requires
                neg == 0x100000000000000000000000000000000 - up && up == k * m + s && m
                    == 0x10000000000000000,
        ;
        vstd::arithmetic::div_mod::lemma_fundamental_div_mod_converse(neg, m, m - k - 1, m - s);
        assert(-up == (-k - 1) * m + (m - s)) by (nonlinear_arith)
            requires
                up == k * m + s,
        ;
        vstd::arithmetic::div_mod::lemma_fundamental_div_mod_converse(-up, m, -k - 1, m - s);
        vstd::arithmetic::div_mod::lemma_fundamental_div_mod_converse(
            (-up) / m,
            m,
            -1,
            m - k - 1,
        );
    }
}

/// `wrap64` of a value already in range is the value itself.
proof fn lemma_wrap64_small(x: int)
    requires
        0 <= x < 0x10000000000000000,
    ensures
        wrap64(x) == x,
{
    vstd::arithmetic::div_mod::lemma_small_mod(x as nat, 0x10000000000000000nat);
}

/// Signed division and remainder, truncated toward zero, via magnitudes.
fn sdiv_parts(l: u64, r: u64) -> (res: (u64, u64))
    requires
        r != 0,
    ensures
        res.0 == wrap64(tdiv(as_signed(l), as_signed(r))),
        res.1 == wrap64(trem(as_signed(l), as_signed(r))),
{
    let a = as_signed_i64(l);
    let b = as_signed_i64(r);
    let ua = magnitude(a);
    let ub = magnitude(b);
    let uq = ua / ub;
    let ur = ua % ub;
    proof {
        lemma_wrap64_small(uq as int);
        lemma_wrap64_small(ur as int);
    }
    let q = if (a < 0) != (b < 0) {
        wrapping_neg64(uq)
    } else {
        uq
    };
    let rem = if a < 0 {
        wrapping_neg64(ur)
    } else {
        ur
    };
    (q, rem)
}

impl And {
    /// Bitwise AND into the destination; carry and overflow clear, zero and
    /// sign from the result.
    pub fn execute(self, vm: &mut Machine) -> (r: Result<(), ExecuteError>)
        requires
            old(vm).wf(),
            self.dest.wf(),
            self.source.wf(),
        ensures
            final(vm).wf(),
            instr_post(Instr::And(self), *old(vm), *final(vm), r),
    {
        let lhs: u64 = self.dest.into_value(vm);
        let rhs: u64 = self.source.into_value(vm);
        let result = lhs & rhs;
        vm.flags = logic_flags(result);
        vm.store_dest(self.dest, result);
        Ok(())
    }
}

impl Or {
    /// Bitwise OR into the destination; carry and overflow clear, zero and
    /// sign from the result.
    pub fn execute(self, vm: &mut Machine) -> (r: Result<(), ExecuteError>)
        requires
            old(vm).wf(),
            self.dest.wf(),
            self.source.wf(),
        ensures
            final(vm).wf(),
            instr_post(Instr::Or(self), *old(vm), *final(vm), r),
    {
        let lhs: u64 = self.dest.into_value(vm);
        let rhs: u64 = self.source.into_value(vm);
        let result = lhs | rhs;
        vm.flags = logic_flags(result);
        vm.store_dest(self.dest, result);
        Ok(())
    }
}

impl Xor {
    /// Bitwise XOR into the destination; carry and overflow clear, zero and
    /// sign from the result.
    pub fn execute(self, vm: &mut Machine) -> (r: Result<(), ExecuteError>)
        requires
            old(vm).wf(),
            self.dest.wf(),
            self.source.wf(),
        ensures
            final(vm).wf(),
            instr_post(Instr::Xor(self), *old(vm), *final(vm), r),
    {
        let lhs: u64 = self.dest.into_value(vm);
        let rhs: u64 = self.source.into_value(vm);
        let result = lhs ^ rhs;
        vm.flags = logic_flags(result);
        vm.store_dest(self.dest, result);
        Ok(())
    }
}

impl Not {
    /// Bitwise complement of the destination; the flags are untouched.
    pub fn execute(self, vm: &mut Machine) -> (r: Result<(), ExecuteError>)
        requires
            old(vm).wf(),
            self.dest.wf(),
        ensures
            final(vm).wf(),
            instr_post(Instr::Not(self), *old(vm), *final(vm), r),
    {
        let lhs: u64 = self.dest.into_value(vm);
        vm.store_dest(self.dest, !lhs);
        Ok(())
    }
}

impl Mov {
    /// Copies the source into the destination.
    pub fn execute(self, vm: &mut Machine) -> (r: Result<(), ExecuteError>)
        requires
            old(vm).wf(),
            self.dest.wf(),
            self.source.wf(),
        ensures
            final(vm).wf(),
            instr_post(Instr::Mov(self), *old(vm), *final(vm), r),
    {
        let value: u64 = self.source.into_value(vm);
        vm.store_dest(self.dest, value);
        Ok(())
    }
}

impl Div {
    /// Signed quotient, truncated toward zero; a zero divisor terminates
    /// the run. The flags are untouched.
    pub fn execute(self, vm: &mut Machine) -> (r: Result<(), ExecuteError>)
        requires
            old(vm).wf(),
            self.dest.wf(),
            self.source.wf(),
        ensures
            final(vm).wf(),
            instr_post(Instr::Div(self), *old(vm), *final(vm), r),
    {
        let lhs: u64 = self.dest.into_value(vm);
        let rhs: u64 = self.source.into_value(vm);
        if rhs == 0 {
            return Err(ExecuteError::DivideByZero);
        }
        let (q, _) = sdiv_parts(lhs, rhs);
        vm.store_dest(self.dest, q);
        Ok(())
    }
}

impl Divu {
    /// Unsigned quotient; a zero divisor terminates the run. The flags are
    /// untouched.
    pub fn execute(self, vm: &mut Machine) -> (r: Result<(), ExecuteError>)
        requires
            old(vm).wf(),
            self.dest.wf(),
            self.source.wf(),
        ensures
            final(vm).wf(),
            instr_post(Instr::Divu(self), *old(vm), *final(vm), r),
    {
        let lhs: u64 = self.dest.into_value(vm);
        let rhs: u64 = self.source.into_value(vm);
        if rhs == 0 {
            return Err(ExecuteError::DivideByZero);
        }
        vm.store_dest(self.dest, lhs / rhs);
        Ok(())
    }
}

impl Rem {
    /// Signed remainder, following the dividend's sign; a zero divisor
    /// terminates the run. The flags are untouched.
    pub fn execute(self, vm: &mut Machine) -> (r: Result<(), ExecuteError>)
        requires
            old(vm).wf(),
            self.dest.wf(),
            self.source.wf(),
        ensures
            final(vm).wf(),
            instr_post(Instr::Rem(self), *old(vm), *final(vm), r),
    {
        let lhs: u64 = self.dest.into_value(vm);
        let rhs: u64 = self.source.into_value(vm);
        if rhs == 0 {
            return Err(ExecuteError::DivideByZero);
        }
        let (_, rem) = sdiv_parts(lhs, rhs);
        vm.store_dest(self.dest, rem);
        Ok(())
    }
}

impl Remu {
    /// Unsigned remainder; a zero divisor terminates the run. The flags are
    /// untouched.
    pub fn execute(self, vm: &mut Machine) -> (r: Result<(), ExecuteError>)
        requires
            old(vm).wf(),
            self.dest.wf(),
            self.source.wf(),
        ensures
            final(vm).wf(),
            instr_post(Instr::Remu(self), *old(vm), *final(vm), r),
    {
        let lhs: u64 = self.dest.into_value(vm);
        let rhs: u64 = self.source.into_value(vm);
        if rhs == 0 {
            return Err(ExecuteError::DivideByZero);
        }
        vm.store_dest(self.dest, lhs % rhs);
        Ok(())
    }
}

impl Divr {
    /// Signed quotient into `dest` and remainder into `dest_rem`; a zero
    /// divisor terminates the run. The flags are untouched.
    pub fn execute(self, vm: &mut Machine) -> (r: Result<(), ExecuteError>)
        requires
            old(vm).wf(),
            self.dest_rem.wf(),
            self.dest.wf(),
            self.source.wf(),
        ensures
            final(vm).wf(),
            instr_post(Instr::Divr(self), *old(vm), *final(vm), r),
    {
        let lhs: u64 = self.dest.into_value(vm);
        let rhs: u64 = self.source.into_value(vm);
        if rhs == 0 {
            return Err(ExecuteError::DivideByZero);
        }
        let (q, rem) = sdiv_parts(lhs, rhs);
        vm.store_dest(self.dest, q);
        vm.store_dest(self.dest_rem, rem);
        Ok(())
    }
}

impl Divru {
    /// Unsigned quotient into `dest` and remainder into `dest_rem`; a zero
    /// divisor terminates the run. The flags are untouched.
    pub fn execute(self, vm: &mut Machine) -> (r: Result<(), ExecuteError>)
        requires
            old(vm).wf(),
            self.dest_rem.wf(),
            self.dest.wf(),
            self.source.wf(),
        ensures
            final(vm).wf(),
            instr_post(Instr::Divru(self), *old(vm), *final(vm), r),
    {
        let lhs: u64 = self.dest.into_value(vm);
        let rhs: u64 = self.source.into_value(vm);
        if rhs == 0 {
            return Err(ExecuteError::DivideByZero);
        }
        vm.store_dest(self.dest, lhs / rhs);
        vm.store_dest(self.dest_rem, lhs % rhs);
        Ok(())
    }
}

/// Performs a load of `n` bytes: the input address hands out input bytes
/// (zero at end of input), any other address reads memory; the value is
/// zero- or sign-extended into the destination register.
fn do_load(
    vm: &mut Machine,
    dest: Destination,
    loc: Location,
    n: u8,
    signed: bool,
) -> (r: Result<(), ExecuteError>)
    requires
        old(vm).wf(),
        dest.wf(),
        loc.wf(),
        n == 1 || n == 2 || n == 4 || n == 8,
    ensures
        final(vm).wf(),
        load_post(*old(vm), *final(vm), r, dest, loc, n as int, signed),
{
    proof {
        reveal_with_fuel(le_at, 9);
    }
    let addr: u64 = loc.into_value(vm);
    if addr == STDIN_ADDR {
        match vm.io.read_byte() {
            InputByte::Byte(b) => {
                let value: u64 = if signed && n == 1 && b >= 0x80 {
                    (b as u64) + 0xffffffffffffff00
                } else {
                    b as u64
                };
                vm.store_dest(dest, value);
                Ok(())
            },
            InputByte::Eof => {
                // End of input reads as a zero byte.
                vm.store_dest(dest, EOF_BYTE as u64);
                Ok(())
            },
            InputByte::WouldBlock => Err(ExecuteError::AwaitingInput),
        }
    } else {
        let raw: u64 = if n == 1 {
            match vm.memory.get(addr) {
                Ok(b) => b as u64,
                Err(e) => {
                    return Err(ExecuteError::OutOfBounds(e));
                },
            }
        } else if n == 2 {
            match vm.memory.read_u16(addr) {
                Ok(v) => v as u64,
                Err(e) => {
                    return Err(ExecuteError::OutOfBounds(e));
                },
            }
        } else if n == 4 {
            match vm.memory.read_u32(addr) {
                Ok(v) => v as u64,
                Err(e) => {
                    return Err(ExecuteError::OutOfBounds(e));
                },
            }
        } else {
            match vm.memory.read_u64(addr) {
                Ok(v) => v,
                Err(e) => {
                    return Err(ExecuteError::OutOfBounds(e));
                },
            }
        };
        let value: u64 = if signed && n == 1 && raw >= 0x80 {
            raw + 0xffffffffffffff00
        } else if signed && n == 2 && raw >= 0x8000 {
            raw + 0xffffffffffff0000
        } else if signed && n == 4 && raw >= 0x80000000 {
            raw + 0xffffffff00000000
        } else {
            raw
        };
        vm.store_dest(dest, value);
        Ok(())
    }
}

impl Load1 {
    /// Loads one byte from the effective address, sign-extended.
    pub fn execute(self, vm: &mut Machine) -> (r: Result<(), ExecuteError>)
        requires
            old(vm).wf(),
            self.dest.wf(),
            self.loc.wf(),
        ensures
            final(vm).wf(),
            instr_post(Instr::Load1(self), *old(vm), *final(vm), r),
    {
        do_load(vm, self.dest, self.loc, 1, true)
    }
}

impl Loadu1 {
    /// Loads one byte from the effective address, zero-extended.
    pub fn execute(self, vm: &mut Machine) -> (r: Result<(), ExecuteError>)
        requires
            old(vm).wf(),
            self.dest.wf(),
            self.loc.wf(),
        ensures
            final(vm).wf(),
            instr_post(Instr::Loadu1(self), *old(vm), *final(vm), r),
    {
        do_load(vm, self.dest, self.loc, 1, false)
    }
}

impl Load2 {
    /// Loads two bytes little-endian from the effective address,
    /// sign-extended.
    pub fn execute(self, vm: &mut Machine) -> (r: Result<(), ExecuteError>)
        requires
            old(vm).wf(),
            self.dest.wf(),
            self.loc.wf(),
        ensures
            final(vm).wf(),
            instr_post(Instr::Load2(self), *old(vm), *final(vm), r),
    {
        do_load(vm, self.dest, self.loc, 2, true)
    }
}

impl Loadu2 {
    /// Loads two bytes little-endian from the effective address,
    /// zero-extended.
    pub fn execute(self, vm: &mut Machine) -> (r: Result<(), ExecuteError>)
        requires
            old(vm).wf(),
            self.dest.wf(),
            self.loc.wf(),
        ensures
            final(vm).wf(),
            instr_post(Instr::Loadu2(self), *old(vm), *final(vm), r),
    {
        do_load(vm, self.dest, self.loc, 2, false)
    }
}

impl Load4 {
    /// Loads four bytes little-endian from the effective address,
    /// sign-extended.
    pub fn execute(self, vm: &mut Machine) -> (r: Result<(), ExecuteError>)
        requires
            old(vm).wf(),
            self.dest.wf(),
            self.loc.wf(),
        ensures
            final(vm).wf(),
            instr_post(Instr::Load4(self), *old(vm), *final(vm), r),
    {
        do_load(vm, self.dest, self.loc, 4, true)
    }
}

impl Loadu4 {
    /// Loads four bytes little-endian from the effective address,
    /// zero-extended.
    pub fn execute(self, vm: &mut Machine) -> (r: Result<(), ExecuteError>)
        requires
            old(vm).wf(),
            self.dest.wf(),
            self.loc.wf(),
        ensures
            final(vm).wf(),
            instr_post(Instr::Loadu4(self), *old(vm), *final(vm), r),
    {
        do_load(vm, self.dest, self.loc, 4, false)
    }
}

impl Load8 {
    /// Loads eight bytes little-endian from the effective address.
    pub fn execute(self, vm: &mut Machine) -> (r: Result<(), ExecuteError>)
        requires
            old(vm).wf(),
            self.dest.wf(),
            self.loc.wf(),
        ensures
            final(vm).wf(),
            instr_post(Instr::Load8(self), *old(vm), *final(vm), r),
    {
        do_load(vm, self.dest, self.loc, 8, true)
    }
}

impl Loadu8 {
    /// Loads eight bytes little-endian from the effective address.
    pub fn execute(self, vm: &mut Machine) -> (r: Result<(), ExecuteError>)
        requires
            old(vm).wf(),
            self.dest.wf(),
            self.loc.wf(),
        ensures
            final(vm).wf(),
            instr_post(Instr::Loadu8(self), *old(vm), *final(vm), r),
    {
        do_load(vm, self.dest, self.loc, 8, false)
    }
}

/// Performs a store of the low `n` bytes of the source: the output address
/// emits the value as a Unicode scalar, any other address writes memory
/// little-endian.
fn do_store(vm: &mut Machine, loc: Location, source: Source, n: u8) -> (r: Result<
    (),
    ExecuteError,
>)
    requires
        old(vm).wf(),
        loc.wf(),
        source.wf(),
        n == 1 || n == 2 || n == 4 || n == 8,
    ensures
        final(vm).wf(),
        store_post(*old(vm), *final(vm), r, loc, source, n as int),
{
    let addr: u64 = loc.into_value(vm);
    let value: u64 = source.into_value(vm);
    if addr == STDOUT_ADDR {
        let scalar: u32 = if n == 1 {
            (value % 0x100) as u32
        } else if n == 2 {
            (value % 0x10000) as u32
        } else {
            (value % 0x100000000) as u32
        };
        vm.io.write_bytes(scalar);
        Ok(())
    } else {
        let res = if n == 1 {
            let b: u8 = (value % 0x100) as u8;
            let r = vm.memory.set(addr, b);
            proof {
                if addr + 1 <= old(vm).memory@.len() {
                    crate::memory::lemma_le_byte_small(value as int % 0x100, 1);
                    assert(vm.memory@ =~= written(
                        old(vm).memory@,
                        addr as int,
                        1,
                        (value as int) % 0x100,
                    ));
                }
            }
            r
        } else if n == 2 {
            vm.memory.write_u16(addr, (value % 0x10000) as u16)
        } else if n == 4 {
            vm.memory.write_u32(addr, (value % 0x100000000) as u32)
        } else {
            let r = vm.memory.write_u64(addr, value);
            proof {
                vstd::arithmetic::div_mod::lemma_small_mod(
                    value as nat,
                    0x10000000000000000nat,
                );
            }
            r
        };
        match res {
            Ok(()) => Ok(()),
            Err(e) => Err(ExecuteError::OutOfBounds(e)),
        }
    }
}

impl Store1 {
    /// Stores the low byte of the source at the effective address.
    pub fn execute(self, vm: &mut Machine) -> (r: Result<(), ExecuteError>)
        requires
            old(vm).wf(),
            self.loc.wf(),
            self.source.wf(),
        ensures
            final(vm).wf(),
            instr_post(Instr::Store1(self), *old(vm), *final(vm), r),
    {
        do_store(vm, self.loc, self.source, 1)
    }
}

impl Store2 {
    /// Stores the low two bytes of the source at the effective address.
    pub fn execute(self, vm: &mut Machine) -> (r: Result<(), ExecuteError>)
        requires
            old(vm).wf(),
            self.loc.wf(),
            self.source.wf(),
        ensures
            final(vm).wf(),
            instr_post(Instr::Store2(self), *old(vm), *final(vm), r),
    {
        do_store(vm, self.loc, self.source, 2)
    }
}

impl Store4 {
    /// Stores the low four bytes of the source at the effective address.
    pub fn execute(self, vm: &mut Machine) -> (r: Result<(), ExecuteError>)
        requires
            old(vm).wf(),
            self.loc.wf(),
            self.source.wf(),
        ensures
            final(vm).wf(),
            instr_post(Instr::Store4(self), *old(vm), *final(vm), r),
    {
        do_store(vm, self.loc, self.source, 4)
    }
}

impl Store8 {
    /// Stores the full source word at the effective address.
    pub fn execute(self, vm: &mut Machine) -> (r: Result<(), ExecuteError>)
        requires
            old(vm).wf(),
            self.loc.wf(),
            self.source.wf(),
        ensures
            final(vm).wf(),
            instr_post(Instr::Store8(self), *old(vm), *final(vm), r),
    {
        do_store(vm, self.loc, self.source, 8)
    }
}

impl Push {
    /// Decrements the stack pointer by eight, then writes the source as a
    /// 64-bit word at the new stack top.
    pub fn execute(self, vm: &mut Machine) -> (r: Result<(), ExecuteError>)
        requires
            old(vm).wf(),
            self.source.wf(),
        ensures
            final(vm).wf(),
            instr_post(Instr::Push(self), *old(vm), *final(vm), r),
    {
        let sp: u64 = vm.registers.load_sp();
        let stack_top = wrapping_sub64(sp, 8);
        vm.registers.store_sp(stack_top);
        // The source is read after the stack pointer moved, so pushing the
        // stack pointer pushes its new value.
        let value: u64 = self.source.into_value(vm);
        match vm.memory.write_u64(stack_top, value) {
            Ok(()) => Ok(()),
            Err(e) => Err(ExecuteError::OutOfBounds(e)),
        }
    }
}

impl Pop {
    /// Reads the 64-bit word at the stack top into the destination, then
    /// increments the stack pointer by eight.
    pub fn execute(self, vm: &mut Machine) -> (r: Result<(), ExecuteError>)
        requires
            old(vm).wf(),
            self.dest.wf(),
        ensures
            final(vm).wf(),
            instr_post(Instr::Pop(self), *old(vm), *final(vm), r),
    {
        let stack_top: u64 = vm.registers.load_sp();
        let value = match vm.memory.read_u64(stack_top) {
            Ok(v) => v,
            Err(e) => {
                return Err(ExecuteError::OutOfBounds(e));
            },
        };
        vm.store_dest(self.dest, value);
        let sp = wrapping_add64(stack_top, 8);
        vm.registers.store_sp(sp);
        Ok(())
    }
}

/// Performs a jump: when taken, the program counter becomes the effective
/// address.
fn do_jump(vm: &mut Machine, loc: Location, taken: bool) -> (r: Result<(), ExecuteError>)
    requires
        old(vm).wf(),
        loc.wf(),
    ensures
        final(vm).wf(),
        jump_post(*old(vm), *final(vm), r, loc, taken),
{
    let addr: u64 = loc.into_value(vm);
    if taken {
        vm.program_counter = addr;
    }
    Ok(())
}

impl Jmp {
    /// Jumps unconditionally.
    pub fn execute(self, vm: &mut Machine) -> (r: Result<(), ExecuteError>)
        requires
            old(vm).wf(),
            self.loc.wf(),
        ensures
            final(vm).wf(),
            instr_post(Instr::Jmp(self), *old(vm), *final(vm), r),
    {
        do_jump(vm, self.loc, true)
    }
}

impl Je {
    /// Jumps when the zero flag is set.
    pub fn execute(self, vm: &mut Machine) -> (r: Result<(), ExecuteError>)
        requires
            old(vm).wf(),
            self.loc.wf(),
        ensures
            final(vm).wf(),
            instr_post(Instr::Je(self), *old(vm), *final(vm), r),
    {
        let taken = match vm.flags.zero {
            ZF::Zero => true,
            ZF::NonZero => false,
        };
        do_jump(vm, self.loc, taken)
    }
}

impl Jne {
    /// Jumps when the zero flag is clear.
    pub fn execute(self, vm: &mut Machine) -> (r: Result<(), ExecuteError>)
        requires
            old(vm).wf(),
            self.loc.wf(),
        ensures
            final(vm).wf(),
            instr_post(Instr::Jne(self), *old(vm), *final(vm), r),
    {
        let taken = match vm.flags.zero {
            ZF::Zero => false,
            ZF::NonZero => true,
        };
        do_jump(vm, self.loc, taken)
    }
}

impl Jg {
    /// Jumps when sign equals overflow and the zero flag is clear (signed
    /// greater).
    pub fn execute(self, vm: &mut Machine) -> (r: Result<(), ExecuteError>)
        requires
            old(vm).wf(),
            self.loc.wf(),
        ensures
            final(vm).wf(),
            instr_post(Instr::Jg(self), *old(vm), *final(vm), r),
    {
        let sf = match vm.flags.sign {
            SF::NegativeSign => true,
            SF::PositiveSign => false,
        };
        let of = match vm.flags.overflow {
            OF::Overflow => true,
            OF::NoOverflow => false,
        };
        let nz = match vm.flags.zero {
            ZF::NonZero => true,
            ZF::Zero => false,
        };
        do_jump(vm, self.loc, sf == of && nz)
    }
}

impl Jge {
    /// Jumps when sign equals overflow or the zero flag is set (signed
    /// greater or equal).
    pub fn execute(self, vm: &mut Machine) -> (r: Result<(), ExecuteError>)
        requires
            old(vm).wf(),
            self.loc.wf(),
        ensures
            final(vm).wf(),
            instr_post(Instr::Jge(self), *old(vm), *final(vm), r),
    {
        let sf = match vm.flags.sign {
            SF::NegativeSign => true,
            SF::PositiveSign => false,
        };
        let of = match vm.flags.overflow {
            OF::Overflow => true,
            OF::NoOverflow => false,
        };
        let z = match vm.flags.zero {
            ZF::Zero => true,
            ZF::NonZero => false,
        };
        do_jump(vm, self.loc, sf == of || z)
    }
}

impl Ja {
    /// Jumps when carry and zero are both clear (unsigned above).
    pub fn execute(self, vm: &mut Machine) -> (r: Result<(), ExecuteError>)
        requires
            old(vm).wf(),
            self.loc.wf(),
        ensures
            final(vm).wf(),
            instr_post(Instr::Ja(self), *old(vm), *final(vm), r),
    {
        let nc = match vm.flags.carry {
            CF::NoCarry => true,
            CF::Carry => false,
        };
        let nz = match vm.flags.zero {
            ZF::NonZero => true,
            ZF::Zero => false,
        };
        do_jump(vm, self.loc, nc && nz)
    }
}

impl Jae {
    /// Jumps when carry is clear or zero is set (unsigned above or equal).
    pub fn execute(self, vm: &mut Machine) -> (r: Result<(), ExecuteError>)
        requires
            old(vm).wf(),
            self.loc.wf(),
        ensures
            final(vm).wf(),
            instr_post(Instr::Jae(self), *old(vm), *final(vm), r),
    {
        let nc = match vm.flags.carry {
            CF::NoCarry => true,
            CF::Carry => false,
        };
        let z = match vm.flags.zero {
            ZF::Zero => true,
            ZF::NonZero => false,
        };
        do_jump(vm, self.loc, nc || z)
    }
}

impl Jl {
    /// Jumps when sign differs from overflow (signed less).
    pub fn execute(self, vm: &mut Machine) -> (r: Result<(), ExecuteError>)
        requires
            old(vm).wf(),
            self.loc.wf(),
        ensures
            final(vm).wf(),
            instr_post(Instr::Jl(self), *old(vm), *final(vm), r),
    {
        let sf = match vm.flags.sign {
            SF::NegativeSign => true,
            SF::PositiveSign => false,
        };
        let of = match vm.flags.overflow {
            OF::Overflow => true,
            OF::NoOverflow => false,
        };
        do_jump(vm, self.loc, sf != of)
    }
}

impl Jle {
    /// Jumps when sign differs from overflow or zero is set (signed less or
    /// equal).
    pub fn execute(self, vm: &mut Machine) -> (r: Result<(), ExecuteError>)
        requires
            old(vm).wf(),
            self.loc.wf(),
        ensures
            final(vm).wf(),
            instr_post(Instr::Jle(self), *old(vm), *final(vm), r),
    {
        let sf = match vm.flags.sign {
            SF::NegativeSign => true,
            SF::PositiveSign => false,
        };
        let of = match vm.flags.overflow {
            OF::Overflow => true,
            OF::NoOverflow => false,
        };
        let z = match vm.flags.zero {
            ZF::Zero => true,
            ZF::NonZero => false,
        };
        do_jump(vm, self.loc, sf != of || z)
    }
}

impl Jb {
    /// Jumps when carry is set (unsigned below).
    pub fn execute(self, vm: &mut Machine) -> (r: Result<(), ExecuteError>)
        requires
            old(vm).wf(),
            self.loc.wf(),
        ensures
            final(vm).wf(),
            instr_post(Instr::Jb(self), *old(vm), *final(vm), r),
    {
        let taken = match vm.flags.carry {
            CF::Carry => true,
            CF::NoCarry => false,
        };
        do_jump(vm, self.loc, taken)
    }
}

impl Jbe {
    /// Jumps when carry or zero is set (unsigned below or equal).
    pub fn execute(self, vm: &mut Machine) -> (r: Result<(), ExecuteError>)
        requires
            old(vm).wf(),
            self.loc.wf(),
        ensures
            final(vm).wf(),
            instr_post(Instr::Jbe(self), *old(vm), *final(vm), r),
    {
        let c = match vm.flags.carry {
            CF::Carry => true,
            CF::NoCarry => false,
        };
        let z = match vm.flags.zero {
            ZF::Zero => true,
            ZF::NonZero => false,
        };
        do_jump(vm, self.loc, c || z)
    }
}

impl Jo {
    /// Jumps when the overflow flag is set.
    pub fn execute(self, vm: &mut Machine) -> (r: Result<(), ExecuteError>)
        requires
            old(vm).wf(),
            self.loc.wf(),
        ensures
            final(vm).wf(),
            instr_post(Instr::Jo(self), *old(vm), *final(vm), r),
    {
        let taken = match vm.flags.overflow {
            OF::Overflow => true,
            OF::NoOverflow => false,
        };
        do_jump(vm, self.loc, taken)
    }
}

impl Jno {
    /// Jumps when the overflow flag is clear.
    pub fn execute(self, vm: &mut Machine) -> (r: Result<(), ExecuteError>)
        requires
            old(vm).wf(),
            self.loc.wf(),
        ensures
            final(vm).wf(),
            instr_post(Instr::Jno(self), *old(vm), *final(vm), r),
    {
        let taken = match vm.flags.overflow {
            OF::Overflow => false,
            OF::NoOverflow => true,
        };
        do_jump(vm, self.loc, taken)
    }
}

impl Jz {
    /// Jumps when the zero flag is set.
    pub fn execute(self, vm: &mut Machine) -> (r: Result<(), ExecuteError>)
        requires
            old(vm).wf(),
            self.loc.wf(),
        ensures
            final(vm).wf(),
            instr_post(Instr::Jz(self), *old(vm), *final(vm), r),
    {
        let taken = match vm.flags.zero {
            ZF::Zero => true,
            ZF::NonZero => false,
        };
        do_jump(vm, self.loc, taken)
    }
}

impl Jnz {
    /// Jumps when the zero flag is clear.
    pub fn execute(self, vm: &mut Machine) -> (r: Result<(), ExecuteError>)
        requires
            old(vm).wf(),
            self.loc.wf(),
        ensures
            final(vm).wf(),
            instr_post(Instr::Jnz(self), *old(vm), *final(vm), r),
    {
        let taken = match vm.flags.zero {
            ZF::Zero => false,
            ZF::NonZero => true,
        };
        do_jump(vm, self.loc, taken)
    }
}

impl Js {
    /// Jumps when the sign flag is set.
    pub fn execute(self, vm: &mut Machine) -> (r: Result<(), ExecuteError>)
        requires
            old(vm).wf(),
            self.loc.wf(),
        ensures
            final(vm).wf(),
            instr_post(Instr::Js(self), *old(vm), *final(vm), r),
    {
        let taken = match vm.flags.sign {
            SF::NegativeSign => true,
            SF::PositiveSign => false,
        };
        do_jump(vm, self.loc, taken)
    }
}

impl Jns {
    /// Jumps when the sign flag is clear.
    pub fn execute(self, vm: &mut Machine) -> (r: Result<(), ExecuteError>)
        requires
            old(vm).wf(),
            self.loc.wf(),
        ensures
            final(vm).wf(),
            instr_post(Instr::Jns(self), *old(vm), *final(vm), r),
    {
        let taken = match vm.flags.sign {
            SF::NegativeSign => false,
            SF::PositiveSign => true,
        };
        do_jump(vm, self.loc, taken)
    }
}

impl Call {
    /// Pushes the program counter, which already points past the call, then
    /// jumps to the effective address.
    pub fn execute(self, vm: &mut Machine) -> (r: Result<(), ExecuteError>)
        requires
            old(vm).wf(),
            self.loc.wf(),
        ensures
            final(vm).wf(),
            instr_post(Instr::Call(self), *old(vm), *final(vm), r),
    {
        let sp: u64 = vm.registers.load_sp();
        let stack_top = wrapping_sub64(sp, 8);
        vm.registers.store_sp(stack_top);
        match vm.memory.write_u64(stack_top, vm.program_counter) {
            Ok(()) => (),
            Err(e) => {
                return Err(ExecuteError::OutOfBounds(e));
            },
        }
        // The target address is read after the stack pointer moved.
        let addr: u64 = self.loc.into_value(vm);
        vm.program_counter = addr;
        Ok(())
    }
}

impl Ret {
    /// Pops the 64-bit word at the stack top into the program counter.
    pub fn execute(self, vm: &mut Machine) -> (r: Result<(), ExecuteError>)
        requires
            old(vm).wf(),
        ensures
            final(vm).wf(),
            instr_post(Instr::Ret(self), *old(vm), *final(vm), r),
    {
        let stack_top: u64 = vm.registers.load_sp();
        let value = match vm.memory.read_u64(stack_top) {
            Ok(v) => v,
            Err(e) => {
                return Err(ExecuteError::OutOfBounds(e));
            },
        };
        vm.program_counter = value;
        let sp = wrapping_add64(stack_top, 8);
        vm.registers.store_sp(sp);
        Ok(())
    }
}

impl Instr {
    /// Executes one decoded instruction against the machine.
    pub fn execute(self, vm: &mut Machine) -> (r: Result<(), ExecuteError>)
        requires
            old(vm).wf(),
            crate::decode::instr_wf(self),
        ensures
            final(vm).wf(),
            instr_post(self, *old(vm), *final(vm), r),
    {
        match self {
            Instr::Nop(x) => x.execute(vm),
            Instr::Add(x) => x.execute(vm),
            Instr::Sub(x) => x.execute(vm),
            Instr::Mul(x) => x.execute(vm),
            Instr::Mull(x) => x.execute(vm),
            Instr::Mulu(x) => x.execute(vm),
            Instr::Mullu(x) => x.execute(vm),
            Instr::Div(x) => x.execute(vm),
            Instr::Divr(x) => x.execute(vm),
            Instr::Divu(x) => x.execute(vm),
            Instr::Divru(x) => x.execute(vm),
            Instr::Rem(x) => x.execute(vm),
            Instr::Remu(x) => x.execute(vm),
            Instr::And(x) => x.execute(vm),
            Instr::Or(x) => x.execute(vm),
            Instr::Xor(x) => x.execute(vm),
            Instr::Not(x) => x.execute(vm),
            Instr::Test(x) => x.execute(vm),
            Instr::Cmp(x) => x.execute(vm),
            Instr::Mov(x) => x.execute(vm),
            Instr::Load1(x) => x.execute(vm),
            Instr::Loadu1(x) => x.execute(vm),
            Instr::Load2(x) => x.execute(vm),
            Instr::Loadu2(x) => x.execute(vm),
            Instr::Load4(x) => x.execute(vm),
            Instr::Loadu4(x) => x.execute(vm),
            Instr::Load8(x) => x.execute(vm),
            Instr::Loadu8(x) => x.execute(vm),
            Instr::Store1(x) => x.execute(vm),
            Instr::Store2(x) => x.execute(vm),
            Instr::Store4(x) => x.execute(vm),
            Instr::Store8(x) => x.execute(vm),
            Instr::Push(x) => x.execute(vm),
            Instr::Pop(x) => x.execute(vm),
            Instr::Jmp(x) => x.execute(vm),
            Instr::Je(x) => x.execute(vm),
            Instr::Jne(x) => x.execute(vm),
            Instr::Jg(x) => x.execute(vm),
            Instr::Jge(x) => x.execute(vm),
            Instr::Ja(x) => x.execute(vm),
            Instr::Jae(x) => x.execute(vm),
            Instr::Jl(x) => x.execute(vm),
            Instr::Jle(x) => x.execute(vm),
            Instr::Jb(x) => x.execute(vm),
            Instr::Jbe(x) => x.execute(vm),
            Instr::Jo(x) => x.execute(vm),
            Instr::Jno(x) => x.execute(vm),
            Instr::Jz(x) => x.execute(vm),
            Instr::Jnz(x) => x.execute(vm),
            Instr::Js(x) => x.execute(vm),
            Instr::Jns(x) => x.execute(vm),
            Instr::Call(x) => x.execute(vm),
            Instr::Ret(x) => x.execute(vm),
        }
    }
}

/// The flag law for `add`: moving `u` into a register and adding `v`
/// leaves `u + v mod 2^64` in the register, with carry exactly on unsigned
/// wrap, overflow exactly on signed wrap, zero exactly on a zero result,
/// and sign exactly on bit 63.
pub proof fn lemma_flag_law_add(
    pre: Machine,
    mid: Machine,
    post: Machine,
    dest: Destination,
    u: u64,
    v: u64,
)
    requires
        instr_post(
            Instr::Mov(Mov { dest, source: crate::operands::Source::Immediate(u as i128) }),
            pre,
            mid,
            Ok(()),
        ),
        instr_post(
            Instr::Add(Add { dest, source: crate::operands::Source::Immediate(v as i128) }),
            mid,
            post,
            Ok(()),
        ),
        dest.wf(),
        pre.registers.wf(),
    ensures
        post.registers@[dest.index_spec()] == wrap64(u + v),
        post.flags.carry is Carry <==> u + v > u64::MAX,
        post.flags.zero is Zero <==> wrap64(u + v) == 0,
        post.flags.sign is NegativeSign <==> wrap64(u + v) >= 0x8000000000000000,
        post.flags.overflow is Overflow <==> !(-0x8000000000000000 <= as_signed(u) + as_signed(v)
            <= 0x7fffffffffffffff),
{
    assert(crate::operands::imm_bits64(u as i128) == u);
    assert(mid.registers@[dest.index_spec()] == u);
}

/// The flag law for `sub`: moving `u` into a register and subtracting `v`
/// leaves `u - v mod 2^64` in the register, with carry exactly on unsigned
/// borrow, overflow exactly on signed wrap, zero exactly on a zero result,
/// and sign exactly on bit 63.
pub proof fn lemma_flag_law_sub(
    pre: Machine,
    mid: Machine,
    post: Machine,
    dest: Destination,
    u: u64,
    v: u64,
)
    requires
        instr_post(
            Instr::Mov(Mov { dest, source: crate::operands::Source::Immediate(u as i128) }),
            pre,
            mid,
            Ok(()),
        ),
        instr_post(
            Instr::Sub(Sub { dest, source: crate::operands::Source::Immediate(v as i128) }),
            mid,
            post,
            Ok(()),
        ),
        dest.wf(),
        pre.registers.wf(),
    ensures
        post.registers@[dest.index_spec()] == wrap64(u - v),
        post.flags.carry is Carry <==> u < v,
        post.flags.zero is Zero <==> wrap64(u - v) == 0,
        post.flags.sign is NegativeSign <==> wrap64(u - v) >= 0x8000000000000000,
        post.flags.overflow is Overflow <==> !(-0x8000000000000000 <= as_signed(u) - as_signed(v)
            <= 0x7fffffffffffffff),
{
    assert(crate::operands::imm_bits64(u as i128) == u);
    assert(mid.registers@[dest.index_spec()] == u);
}

/// The flag law for `cmp`: it sets the very flags `sub` would set for the
/// same operands, and leaves the compared register unchanged.
pub proof fn lemma_flag_law_cmp(
    pre: Machine,
    mid: Machine,
    post: Machine,
    dest: Destination,
    u: u64,
    v: u64,
)
    requires
        instr_post(
            Instr::Mov(Mov { dest, source: crate::operands::Source::Immediate(u as i128) }),
            pre,
            mid,
            Ok(()),
        ),
        instr_post(
            Instr::Cmp(
                Cmp {
                    source1: crate::operands::Source::Register(
                        match dest {
                            Destination::Register(reg) => reg,
                        },
                    ),
                    source2: crate::operands::Source::Immediate(v as i128),
                },
            ),
            mid,
            post,
            Ok(()),
        ),
        dest.wf(),
        pre.registers.wf(),
    ensures
        post.registers@[dest.index_spec()] == u,
        post.flags == sub_flags_spec(u, v),
{
    assert(crate::operands::imm_bits64(u as i128) == u);
    assert(mid.registers@[dest.index_spec()] == u);
}

} // verus!