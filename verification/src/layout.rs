use vstd::prelude::*;

verus! {

// Powers of two used as field multipliers and moduli. A field of `n` bits
// written at offset `k` from the most-significant bit of the 64-bit word
// occupies the value range `[0, 2^n)` scaled by `2^(64 - k - n)`.
pub const POW6: u64 = 0x40;
pub const POW12: u64 = 0x1000;
pub const POW16: u64 = 0x10000;
pub const POW24: u64 = 0x1000000;
pub const POW25: u64 = 0x2000000;
pub const POW26: u64 = 0x4000000;
pub const POW29: u64 = 0x20000000;
pub const POW30: u64 = 0x40000000;
pub const POW34: u64 = 0x400000000;
pub const POW39: u64 = 0x8000000000;
pub const POW40: u64 = 0x10000000000;
pub const POW45: u64 = 0x200000000000;
pub const POW46: u64 = 0x400000000000;
pub const POW51: u64 = 0x8000000000000;
pub const POW52: u64 = 0x10000000000000;

/// The 12-bit opcode stored in the most-significant bits of every instruction.
#[derive(Debug, Clone, Copy, PartialEq, Eq, Structural)]
pub struct Opcode {
    pub value: u16,
}

impl Opcode {
    pub open spec fn wf(self) -> bool {
        self.value < 0x1000
    }

    /// The opcode's numeric value, below `2^12`.
    pub fn into_value(self) -> (r: u16)
        ensures
            r == self.value,
    {
        self.value
    }

    /// Extracts the 12-bit opcode from an encoded instruction word.
    pub fn read(word: u64) -> (r: Opcode)
        ensures
            r.value == word / POW52,
            r.wf(),
    {
        Opcode { value: (word / POW52) as u16 }
    }
}

/// One of the 64 registers, encoded in 6 bits.
#[derive(Debug, Clone, Copy, PartialEq, Eq, Structural)]
pub struct Reg {
    pub value: u8,
}

impl Reg {
    pub open spec fn wf(self) -> bool {
        self.value < 64
    }

    /// The register number, between 0 and 63 inclusive.
    pub fn into_value(self) -> (r: u8)
        requires
            self.wf(),
        ensures
            r == self.value,
            r < 64,
    {
        self.value
    }

    /// Reads a 6-bit register field whose multiplier in the word is `p`.
    pub fn read(word: u64, p: u64) -> (r: Reg)
        requires
            p > 0,
        ensures
            r.value == (word / p) % 64,
            r.wf(),
    {
        Reg { value: ((word / p) % 64) as u8 }
    }
}

/// A 16-bit signed offset used by register-relative addressing.
#[derive(Debug, Clone, Copy, PartialEq, Eq, Structural)]
pub struct Offset {
    pub value: i16,
}

impl Offset {
    /// The two's-complement bit pattern of the offset, in `[0, 2^16)`.
    pub open spec fn bits(self) -> int {
        if self.value >= 0 {
            self.value as int
        } else {
            self.value + 0x10000
        }
    }

    /// The two's-complement bit pattern of the offset as a word value.
    pub fn to_bits(self) -> (r: u64)
        ensures
            r == self.bits(),
            r < POW16,
    {
        if self.value >= 0 {
            self.value as u64
        } else {
            (self.value as i32 + 0x10000) as u64
        }
    }

    /// Reads a 16-bit offset field whose multiplier in the word is `p`,
    /// sign-extending the stored bit pattern.
    pub fn read(word: u64, p: u64) -> (r: Offset)
        requires
            p > 0,
        ensures
            r.bits() == (word / p) % 0x10000,
    {
        let raw = (word / p) % POW16;
        if raw < 0x8000 {
            Offset { value: raw as i16 }
        } else {
            Offset { value: (raw as i32 - 0x10000) as i16 }
        }
    }
}

/// An immediate value, encoded in `bits` bits. The value must lie in the
/// signed range of that width; the decoder always sign-extends.
#[derive(Debug, Clone, Copy, PartialEq, Eq, Structural)]
pub struct Imm {
    /// One of 26, 30, 40, 46, or 52.
    pub bits: u8,
    pub value: i64,
}

/// `2^(bits-1)`: one more than the largest value an immediate of this width
/// can hold, and the magnitude of the smallest.
pub open spec fn imm_half_spec(bits: u8) -> int {
    if bits == 26 {
        POW25 as int
    } else if bits == 30 {
        POW29 as int
    } else if bits == 40 {
        POW39 as int
    } else if bits == 46 {
        POW45 as int
    } else if bits == 52 {
        POW51 as int
    } else {
        0
    }
}

impl Imm {
    pub open spec fn wf(self) -> bool {
        &&& (self.bits == 26 || self.bits == 30 || self.bits == 40 || self.bits == 46
            || self.bits == 52)
        &&& -imm_half_spec(self.bits) <= self.value < imm_half_spec(self.bits)
    }

    /// The two's-complement bit pattern of the immediate, in `[0, 2^bits)`.
    pub open spec fn bits_pattern(self) -> int {
        if self.value >= 0 {
            self.value as int
        } else {
            self.value + 2 * imm_half_spec(self.bits)
        }
    }

    /// The immediate's value. It always fits an `i64`.
    pub fn into_value(self) -> (r: i64)
        ensures
            r == self.value,
    {
        self.value
    }

    pub fn half(bits: u8) -> (r: u64)
        requires
            imm_half_spec(bits) > 0,
        ensures
            r == imm_half_spec(bits),
    {
        if bits == 26 {
            POW25
        } else if bits == 30 {
            POW29
        } else if bits == 40 {
            POW39
        } else if bits == 46 {
            POW45
        } else {
            POW51
        }
    }

    /// The two's-complement bit pattern of the immediate as a word value.
    pub fn to_bits(self) -> (r: u64)
        requires
            self.wf(),
        ensures
            r == self.bits_pattern(),
            r < 2 * imm_half_spec(self.bits),
    {
        if self.value >= 0 {
            self.value as u64
        } else {
            (self.value + 2 * Imm::half(self.bits) as i64) as u64
        }
    }

    /// Reads an immediate field of width `bits` whose multiplier in the word
    /// is `p`, sign-extending the stored bit pattern.
    pub fn read(word: u64, p: u64, bits: u8) -> (r: Imm)
        requires
            p > 0,
            imm_half_spec(bits) > 0,
        ensures
            r.bits == bits,
            r.bits_pattern() == ((word / p) as int) % (2 * imm_half_spec(bits)),
            r.wf(),
    {
        let half = Imm::half(bits);
        let raw = (word / p) % (2 * half);
        if raw < half {
            Imm { bits, value: raw as i64 }
        } else {
            Imm { bits, value: raw as i64 - 2 * half as i64 }
        }
    }
}

/// Whether a value fits the signed range of an immediate of `bits` bits.
pub open spec fn imm_in_range(bits: u8, value: i128) -> bool {
    -imm_half_spec(bits) <= value < imm_half_spec(bits)
}

impl Imm {
    /// What immediate validation yields: the value itself when it fits the
    /// width's signed range, zero otherwise.
    pub open spec fn new_spec(bits: u8, value: i128) -> Imm {
        Imm {
            bits,
            value: if imm_in_range(bits, value) {
                value as i64
            } else {
                0
            },
        }
    }

    /// Checks an immediate against the signed range of the field width the
    /// selected layout provides. An out-of-range value emits a diagnostic and
    /// recovers as zero.
    pub fn new(bits: u8, imm: crate::ir::Immediate, diag: &mut crate::diag::Diagnostics) -> (r:
        Imm)
        requires
            imm_half_spec(bits) > 0,
        ensures
            r == Imm::new_spec(bits, imm.value),
            r.wf(),
            old(diag).records@.is_prefix_of(final(diag).records@),
            imm_in_range(bits, imm.value) ==> final(diag).records@ == old(diag).records@,
            crate::diag::error_count(final(diag).records@) == crate::diag::error_count(
                old(diag).records@,
            ) + (if imm_in_range(bits, imm.value) {
                0int
            } else {
                1int
            }),
    {
        let half = Imm::half(bits) as i128;
        if -half <= imm.value && imm.value < half {
            Imm { bits, value: imm.value as i64 }
        } else {
            let ghost pre = diag.records@;
            diag.span_error(crate::diag::DiagKind::ImmediateRangeError, imm.span);
            proof {
                crate::diag::lemma_error_count_push(pre, diag.records@.last());
            }
            // Error recovery: zero is always in range, so assembly continues.
            Imm { bits, value: 0 }
        }
    }
}

impl Reg {
    /// The 6-bit register index a validated register encodes to: `$sp` is 63
    /// and `$fp` is 62.
    pub fn new(reg: crate::ir::Register) -> (r: Reg)
        requires
            reg.kind.wf(),
        ensures
            r.value == reg.kind.index_spec(),
            r.wf(),
    {
        match reg.kind {
            crate::ir::RegisterKind::StackPointer => Reg { value: 63 },
            crate::ir::RegisterKind::FramePointer => Reg { value: 62 },
            crate::ir::RegisterKind::Numbered(n) => Reg { value: n },
        }
    }
}

impl Offset {
    /// The encoded form of a checked 16-bit offset.
    pub fn new(offset: crate::ir::Offset) -> (r: Offset)
        ensures
            r.value == offset.value,
    {
        Offset { value: offset.value }
    }
}

// The eleven argument layouts. Each holds its typed bit-fields in the order
// they are packed, left to right, after the 12-bit opcode.
#[derive(Debug, Clone, Copy, PartialEq, Eq, Structural)]
pub struct L1(pub Reg, pub Reg);

#[derive(Debug, Clone, Copy, PartialEq, Eq, Structural)]
pub struct L2(pub Reg, pub Imm);

#[derive(Debug, Clone, Copy, PartialEq, Eq, Structural)]
pub struct L3(pub Imm, pub Reg);

#[derive(Debug, Clone, Copy, PartialEq, Eq, Structural)]
pub struct L4(pub Reg, pub Reg, pub Offset);

#[derive(Debug, Clone, Copy, PartialEq, Eq, Structural)]
pub struct L5(pub Reg, pub Offset, pub Imm);

#[derive(Debug, Clone, Copy, PartialEq, Eq, Structural)]
pub struct L6(pub Imm, pub Imm);

#[derive(Debug, Clone, Copy, PartialEq, Eq, Structural)]
pub struct L7(pub Reg, pub Reg, pub Reg);

#[derive(Debug, Clone, Copy, PartialEq, Eq, Structural)]
pub struct L8(pub Reg, pub Reg, pub Imm);

#[derive(Debug, Clone, Copy, PartialEq, Eq, Structural)]
pub struct L9(pub Reg);

#[derive(Debug, Clone, Copy, PartialEq, Eq, Structural)]
pub struct L10(pub Imm);

#[derive(Debug, Clone, Copy, PartialEq, Eq, Structural)]
pub struct L11(pub Reg, pub Offset);

impl L1 {
    /// The bits of the 52-bit argument section this layout uses.
    pub fn used_arguments_bits() -> (r: u8)
        ensures
            r == 12,
            r <= 52,
    {
        6 + 6
    }
}

impl L2 {
    /// The bits of the 52-bit argument section this layout uses.
    pub fn used_arguments_bits() -> (r: u8)
        ensures
            r == 52,
            r <= 52,
    {
        6 + 46
    }
}

impl L3 {
    /// The bits of the 52-bit argument section this layout uses.
    pub fn used_arguments_bits() -> (r: u8)
        ensures
            r == 52,
            r <= 52,
    {
        46 + 6
    }
}

impl L4 {
    /// The bits of the 52-bit argument section this layout uses.
    pub fn used_arguments_bits() -> (r: u8)
        ensures
            r == 28,
            r <= 52,
    {
        6 + 6 + 16
    }
}

impl L5 {
    /// The bits of the 52-bit argument section this layout uses.
    pub fn used_arguments_bits() -> (r: u8)
        ensures
            r == 52,
            r <= 52,
    {
        6 + 16 + 30
    }
}

impl L6 {
    /// The bits of the 52-bit argument section this layout uses.
    pub fn used_arguments_bits() -> (r: u8)
        ensures
            r == 52,
            r <= 52,
    {
        26 + 26
    }
}

impl L7 {
    /// The bits of the 52-bit argument section this layout uses.
    pub fn used_arguments_bits() -> (r: u8)
        ensures
            r == 18,
            r <= 52,
    {
        6 + 6 + 6
    }
}

impl L8 {
    /// The bits of the 52-bit argument section this layout uses.
    pub fn used_arguments_bits() -> (r: u8)
        ensures
            r == 52,
            r <= 52,
    {
        6 + 6 + 40
    }
}

impl L9 {
    /// The bits of the 52-bit argument section this layout uses.
    pub fn used_arguments_bits() -> (r: u8)
        ensures
            r == 6,
            r <= 52,
    {
        6
    }
}

impl L10 {
    /// The bits of the 52-bit argument section this layout uses.
    pub fn used_arguments_bits() -> (r: u8)
        ensures
            r == 52,
            r <= 52,
    {
        52
    }
}

impl L11 {
    /// The bits of the 52-bit argument section this layout uses.
    pub fn used_arguments_bits() -> (r: u8)
        ensures
            r == 22,
            r <= 52,
    {
        6 + 16
    }
}

/// Each supported layout for the argument section of an instruction.
#[derive(Debug, Clone, Copy, PartialEq, Eq, Structural)]
pub enum Layout {
    L1(L1),
    L2(L2),
    L3(L3),
    L4(L4),
    L5(L5),
    L6(L6),
    L7(L7),
    L8(L8),
    L9(L9),
    L10(L10),
    L11(L11),
}

impl Layout {
    /// Immediates carry the width their layout demands, and registers and
    /// immediates hold in-range values.
    pub open spec fn wf(self) -> bool {
        match self {
            Layout::L1(L1(r1, r2)) => r1.wf() && r2.wf(),
            Layout::L2(L2(r, im)) => r.wf() && im.wf() && im.bits == 46,
            Layout::L3(L3(im, r)) => im.wf() && im.bits == 46 && r.wf(),
            Layout::L4(L4(r1, r2, _off)) => r1.wf() && r2.wf(),
            Layout::L5(L5(r, _off, im)) => r.wf() && im.wf() && im.bits == 30,
            Layout::L6(L6(im1, im2)) => im1.wf() && im1.bits == 26 && im2.wf() && im2.bits == 26,
            Layout::L7(L7(r1, r2, r3)) => r1.wf() && r2.wf() && r3.wf(),
            Layout::L8(L8(r1, r2, im)) => r1.wf() && r2.wf() && im.wf() && im.bits == 40,
            Layout::L9(L9(r)) => r.wf(),
            Layout::L10(L10(im)) => im.wf() && im.bits == 52,
            Layout::L11(L11(r, _off)) => r.wf(),
        }
    }

    /// The opcode offset this layout adds to an instruction's base opcode.
    pub open spec fn opcode_offset_spec(self) -> u16 {
        match self {
            Layout::L1(_) => 0,
            Layout::L2(_) => 1,
            Layout::L3(_) => 2,
            Layout::L4(_) => 3,
            Layout::L5(_) => 4,
            Layout::L6(_) => 5,
            Layout::L7(_) => 6,
            Layout::L8(_) => 7,
            Layout::L9(_) => 8,
            Layout::L10(_) => 9,
            Layout::L11(_) => 10,
        }
    }

    pub fn opcode_offset(&self) -> (r: u16)
        ensures
            r == self.opcode_offset_spec(),
            r <= 10,
    {
        match self {
            Layout::L1(_) => 0,
            Layout::L2(_) => 1,
            Layout::L3(_) => 2,
            Layout::L4(_) => 3,
            Layout::L5(_) => 4,
            Layout::L6(_) => 5,
            Layout::L7(_) => 6,
            Layout::L8(_) => 7,
            Layout::L9(_) => 8,
            Layout::L10(_) => 9,
            Layout::L11(_) => 10,
        }
    }

    /// The value of the argument section: every field times its multiplier.
    pub open spec fn args_value_spec(self) -> int {
        match self {
            Layout::L1(L1(r1, r2)) => r1.value * POW46 + r2.value * POW40,
            Layout::L2(L2(r, im)) => r.value * POW46 + im.bits_pattern(),
            Layout::L3(L3(im, r)) => im.bits_pattern() * POW6 + r.value,
            Layout::L4(L4(r1, r2, off)) => r1.value * POW46 + r2.value * POW40 + off.bits()
                * POW24,
            Layout::L5(L5(r, off, im)) => r.value * POW46 + off.bits() * POW30
                + im.bits_pattern(),
            Layout::L6(L6(im1, im2)) => im1.bits_pattern() * POW26 + im2.bits_pattern(),
            Layout::L7(L7(r1, r2, r3)) => r1.value * POW46 + r2.value * POW40 + r3.value * POW34,
            Layout::L8(L8(r1, r2, im)) => r1.value * POW46 + r2.value * POW40
                + im.bits_pattern(),
            Layout::L9(L9(r)) => r.value * POW46,
            Layout::L10(L10(im)) => im.bits_pattern(),
            Layout::L11(L11(r, off)) => r.value * POW46 + off.bits() * POW30,
        }
    }

    /// The full 64-bit word this layout encodes to under the given base opcode.
    pub open spec fn encode_spec(self, base_opcode: u16) -> int {
        (base_opcode + self.opcode_offset_spec()) * POW52 + self.args_value_spec()
    }

    /// Packs the layout's fields and the opcode into a 64-bit word.
    pub fn to_binary(&self, base_opcode: u16) -> (r: u64)
        requires
            self.wf(),
            base_opcode + self.opcode_offset_spec() < 0x1000,
        ensures
            r == self.encode_spec(base_opcode),
    {
        let opcode: u64 = (base_opcode + self.opcode_offset()) as u64;
        match *self {
            Layout::L1(L1(r1, r2)) => {
                opcode * POW52 + (r1.value as u64) * POW46 + (r2.value as u64) * POW40
            },
            Layout::L2(L2(r, im)) => opcode * POW52 + (r.value as u64) * POW46 + im.to_bits(),
            Layout::L3(L3(im, r)) => opcode * POW52 + im.to_bits() * POW6 + (r.value as u64),
            Layout::L4(L4(r1, r2, off)) => {
                opcode * POW52 + (r1.value as u64) * POW46 + (r2.value as u64) * POW40
                    + off.to_bits() * POW24
            },
            Layout::L5(L5(r, off, im)) => {
                opcode * POW52 + (r.value as u64) * POW46 + off.to_bits() * POW30 + im.to_bits()
            },
            Layout::L6(L6(im1, im2)) => opcode * POW52 + im1.to_bits() * POW26 + im2.to_bits(),
            Layout::L7(L7(r1, r2, r3)) => {
                opcode * POW52 + (r1.value as u64) * POW46 + (r2.value as u64) * POW40
                    + (r3.value as u64) * POW34
            },
            Layout::L8(L8(r1, r2, im)) => {
                opcode * POW52 + (r1.value as u64) * POW46 + (r2.value as u64) * POW40
                    + im.to_bits()
            },
            Layout::L9(L9(r)) => opcode * POW52 + (r.value as u64) * POW46,
            Layout::L10(L10(im)) => opcode * POW52 + im.to_bits(),
            Layout::L11(L11(r, off)) => {
                opcode * POW52 + (r.value as u64) * POW46 + off.to_bits() * POW30
            },
        }
    }

    /// Rebuilds the typed argument fields of the layout selected by
    /// `opcode_offset` from an encoded instruction word. Returns `None` when
    /// the offset does not name one of the eleven layouts.
    pub fn from_binary(word: u64, opcode_offset: u16) -> (r: Option<Layout>)
        ensures
            r == Layout::decode_spec(word, opcode_offset),
            opcode_offset <= 10 <==> r is Some,
            r is Some ==> r.unwrap().wf() && r.unwrap().opcode_offset_spec() == opcode_offset,
    {
        match opcode_offset {
            0 => Some(Layout::L1(L1(Reg::read(word, POW46), Reg::read(word, POW40)))),
            1 => Some(Layout::L2(L2(Reg::read(word, POW46), Imm::read(word, 1, 46)))),
            2 => Some(Layout::L3(L3(Imm::read(word, POW6, 46), Reg::read(word, 1)))),
            3 => Some(
                Layout::L4(
                    L4(Reg::read(word, POW46), Reg::read(word, POW40), Offset::read(word, POW24)),
                ),
            ),
            4 => Some(
                Layout::L5(
                    L5(Reg::read(word, POW46), Offset::read(word, POW30), Imm::read(word, 1, 30)),
                ),
            ),
            5 => Some(Layout::L6(L6(Imm::read(word, POW26, 26), Imm::read(word, 1, 26)))),
            6 => Some(
                Layout::L7(
                    L7(Reg::read(word, POW46), Reg::read(word, POW40), Reg::read(word, POW34)),
                ),
            ),
            7 => Some(
                Layout::L8(
                    L8(Reg::read(word, POW46), Reg::read(word, POW40), Imm::read(word, 1, 40)),
                ),
            ),
            8 => Some(Layout::L9(L9(Reg::read(word, POW46)))),
            9 => Some(Layout::L10(L10(Imm::read(word, 1, 52)))),
            10 => Some(Layout::L11(L11(Reg::read(word, POW46), Offset::read(word, POW30)))),
            _ => None,
        }
    }

    /// What `from_binary` returns: each field read back from its position.
    pub open spec fn decode_spec(word: u64, opcode_offset: u16) -> Option<Layout> {
        if opcode_offset == 0 {
            Some(
                Layout::L1(
                    L1(
                        Reg { value: (((word / POW46) % 64) as u8) },
                        Reg { value: (((word / POW40) % 64) as u8) },
                    ),
                ),
            )
        } else if opcode_offset == 1 {
            Some(
                Layout::L2(
                    L2(
                        Reg { value: (((word / POW46) % 64) as u8) },
                        Layout::imm_decode_spec(word, 1, 46),
                    ),
                ),
            )
        } else if opcode_offset == 2 {
            Some(
                Layout::L3(
                    L3(
                        Layout::imm_decode_spec(word, POW6 as int, 46),
                        Reg { value: ((word % 64) as u8) },
                    ),
                ),
            )
        } else if opcode_offset == 3 {
            Some(
                Layout::L4(
                    L4(
                        Reg { value: (((word / POW46) % 64) as u8) },
                        Reg { value: (((word / POW40) % 64) as u8) },
                        Layout::off_decode_spec(word, POW24 as int),
                    ),
                ),
            )
        } else if opcode_offset == 4 {
            Some(
                Layout::L5(
                    L5(
                        Reg { value: (((word / POW46) % 64) as u8) },
                        Layout::off_decode_spec(word, POW30 as int),
                        Layout::imm_decode_spec(word, 1, 30),
                    ),
                ),
            )
        } else if opcode_offset == 5 {
            Some(
                Layout::L6(
                    L6(
                        Layout::imm_decode_spec(word, POW26 as int, 26),
                        Layout::imm_decode_spec(word, 1, 26),
                    ),
                ),
            )
        } else if opcode_offset == 6 {
            Some(
                Layout::L7(
                    L7(
                        Reg { value: (((word / POW46) % 64) as u8) },
                        Reg { value: (((word / POW40) % 64) as u8) },
                        Reg { value: (((word / POW34) % 64) as u8) },
                    ),
                ),
            )
        } else if opcode_offset == 7 {
            Some(
                Layout::L8(
                    L8(
                        Reg { value: (((word / POW46) % 64) as u8) },
                        Reg { value: (((word / POW40) % 64) as u8) },
                        Layout::imm_decode_spec(word, 1, 40),
                    ),
                ),
            )
        } else if opcode_offset == 8 {
            Some(Layout::L9(L9(Reg { value: (((word / POW46) % 64) as u8) })))
        } else if opcode_offset == 9 {
            Some(Layout::L10(L10(Layout::imm_decode_spec(word, 1, 52))))
        } else if opcode_offset == 10 {
            Some(
                Layout::L11(
                    L11(
                        Reg { value: (((word / POW46) % 64) as u8) },
                        Layout::off_decode_spec(word, POW30 as int),
                    ),
                ),
            )
        } else {
            None
        }
    }

    /// An immediate field read back: extract `bits` bits at multiplier `p`
    /// and sign-extend.
    pub open spec fn imm_decode_spec(word: u64, p: int, bits: u8) -> Imm {
        let raw = (word as int / p) % (2 * imm_half_spec(bits));
        if raw < imm_half_spec(bits) {
            Imm { bits, value: raw as i64 }
        } else {
            Imm { bits, value: (raw - 2 * imm_half_spec(bits)) as i64 }
        }
    }

    /// An offset field read back: extract 16 bits at multiplier `p` and
    /// sign-extend.
    pub open spec fn off_decode_spec(word: u64, p: int) -> Offset {
        let raw = (word as int / p) % 0x10000;
        if raw < 0x8000 {
            Offset { value: raw as i16 }
        } else {
            Offset { value: (raw - 0x10000) as i16 }
        }
    }
}

/// Extracting a field from a packed word: if `w` splits into fields above
/// (`h`), the field itself (`f`, width-modulus `n`, multiplier `p`), and
/// fields below (`l`), then dividing by the multiplier and reducing by the
/// modulus recovers the field.
proof fn lemma_extract(w: int, h: int, f: int, l: int, p: int, n: int)
    requires
        p > 0,
        n > 0,
        0 <= f < n,
        0 <= l < p,
        0 <= h,
        w == h * (p * n) + f * p + l,
    ensures
        0 <= w,
        (w / p) % n == f,
{
    assert(h * (p * n) == (h * n) * p) by (nonlinear_arith);
    assert((h * n + f) * p == (h * n) * p + f * p) by (nonlinear_arith);
    assert(h * n >= 0) by (nonlinear_arith)
        requires
            h >= 0 && n > 0,
    ;
    assert(w == (h * n + f) * p + l);
    vstd::arithmetic::div_mod::lemma_fundamental_div_mod_converse(w, p, h * n + f, l);
    assert((h * n + f) * p >= 0) by (nonlinear_arith)
        requires
            h * n + f >= 0 && p > 0,
    ;
    vstd::arithmetic::div_mod::lemma_mod_multiples_vanish(h, f, n);
    vstd::arithmetic::div_mod::lemma_small_mod(f as nat, n as nat);
}

/// The argument section of a well-formed layout fits in its 52 bits.
pub proof fn lemma_args_value_bound(layout: Layout)
    requires
        layout.wf(),
    ensures
        0 <= layout.args_value_spec() < POW52,
{
}

/// Decoding the encoding of a well-formed layout under its own opcode offset
/// yields the layout back: the codec loses nothing, sign extension included.
pub proof fn lemma_layout_round_trip(layout: Layout, base_opcode: u16)
    requires
        layout.wf(),
        base_opcode + layout.opcode_offset_spec() < 0x1000,
    ensures
        0 <= layout.encode_spec(base_opcode) < 0x10000000000000000,
        (layout.encode_spec(base_opcode) as u64) / POW52 == base_opcode
            + layout.opcode_offset_spec(),
        Layout::decode_spec(
            layout.encode_spec(base_opcode) as u64,
            layout.opcode_offset_spec(),
        ) == Some(layout),
{
    let op = (base_opcode + layout.opcode_offset_spec()) as int;
    let w = layout.encode_spec(base_opcode);
    lemma_args_value_bound(layout);
    assert(w == op * (POW52 as int) + layout.args_value_spec());
    assert(0 <= w < 0x10000000000000000);
    vstd::arithmetic::div_mod::lemma_fundamental_div_mod_converse(
        w,
        POW52 as int,
        op,
        layout.args_value_spec(),
    );
    let wu = w as u64;
    assert(wu as int == w);
    match layout {
        Layout::L1(L1(r1, r2)) => {
            lemma_extract(w, op, r1.value as int, r2.value * POW40, POW46 as int, 64);
            lemma_extract(w, op * 64 + r1.value, r2.value as int, 0, POW40 as int, 64);
        },
        Layout::L2(L2(r, im)) => {
            lemma_extract(w, op, r.value as int, im.bits_pattern(), POW46 as int, 64);
            lemma_extract(w, op * POW6 + r.value, im.bits_pattern(), 0, 1, POW46 as int);
        },
        Layout::L3(L3(im, r)) => {
            lemma_extract(w, op, im.bits_pattern(), r.value as int, POW6 as int, POW46 as int);
            lemma_extract(w, op * POW46 + im.bits_pattern(), r.value as int, 0, 1, 64);
        },
        Layout::L4(L4(r1, r2, off)) => {
            lemma_extract(
                w,
                op,
                r1.value as int,
                r2.value * POW40 + off.bits() * POW24,
                POW46 as int,
                64,
            );
            lemma_extract(
                w,
                op * 64 + r1.value,
                r2.value as int,
                off.bits() * POW24,
                POW40 as int,
                64,
            );
            lemma_extract(
                w,
                (op * 64 + r1.value) * 64 + r2.value,
                off.bits(),
                0,
                POW24 as int,
                POW16 as int,
            );
        },
        Layout::L5(L5(r, off, im)) => {
            lemma_extract(
                w,
                op,
                r.value as int,
                off.bits() * POW30 + im.bits_pattern(),
                POW46 as int,
                64,
            );
            lemma_extract(
                w,
                op * 64 + r.value,
                off.bits(),
                im.bits_pattern(),
                POW30 as int,
                POW16 as int,
            );
            lemma_extract(
                w,
                (op * 64 + r.value) * POW16 + off.bits(),
                im.bits_pattern(),
                0,
                1,
                POW30 as int,
            );
        },
        Layout::L6(L6(im1, im2)) => {
            lemma_extract(
                w,
                op,
                im1.bits_pattern(),
                im2.bits_pattern(),
                POW26 as int,
                POW26 as int,
            );
            lemma_extract(
                w,
                op * POW26 + im1.bits_pattern(),
                im2.bits_pattern(),
                0,
                1,
                POW26 as int,
            );
        },
        Layout::L7(L7(r1, r2, r3)) => {
            lemma_extract(
                w,
                op,
                r1.value as int,
                r2.value * POW40 + r3.value * POW34,
                POW46 as int,
                64,
            );
            lemma_extract(
                w,
                op * 64 + r1.value,
                r2.value as int,
                r3.value * POW34,
                POW40 as int,
                64,
            );
            lemma_extract(
                w,
                (op * 64 + r1.value) * 64 + r2.value,
                r3.value as int,
                0,
                POW34 as int,
                64,
            );
        },
        Layout::L8(L8(r1, r2, im)) => {
            lemma_extract(
                w,
                op,
                r1.value as int,
                r2.value * POW40 + im.bits_pattern(),
                POW46 as int,
                64,
            );
            lemma_extract(
                w,
                op * 64 + r1.value,
                r2.value as int,
                im.bits_pattern(),
                POW40 as int,
                64,
            );
            lemma_extract(
                w,
                (op * 64 + r1.value) * 64 + r2.value,
                im.bits_pattern(),
                0,
                1,
                POW40 as int,
            );
        },
        Layout::L9(L9(r)) => {
            lemma_extract(w, op, r.value as int, 0, POW46 as int, 64);
        },
        Layout::L10(L10(im)) => {
            lemma_extract(w, op, im.bits_pattern(), 0, 1, POW52 as int);
        },
        Layout::L11(L11(r, off)) => {
            lemma_extract(w, op, r.value as int, off.bits() * POW30, POW46 as int, 64);
            lemma_extract(w, op * 64 + r.value, off.bits(), 0, POW30 as int, POW16 as int);
        },
    }
}

/// A validated instruction ready for binary emission: the instruction kind's
/// base opcode and the chosen argument layout. The layout's opcode offset is
/// added to the base opcode when the word is generated.
#[derive(Debug, Clone, Copy, PartialEq, Eq, Structural)]
pub struct InstrLayout {
    /// The base opcode for this instruction.
    pub base_opcode: u16,
    pub layout: Layout,
}

impl InstrLayout {
    pub open spec fn wf(self) -> bool {
        &&& self.layout.wf()
        &&& self.base_opcode % 12 == 0
        &&& self.base_opcode <= 624
    }

    pub open spec fn encode_spec(self) -> int {
        self.layout.encode_spec(self.base_opcode)
    }

    /// Creates the 64-bit binary representation of this instruction.
    pub fn to_binary(&self) -> (r: u64)
        requires
            self.wf(),
        ensures
            r == self.encode_spec(),
    {
        self.layout.to_binary(self.base_opcode)
    }
}

} // verus!
