use vstd::prelude::*;

verus! {

/// The outcome of asking for one input byte.
#[derive(Debug, Clone, Copy, PartialEq, Eq, Structural)]
pub enum InputByte {
    /// The next input byte.
    Byte(u8),
    /// The input is closed and exhausted.
    Eof,
    /// The buffer is exhausted but the input is not closed: the driver must
    /// supply more input before the read can complete.
    WouldBlock,
}

/// Whether a 32-bit value is a Unicode scalar value.
pub open spec fn valid_scalar(v: u32) -> bool {
    v < 0xD800 || (0xE000 <= v <= 0x10FFFF)
}

/// The UTF-8 encoding of a scalar value; a value that is not a valid scalar
/// encodes as the replacement character.
pub open spec fn utf8_bytes(v: u32) -> Seq<u8> {
    if !valid_scalar(v) {
        // The replacement character U+FFFD.
        seq![0xEFu8, 0xBFu8, 0xBDu8]
    } else if v < 0x80 {
        seq![v as u8]
    } else if v < 0x800 {
        seq![(0xC0 + v / 0x40) as u8, (0x80 + v % 0x40) as u8]
    } else if v < 0x10000 {
        seq![
            (0xE0 + v / 0x1000) as u8,
            (0x80 + (v / 0x40) % 0x40) as u8,
            (0x80 + v % 0x40) as u8,
        ]
    } else {
        seq![
            (0xF0 + v / 0x40000) as u8,
            (0x80 + (v / 0x1000) % 0x40) as u8,
            (0x80 + (v / 0x40) % 0x40) as u8,
            (0x80 + v % 0x40) as u8,
        ]
    }
}

/// The machine's memory-mapped input and output, modeled as byte buffers. A
/// driver supplies input bytes and drains output bytes; the machine reads
/// input one byte at a time and writes Unicode scalars as UTF-8.
#[derive(Debug, Clone, PartialEq)]
pub struct Stdio {
    /// Bytes supplied by the driver, already consumed up to `input_pos`.
    pub input: Vec<u8>,
    pub input_pos: usize,
    /// Whether the driver has declared the input finished.
    pub input_closed: bool,
    /// UTF-8 bytes produced by the program, not yet drained.
    pub output: Vec<u8>,
}

impl Stdio {
    pub open spec fn wf(self) -> bool {
        self.input_pos <= self.input@.len()
    }

    /// A fresh I/O unit: no input, input open, no output.
    pub fn new() -> (r: Stdio)
        ensures
            r.wf(),
            r.input@.len() == 0,
            r.input_pos == 0,
            !r.input_closed,
            r.output@.len() == 0,
    {
        Stdio { input: Vec::new(), input_pos: 0, input_closed: false, output: Vec::new() }
    }

    /// Appends bytes for the program to read.
    pub fn provide_input(&mut self, bytes: &Vec<u8>)
        requires
            old(self).wf(),
        ensures
            final(self).wf(),
            final(self).input@ == old(self).input@ + bytes@,
            final(self).input_pos == old(self).input_pos,
            final(self).input_closed == old(self).input_closed,
            final(self).output == old(self).output,
    {
        let mut i: usize = 0;
        while i < bytes.len()
            invariant
                i <= bytes@.len(),
                self.input@ == old(self).input@ + bytes@.take(i as int),
                self.input_pos == old(self).input_pos,
                self.input_closed == old(self).input_closed,
                self.output == old(self).output,
            decreases bytes@.len() - i,
        {
            self.input.push(bytes[i]);
            proof {
                assert(old(self).input@ + bytes@.take(i + 1 as int) =~= (old(self).input@
                    + bytes@.take(i as int)).push(bytes@[i as int]));
            }
            i = i + 1;
        }
        proof {
            assert(bytes@.take(bytes@.len() as int) =~= bytes@);
        }
    }

    /// Declares the input finished: once the buffer runs out, reads return
    /// end-of-file instead of blocking.
    pub fn close_input(&mut self)
        ensures
            *final(self) == (Stdio { input_closed: true, ..*old(self) }),
    {
        self.input_closed = true;
    }

    /// Hands back the output produced so far and clears the buffer.
    pub fn take_output(&mut self) -> (r: Vec<u8>)
        ensures
            r == old(self).output,
            final(self).input == old(self).input,
            final(self).input_pos == old(self).input_pos,
            final(self).input_closed == old(self).input_closed,
            final(self).output@.len() == 0,
    {
        let mut out = Vec::new();
        core::mem::swap(&mut out, &mut self.output);
        proof {
            assert(self.output@ =~= Seq::<u8>::empty());
        }
        out
    }

    /// Reads the next input byte. Returns the byte and advances; reports
    /// end-of-file when the input is closed and exhausted; otherwise reports
    /// that the read would block until the driver supplies more input.
    pub fn read_byte(&mut self) -> (r: InputByte)
        requires
            old(self).wf(),
        ensures
            final(self).wf(),
            final(self).input == old(self).input,
            final(self).input_closed == old(self).input_closed,
            final(self).output == old(self).output,
            old(self).input_pos < old(self).input@.len() ==> r == InputByte::Byte(
                old(self).input@[old(self).input_pos as int],
            ) && final(self).input_pos == old(self).input_pos + 1,
            old(self).input_pos >= old(self).input@.len() ==> final(self).input_pos == old(
                self,
            ).input_pos && r == (if old(self).input_closed {
                InputByte::Eof
            } else {
                InputByte::WouldBlock
            }),
    {
        if self.input_pos < self.input.len() {
            let b = self.input[self.input_pos];
            self.input_pos = self.input_pos + 1;
            InputByte::Byte(b)
        } else if self.input_closed {
            InputByte::Eof
        } else {
            InputByte::WouldBlock
        }
    }

    /// Writes the given value to the output as one Unicode scalar, UTF-8
    /// encoded; a value that is no valid scalar writes the replacement
    /// character.
    pub fn write_bytes(&mut self, value: u32)
        ensures
            final(self).input == old(self).input,
            final(self).input_pos == old(self).input_pos,
            final(self).input_closed == old(self).input_closed,
            final(self).output@ == old(self).output@ + utf8_bytes(value),
    {
        let ghost before = self.output@;
        if !(value < 0xD800 || (0xE000 <= value && value <= 0x10FFFF)) {
            self.output.push(0xEF);
            self.output.push(0xBF);
            self.output.push(0xBD);
            proof {
                assert(self.output@ =~= before + utf8_bytes(value));
            }
        } else if value < 0x80 {
            self.output.push(value as u8);
            proof {
                assert(self.output@ =~= before + utf8_bytes(value));
            }
        } else if value < 0x800 {
            self.output.push((0xC0 + value / 0x40) as u8);
            self.output.push((0x80 + value % 0x40) as u8);
            proof {
                assert(self.output@ =~= before + utf8_bytes(value));
            }
        } else if value < 0x10000 {
            self.output.push((0xE0 + value / 0x1000) as u8);
            self.output.push((0x80 + (value / 0x40) % 0x40) as u8);
            self.output.push((0x80 + value % 0x40) as u8);
            proof {
                assert(self.output@ =~= before + utf8_bytes(value));
            }
        } else {
            self.output.push((0xF0 + value / 0x40000) as u8);
            self.output.push((0x80 + (value / 0x1000) % 0x40) as u8);
            self.output.push((0x80 + (value / 0x40) % 0x40) as u8);
            self.output.push((0x80 + value % 0x40) as u8);
            proof {
                assert(self.output@ =~= before + utf8_bytes(value));
            }
        }
    }
}

} // verus!
