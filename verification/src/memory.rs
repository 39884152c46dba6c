use vstd::prelude::*;
use vstd::arithmetic::power2::pow2;
use vstd::arithmetic::power2::{lemma2_to64, lemma_pow2_adds, lemma_pow2_pos};
use vstd::arithmetic::div_mod::{lemma_breakdown, lemma_div_denominator, lemma_mod_multiples_basic};
use vstd::pervasive::VecAdditionalExecFns;

verus! {

/// An access to an address at or past the memory's capacity.
#[derive(Debug, Clone, Copy, PartialEq, Eq, Structural)]
pub struct OutOfBounds {
    /// The faulting address.
    pub addr: u64,
    /// One past the last valid address.
    pub capacity: u64,
}

/// The machine's linear byte-addressed memory with little-endian multi-byte
/// reads and writes and bounds checking.
#[derive(Debug, Clone, PartialEq)]
pub struct Memory {
    bytes: Vec<u8>,
}

impl View for Memory {
    type V = Seq<u8>;

    closed spec fn view(&self) -> Seq<u8> {
        self.bytes@
    }
}

/// The value of `n` little-endian bytes starting at `addr`:
/// `s[addr] + s[addr+1]*2^8 + ...`.
pub open spec fn le_at(s: Seq<u8>, addr: int, n: int) -> int
    decreases n,
{
    if n <= 0 {
        0
    } else {
        s[addr] + 0x100 * le_at(s, addr + 1, n - 1)
    }
}

/// Byte `j` of the `n`-byte little-endian encoding of `v`.
pub open spec fn le_byte(v: int, j: int) -> u8 {
    (((v / pow2((8 * j) as nat) as int) % 0x100) as u8)
}

/// The memory after writing the `n` low bytes of `v` little-endian at
/// `addr`: bytes in the window take the encoding, all others are unchanged.
pub open spec fn written(s: Seq<u8>, addr: int, n: int, v: int) -> Seq<u8> {
    Seq::new(s.len(), |k: int| if addr <= k < addr + n {
        le_byte(v, k - addr)
    } else {
        s[k]
    })
}

impl Memory {
    /// A new block of memory of the given size, all bytes zero.
    pub fn new(size_bytes: usize) -> (r: Memory)
        ensures
            r@.len() == size_bytes,
            forall|i: int| 0 <= i < size_bytes ==> r@[i] == 0u8,
    {
        let mut bytes: Vec<u8> = Vec::new();
        let mut i: usize = 0;
        while i < size_bytes
            invariant
                i <= size_bytes,
                bytes@.len() == i,
                forall|j: int| 0 <= j < i ==> bytes@[j] == 0u8,
            decreases size_bytes - i,
        {
            bytes.push(0);
            i = i + 1;
        }
        Memory { bytes }
    }

    /// The number of bytes of memory; one past the last valid address.
    pub fn capacity(&self) -> (r: usize)
        ensures
            r == self@.len(),
    {
        self.bytes.len()
    }

    /// Retrieves the byte at the given address; an address at or past the
    /// capacity is an error.
    pub fn get(&self, addr: u64) -> (r: Result<u8, OutOfBounds>)
        ensures
            addr < self@.len() <==> r is Ok,
            r matches Ok(b) ==> b == self@[addr as int],
            r matches Err(e) ==> e == (OutOfBounds { addr, capacity: self@.len() as u64 }),
            self@.len() <= u64::MAX,
    {
        if addr < self.bytes.len() as u64 {
            Ok(self.bytes[addr as usize])
        } else {
            Err(OutOfBounds { addr, capacity: self.bytes.len() as u64 })
        }
    }

    /// Sets the byte at the given address; an address at or past the
    /// capacity is an error and leaves memory unchanged.
    pub fn set(&mut self, addr: u64, value: u8) -> (r: Result<(), OutOfBounds>)
        ensures
            old(self)@.len() <= u64::MAX,
            addr < old(self)@.len() <==> r is Ok,
            r is Ok ==> final(self)@ == old(self)@.update(addr as int, value),
            r matches Err(e) ==> *final(self) == *old(self) && e == (OutOfBounds {
                addr,
                capacity: old(self)@.len() as u64,
            }),
    {
        if addr < self.bytes.len() as u64 {
            self.bytes.set(addr as usize, value);
            Ok(())
        } else {
            Err(OutOfBounds { addr, capacity: self.bytes.len() as u64 })
        }
    }

    /// Reads a 16-bit value at the given address, little-endian.
    pub fn read_u16(&self, addr: u64) -> (r: Result<u16, OutOfBounds>)
        ensures
            self@.len() <= u64::MAX,
            addr + 2 <= self@.len() <==> r is Ok,
            r matches Ok(v) ==> v == le_at(self@, addr as int, 2),
            r is Err ==> self@.len() <= u64::MAX && r->Err_0 == (OutOfBounds {
                addr,
                capacity: self@.len() as u64,
            }),
    {
        proof {
            reveal_with_fuel(le_at, 9);
        }
        let len = self.bytes.len() as u64;
        if addr < len && len - addr >= 2 {
            let b0 = self.bytes[addr as usize] as u16;
            let b1 = self.bytes[(addr + 1) as usize] as u16;
            Ok(b0 + 0x100 * b1)
        } else {
            Err(OutOfBounds { addr, capacity: len })
        }
    }

    /// Writes a 16-bit value at the given address, little-endian. On error
    /// memory is unchanged.
    pub fn write_u16(&mut self, addr: u64, value: u16) -> (r: Result<(), OutOfBounds>)
        ensures
            old(self)@.len() <= u64::MAX,
            addr + 2 <= old(self)@.len() <==> r is Ok,
            r is Ok ==> final(self)@ =~= written(old(self)@, addr as int, 2, value as int),
            r is Err ==> *final(self) == *old(self) && r->Err_0 == (OutOfBounds {
                addr,
                capacity: old(self)@.len() as u64,
            }),
    {
        let len = self.bytes.len() as u64;
        if addr < len && len - addr >= 2 {
            self.bytes.set(addr as usize, (value % 0x100) as u8);
            self.bytes.set((addr + 1) as usize, (value / 0x100) as u8);
            proof {
                lemma_le_byte_small(value as int, 2);
            }
            Ok(())
        } else {
            Err(OutOfBounds { addr, capacity: len })
        }
    }

    /// Reads a 32-bit value at the given address, little-endian.
    pub fn read_u32(&self, addr: u64) -> (r: Result<u32, OutOfBounds>)
        ensures
            self@.len() <= u64::MAX,
            addr + 4 <= self@.len() <==> r is Ok,
            r matches Ok(v) ==> v == le_at(self@, addr as int, 4),
            r is Err ==> self@.len() <= u64::MAX && r->Err_0 == (OutOfBounds {
                addr,
                capacity: self@.len() as u64,
            }),
    {
        proof {
            reveal_with_fuel(le_at, 9);
        }
        let len = self.bytes.len() as u64;
        if addr < len && len - addr >= 4 {
            let b0 = self.bytes[addr as usize] as u32;
            let b1 = self.bytes[(addr + 1) as usize] as u32;
            let b2 = self.bytes[(addr + 2) as usize] as u32;
            let b3 = self.bytes[(addr + 3) as usize] as u32;
            Ok(b0 + 0x100 * b1 + 0x10000 * b2 + 0x1000000 * b3)
        } else {
            Err(OutOfBounds { addr, capacity: len })
        }
    }

    /// Writes a 32-bit value at the given address, little-endian. On error
    /// memory is unchanged.
    pub fn write_u32(&mut self, addr: u64, value: u32) -> (r: Result<(), OutOfBounds>)
        ensures
            old(self)@.len() <= u64::MAX,
            addr + 4 <= old(self)@.len() <==> r is Ok,
            r is Ok ==> final(self)@ =~= written(old(self)@, addr as int, 4, value as int),
            r is Err ==> *final(self) == *old(self) && r->Err_0 == (OutOfBounds {
                addr,
                capacity: old(self)@.len() as u64,
            }),
    {
        let len = self.bytes.len() as u64;
        if addr < len && len - addr >= 4 {
            self.bytes.set(addr as usize, (value % 0x100) as u8);
            self.bytes.set((addr + 1) as usize, ((value / 0x100) % 0x100) as u8);
            self.bytes.set((addr + 2) as usize, ((value / 0x10000) % 0x100) as u8);
            self.bytes.set((addr + 3) as usize, (value / 0x1000000) as u8);
            proof {
                lemma_le_byte_small(value as int, 4);
            }
            Ok(())
        } else {
            Err(OutOfBounds { addr, capacity: len })
        }
    }

    /// Reads a 64-bit value at the given address, little-endian.
    pub fn read_u64(&self, addr: u64) -> (r: Result<u64, OutOfBounds>)
        ensures
            self@.len() <= u64::MAX,
            addr + 8 <= self@.len() <==> r is Ok,
            r matches Ok(v) ==> v == le_at(self@, addr as int, 8),
            r is Err ==> self@.len() <= u64::MAX && r->Err_0 == (OutOfBounds {
                addr,
                capacity: self@.len() as u64,
            }),
    {
        proof {
            reveal_with_fuel(le_at, 9);
        }
        let len = self.bytes.len() as u64;
        if addr < len && len - addr >= 8 {
            let b0 = self.bytes[addr as usize] as u64;
            let b1 = self.bytes[(addr + 1) as usize] as u64;
            let b2 = self.bytes[(addr + 2) as usize] as u64;
            let b3 = self.bytes[(addr + 3) as usize] as u64;
            let b4 = self.bytes[(addr + 4) as usize] as u64;
            let b5 = self.bytes[(addr + 5) as usize] as u64;
            let b6 = self.bytes[(addr + 6) as usize] as u64;
            let b7 = self.bytes[(addr + 7) as usize] as u64;
            Ok(
                b0 + 0x100 * b1 + 0x10000 * b2 + 0x1000000 * b3 + 0x100000000 * b4
                    + 0x10000000000 * b5 + 0x1000000000000 * b6 + 0x100000000000000 * b7,
            )
        } else {
            Err(OutOfBounds { addr, capacity: len })
        }
    }

    /// Writes a 64-bit value at the given address, little-endian. On error
    /// memory is unchanged.
    pub fn write_u64(&mut self, addr: u64, value: u64) -> (r: Result<(), OutOfBounds>)
        ensures
            old(self)@.len() <= u64::MAX,
            addr + 8 <= old(self)@.len() <==> r is Ok,
            r is Ok ==> final(self)@ =~= written(old(self)@, addr as int, 8, value as int),
            r is Err ==> *final(self) == *old(self) && r->Err_0 == (OutOfBounds {
                addr,
                capacity: old(self)@.len() as u64,
            }),
    {
        let len = self.bytes.len() as u64;
        if addr < len && len - addr >= 8 {
            self.bytes.set(addr as usize, (value % 0x100) as u8);
            self.bytes.set((addr + 1) as usize, ((value / 0x100) % 0x100) as u8);
            self.bytes.set((addr + 2) as usize, ((value / 0x10000) % 0x100) as u8);
            self.bytes.set((addr + 3) as usize, ((value / 0x1000000) % 0x100) as u8);
            self.bytes.set((addr + 4) as usize, ((value / 0x100000000) % 0x100) as u8);
            self.bytes.set((addr + 5) as usize, ((value / 0x10000000000) % 0x100) as u8);
            self.bytes.set((addr + 6) as usize, ((value / 0x1000000000000) % 0x100) as u8);
            self.bytes.set((addr + 7) as usize, (value / 0x100000000000000) as u8);
            proof {
                lemma_le_byte_small(value as int, 8);
            }
            Ok(())
        } else {
            Err(OutOfBounds { addr, capacity: len })
        }
    }
}

/// Expands `le_byte` for the byte positions of widths up to eight, so that
/// the divide-and-mask writes above meet the `written` specification.
pub proof fn lemma_le_byte_small(v: int, n: int)
    requires
        0 <= v,
    ensures
        le_byte(v, 0) == (v % 0x100) as u8,
        n >= 2 ==> le_byte(v, 1) == ((v / 0x100) % 0x100) as u8,
        n >= 4 ==> le_byte(v, 2) == ((v / 0x10000) % 0x100) as u8,
        n >= 4 ==> le_byte(v, 3) == ((v / 0x1000000) % 0x100) as u8,
        n >= 8 ==> le_byte(v, 4) == ((v / 0x100000000) % 0x100) as u8,
        n >= 8 ==> le_byte(v, 5) == ((v / 0x10000000000) % 0x100) as u8,
        n >= 8 ==> le_byte(v, 6) == ((v / 0x1000000000000) % 0x100) as u8,
        n >= 8 ==> le_byte(v, 7) == ((v / 0x100000000000000) % 0x100) as u8,
{
    lemma2_to64();
    assert(pow2(0) == 1);
    assert(v / 1 == v) by {
        vstd::arithmetic::div_mod::lemma_div_basics(v);
    };
    assert(pow2(8) == 0x100);
    assert(pow2(16) == 0x10000);
    assert(pow2(24) == 0x1000000);
    assert(pow2(32) == 0x100000000);
    lemma_pow2_adds(32, 8);
    assert(pow2(40) == 0x10000000000);
    lemma_pow2_adds(40, 8);
    assert(pow2(48) == 0x1000000000000);
    lemma_pow2_adds(48, 8);
    assert(pow2(56) == 0x100000000000000);
}

/// Every byte of the little-endian encoding of zero is zero.
pub proof fn lemma_le_byte_zero(j: int)
    requires
        0 <= j,
    ensures
        le_byte(0, j) == 0u8,
{
    vstd::arithmetic::power2::lemma_pow2_pos((8 * j) as nat);
}

/// Reading back `n` little-endian bytes just written yields the value's
/// remainder by `2^(8n)`: for a value below `2^(8n)`, exactly the value.
pub proof fn lemma_le_round_trip(s: Seq<u8>, addr: int, n: int, v: int)
    requires
        0 <= v,
        0 <= addr,
        0 <= n,
        addr + n <= s.len(),
    ensures
        le_at(written(s, addr, n, v), addr, n) == v % (pow2(
            (8 * n) as nat,
        ) as int),
    decreases n,
{
    if n == 0 {
        assert(pow2(0) == 1) by {
            lemma2_to64();
        };
        assert(v % 1 == 0) by {
            lemma_mod_multiples_basic(v, 1);
        };
    } else {
        let w = written(s, addr, n, v);
        let w2 = written(s, addr + 1, n - 1, v / 0x100);
        assert forall|k: int| addr + 1 <= k < addr + n implies w[k] == w2[k] by {
            assert(le_byte(v, k - addr) == le_byte(v / 0x100, k - addr - 1)) by {
                lemma_le_byte_shift(v, k - addr);
            };
        };
        assert(w.subrange(addr + 1, addr + n) =~= w2.subrange(addr + 1, addr + n)) by {
            assert forall|i: int| 0 <= i < n - 1 implies #[trigger] (w.subrange(
                addr + 1,
                addr + n,
            )[i]) == w2.subrange(addr + 1, addr + n)[i] by {
                assert(w[addr + 1 + i] == w2[addr + 1 + i]);
            };
        };
        assert(le_at(w, addr + 1, n - 1) == le_at(w2, addr + 1, n - 1)) by {
            lemma_le_at_congruent(w, w2, addr + 1, n - 1);
        };
        lemma_le_round_trip(s, addr + 1, n - 1, v / 0x100);
        assert(w[addr] == le_byte(v, 0));
        assert(le_byte(v, 0) == (v % 0x100) as u8) by {
            lemma_le_byte_small(v, 1);
        };
        assert(v % (0x100 * pow2((8 * (n - 1)) as nat) as int) == 0x100 * ((v / 0x100) % pow2(
            (8 * (n - 1)) as nat,
        ) as int) + v % 0x100) by {
            lemma_pow2_pos((8 * (n - 1)) as nat);
            lemma_breakdown(v, 0x100, pow2((8 * (n - 1)) as nat) as int);
        };
        assert(0x100 * pow2((8 * (n - 1)) as nat) as int == pow2((8 * n) as nat) as int) by {
            assert(pow2(8nat) == 0x100) by {
                lemma2_to64();
            };
            lemma_pow2_adds(8nat, (8 * (n - 1)) as nat);
        };
    }
}

/// `le_at` depends only on the bytes in its window.
pub proof fn lemma_le_at_congruent(s1: Seq<u8>, s2: Seq<u8>, addr: int, n: int)
    requires
        0 <= addr,
        0 <= n,
        addr + n <= s1.len(),
        addr + n <= s2.len(),
        s1.subrange(addr, addr + n) == s2.subrange(addr, addr + n),
    ensures
        le_at(s1, addr, n) == le_at(s2, addr, n),
    decreases n,
{
    if n > 0 {
        assert(s1[addr] == s2[addr]) by {
            assert(s1.subrange(addr, addr + n)[0] == s1[addr]);
            assert(s2.subrange(addr, addr + n)[0] == s2[addr]);
        };
        assert(s1.subrange(addr + 1, addr + n) =~= s2.subrange(addr + 1, addr + n)) by {
            assert forall|i: int| 0 <= i < n - 1 implies #[trigger] (s1.subrange(
                addr + 1,
                addr + n,
            )[i]) == s2.subrange(addr + 1, addr + n)[i] by {
                assert(s1.subrange(addr, addr + n)[i + 1] == s1[addr + 1 + i]);
                assert(s2.subrange(addr, addr + n)[i + 1] == s2[addr + 1 + i]);
            };
        };
        lemma_le_at_congruent(s1, s2, addr + 1, n - 1);
    }
}

/// Byte `j` of `v` is byte `j - 1` of `v / 256`, for positive `j`.
proof fn lemma_le_byte_shift(v: int, j: int)
    requires
        0 <= v,
        1 <= j,
    ensures
        le_byte(v, j) == le_byte(v / 0x100, j - 1),
{
    assert(pow2(8nat) == 0x100) by {
        lemma2_to64();
    };
    assert(pow2((8 * (j - 1)) as nat) > 0) by {
        lemma_pow2_pos((8 * (j - 1)) as nat);
    };
    assert(pow2((8 * j) as nat) == 0x100 * pow2((8 * (j - 1)) as nat)) by {
        lemma_pow2_adds(8nat, (8 * (j - 1)) as nat);
    };
    assert(v / (0x100 * pow2((8 * (j - 1)) as nat) as int) == (v / 0x100) / (pow2(
        (8 * (j - 1)) as nat,
    ) as int)) by {
        lemma_div_denominator(
            v,
            0x100,
            pow2((8 * (j - 1)) as nat) as int,
        );
    };
}

} // verus!
