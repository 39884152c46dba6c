use vstd::prelude::*;
use crate::executable::{Executable, StaticByteStr, StaticBytes, StaticData, StaticUninit, StaticZero, Stmt, stmts_wf};
use crate::layout::InstrLayout;
use crate::memory::{Memory, OutOfBounds, le_byte, written};

verus! {

/// Bytes outside `[addr, addr + n)` are unchanged and the length is kept.
pub open spec fn frame_outside(pre: Seq<u8>, post: Seq<u8>, addr: int, n: int) -> bool {
    &&& post.len() == pre.len()
    &&& forall|k: int| 0 <= k < pre.len() && !(addr <= k < addr + n) ==> post[k] == pre[k]
}

impl InstrLayout {
    /// Writes the encoded 64-bit instruction at the given address,
    /// little-endian, and returns the address just past it.
    pub fn write_into(&self, mem: &mut Memory, addr: u64) -> (r: Result<u64, OutOfBounds>)
        requires
            self.wf(),
        ensures
            addr + 8 <= old(mem)@.len() <==> r is Ok,
            r matches Ok(next) ==> next == addr + 8 && final(mem)@ =~= written(
                old(mem)@,
                addr as int,
                8,
                self.encode_spec(),
            ),
            r is Err ==> *final(mem) == *old(mem),
    {
        let word = self.to_binary();
        match mem.write_u64(addr, word) {
            Ok(()) => Ok(addr + 8),
            Err(e) => Err(e),
        }
    }
}

impl StaticBytes {
    /// Writes the directive's value at the given address in little-endian
    /// order over its width, and returns the address just past it.
    pub fn write_into(&self, mem: &mut Memory, addr: u64) -> (r: Result<u64, OutOfBounds>)
        ensures
            r matches Ok(next) ==> next == addr + self.width_spec() && final(mem)@ =~= written(
                old(mem)@,
                addr as int,
                self.width_spec(),
                self.value_spec(),
            ),
            r is Err ==> *final(mem) == *old(mem),
            addr + self.width_spec() <= old(mem)@.len() <==> r is Ok,
    {
        match self {
            StaticBytes::B1(v) => {
                match mem.set(addr, *v) {
                    Ok(()) => {
                        proof {
                            crate::memory::lemma_le_byte_small(*v as int, 1);
                            assert(mem@ =~= written(old(mem)@, addr as int, 1, *v as int));
                        }
                        Ok(addr + 1)
                    },
                    Err(e) => Err(e),
                }
            },
            StaticBytes::B2(v) => {
                match mem.write_u16(addr, *v) {
                    Ok(()) => Ok(addr + 2),
                    Err(e) => Err(e),
                }
            },
            StaticBytes::B4(v) => {
                match mem.write_u32(addr, *v) {
                    Ok(()) => Ok(addr + 4),
                    Err(e) => Err(e),
                }
            },
            StaticBytes::B8(v) => {
                match mem.write_u64(addr, *v) {
                    Ok(()) => Ok(addr + 8),
                    Err(e) => Err(e),
                }
            },
        }
    }

    /// The declared width in bytes.
    pub open spec fn width_spec(self) -> int {
        match self {
            StaticBytes::B1(_) => 1,
            StaticBytes::B2(_) => 2,
            StaticBytes::B4(_) => 4,
            StaticBytes::B8(_) => 8,
        }
    }

    /// The stored value.
    pub open spec fn value_spec(self) -> int {
        match self {
            StaticBytes::B1(v) => v as int,
            StaticBytes::B2(v) => v as int,
            StaticBytes::B4(v) => v as int,
            StaticBytes::B8(v) => v as int,
        }
    }
}

impl StaticZero {
    /// Fills the directive's byte count with zeros, returning the address
    /// just past them.
    pub fn write_into(&self, mem: &mut Memory, addr: u64) -> (r: Result<u64, OutOfBounds>)
        ensures
            r is Ok <==> (self.nbytes == 0 || addr + self.nbytes <= old(mem)@.len()),
            r matches Ok(next) ==> next == addr + self.nbytes && final(mem)@ =~= written(
                old(mem)@,
                addr as int,
                self.nbytes as int,
                0,
            ),
            frame_outside(old(mem)@, final(mem)@, addr as int, self.nbytes as int),
    {
        let cap = mem.capacity();
        let mut i: u64 = 0;
        while i < self.nbytes
            invariant
                i <= self.nbytes,
                mem@.len() == old(mem)@.len(),
                old(mem)@.len() <= u64::MAX,
                i > 0 ==> addr + i <= old(mem)@.len(),
                forall|k: int|
                    0 <= k < mem@.len() && !(addr <= k < addr + i) ==> mem@[k] == old(mem)@[k],
                forall|k: int| addr <= k < addr + i ==> 0 <= k < mem@.len() && mem@[k] == 0u8,
            decreases self.nbytes - i,
        {
            match mem.set(addr + i, 0) {
                Ok(()) => (),
                Err(e) => {
                    proof {
                        assert(addr + self.nbytes > old(mem)@.len());
                    }
                    return Err(e);
                },
            }
            i = i + 1;
        }
        proof {
            if self.nbytes > 0 {
                assert(addr + self.nbytes <= old(mem)@.len());
            }
        }
        proof {
            assert(mem@ =~= written(old(mem)@, addr as int, self.nbytes as int, 0)) by {
                assert forall|k: int| 0 <= k < mem@.len() implies mem@[k] == written(
                    old(mem)@,
                    addr as int,
                    self.nbytes as int,
                    0,
                )[k] by {
                    if addr <= k < addr + self.nbytes {
                        crate::memory::lemma_le_byte_zero(k - addr);
                    }
                };
            };
        }
        Ok(addr + self.nbytes)
    }
}

impl StaticUninit {
    /// Contributes only to size and address layout: no bytes are written.
    pub fn write_into(&self, mem: &mut Memory, addr: u64) -> (r: Result<u64, OutOfBounds>)
        ensures
            *final(mem) == *old(mem),
            addr + self.nbytes <= u64::MAX <==> r is Ok,
            r matches Ok(next) ==> next == addr + self.nbytes,
    {
        if self.nbytes <= u64::MAX - addr {
            Ok(addr + self.nbytes)
        } else {
            // The region runs past the address space.
            Err(OutOfBounds { addr, capacity: mem.capacity() as u64 })
        }
    }
}

impl StaticByteStr {
    /// Writes the literal bytes at the given address, returning the address
    /// just past them.
    pub fn write_into(&self, mem: &mut Memory, addr: u64) -> (r: Result<u64, OutOfBounds>)
        ensures
            r is Ok <==> (self.bytes@.len() == 0 || addr + self.bytes@.len() <= old(mem)@.len()),
            r matches Ok(next) ==> next == addr + self.bytes@.len() && final(mem)@ =~= spliced(
                old(mem)@,
                addr as int,
                self.bytes@,
            ),
            frame_outside(old(mem)@, final(mem)@, addr as int, self.bytes@.len() as int),
    {
        let cap = mem.capacity();
        let mut i: usize = 0;
        while i < self.bytes.len()
            invariant
                i <= self.bytes@.len(),
                mem@.len() == old(mem)@.len(),
                old(mem)@.len() <= u64::MAX,
                i > 0 ==> addr + i <= old(mem)@.len(),
                forall|k: int|
                    0 <= k < mem@.len() && !(addr <= k < addr + i) ==> mem@[k] == old(mem)@[k],
                forall|k: int|
                    addr <= k < addr + i ==> 0 <= k < mem@.len() && mem@[k] == self.bytes@[k
                        - addr],
            decreases self.bytes@.len() - i,
        {
            match mem.set(addr + i as u64, self.bytes[i]) {
                Ok(()) => (),
                Err(e) => {
                    proof {
                        assert(addr + self.bytes@.len() > old(mem)@.len());
                    }
                    return Err(e);
                },
            }
            i = i + 1;
        }
        proof {
            if self.bytes@.len() > 0 {
                assert(addr + self.bytes@.len() <= old(mem)@.len());
            }
            assert(mem@ =~= spliced(old(mem)@, addr as int, self.bytes@));
        }
        Ok(addr + self.bytes.len() as u64)
    }
}

/// The given bytes laid over the memory at the given address; everything
/// else unchanged.
pub open spec fn spliced(mem: Seq<u8>, addr: int, bytes: Seq<u8>) -> Seq<u8> {
    Seq::new(mem.len(), |k: int| if addr <= k < addr + bytes.len() {
        bytes[k - addr]
    } else {
        mem[k]
    })
}

/// The bytes one emit record occupies in the image.
pub open spec fn stmt_emit_size(s: Stmt) -> int {
    match s {
        Stmt::Instr(_) => 8,
        Stmt::StaticData(StaticData::StaticBytes(b)) => b.width_spec(),
        Stmt::StaticData(StaticData::StaticZero(z)) => z.nbytes as int,
        Stmt::StaticData(StaticData::StaticUninit(u)) => u.nbytes as int,
        Stmt::StaticData(StaticData::StaticByteStr(b)) => b.bytes@.len() as int,
    }
}

/// Whether one record's write at the given address succeeds: its bytes must
/// end at or before the capacity; an `.uninit` region writes nothing and
/// only needs to stay within the address space.
pub open spec fn stmt_fits(mem_len: int, addr: int, s: Stmt) -> bool {
    match s {
        Stmt::Instr(_) => addr + 8 <= mem_len,
        Stmt::StaticData(StaticData::StaticBytes(b)) => addr + b.width_spec() <= mem_len,
        Stmt::StaticData(StaticData::StaticZero(z)) => z.nbytes == 0 || addr + z.nbytes <= mem_len,
        Stmt::StaticData(StaticData::StaticUninit(u)) => addr + u.nbytes <= u64::MAX,
        Stmt::StaticData(StaticData::StaticByteStr(b)) => b.bytes@.len() == 0 || addr
            + b.bytes@.len() <= mem_len,
    }
}

/// The memory after one record's write at the given address.
pub open spec fn stmt_written(mem: Seq<u8>, addr: int, s: Stmt) -> Seq<u8> {
    match s {
        Stmt::Instr(il) => written(mem, addr, 8, il.encode_spec()),
        Stmt::StaticData(StaticData::StaticBytes(b)) => written(
            mem,
            addr,
            b.width_spec(),
            b.value_spec(),
        ),
        Stmt::StaticData(StaticData::StaticZero(z)) => written(mem, addr, z.nbytes as int, 0),
        Stmt::StaticData(StaticData::StaticUninit(_)) => mem,
        Stmt::StaticData(StaticData::StaticByteStr(b)) => spliced(mem, addr, b.bytes@),
    }
}

/// The bytes a run of records occupies: the sum of the records' sizes.
pub open spec fn stmts_size(stmts: Seq<Stmt>) -> int
    decreases stmts.len(),
{
    if stmts.len() == 0 {
        0
    } else {
        stmts_size(stmts.drop_last()) + stmt_emit_size(stmts.last())
    }
}

/// Whether every record of a run fits, each at the address where the
/// previous one ends.
pub open spec fn stmts_fit(mem_len: int, addr: int, stmts: Seq<Stmt>) -> bool
    decreases stmts.len(),
{
    if stmts.len() == 0 {
        true
    } else {
        stmts_fit(mem_len, addr, stmts.drop_last()) && stmt_fits(
            mem_len,
            addr + stmts_size(stmts.drop_last()),
            stmts.last(),
        )
    }
}

/// The memory after a run of records is written, each at the address where
/// the previous one ends.
pub open spec fn stmts_written(mem: Seq<u8>, addr: int, stmts: Seq<Stmt>) -> Seq<u8>
    decreases stmts.len(),
{
    if stmts.len() == 0 {
        mem
    } else {
        stmt_written(
            stmts_written(mem, addr, stmts.drop_last()),
            addr + stmts_size(stmts.drop_last()),
            stmts.last(),
        )
    }
}

/// A run that fits keeps fitting when cut short.
proof fn lemma_stmts_fit_prefix(mem_len: int, addr: int, stmts: Seq<Stmt>, j: int)
    requires
        0 <= j <= stmts.len(),
        stmts_fit(mem_len, addr, stmts),
    ensures
        stmts_fit(mem_len, addr, stmts.take(j)),
    decreases stmts.len() - j,
{
    if j == stmts.len() {
        assert(stmts.take(j) =~= stmts);
    } else {
        assert(stmts.drop_last().take(j) =~= stmts.take(j));
        lemma_stmts_fit_prefix(mem_len, addr, stmts.drop_last(), j);
    }
}

impl StaticData {
    /// Writes one static data directive, returning the address just past
    /// it; the memory afterwards is the record's write.
    pub fn write_into(&self, mem: &mut Memory, addr: u64) -> (r: Result<u64, OutOfBounds>)
        ensures
            final(mem)@.len() == old(mem)@.len(),
            r is Ok <==> stmt_fits(
                old(mem)@.len() as int,
                addr as int,
                Stmt::StaticData(*self),
            ),
            r matches Ok(next) ==> next == addr + stmt_emit_size(Stmt::StaticData(*self))
                && final(mem)@ =~= stmt_written(old(mem)@, addr as int, Stmt::StaticData(*self)),
    {
        match self {
            StaticData::StaticBytes(data) => data.write_into(mem, addr),
            StaticData::StaticZero(data) => data.write_into(mem, addr),
            StaticData::StaticUninit(data) => data.write_into(mem, addr),
            StaticData::StaticByteStr(data) => data.write_into(mem, addr),
        }
    }
}

impl Stmt {
    /// Writes one emit record, returning the address just past it; the
    /// memory afterwards is the record's write.
    pub fn write_into(&self, mem: &mut Memory, addr: u64) -> (r: Result<u64, OutOfBounds>)
        requires
            self matches Stmt::Instr(il) ==> il.wf(),
        ensures
            final(mem)@.len() == old(mem)@.len(),
            r is Ok <==> stmt_fits(old(mem)@.len() as int, addr as int, *self),
            r matches Ok(next) ==> next == addr + stmt_emit_size(*self) && final(mem)@
                =~= stmt_written(old(mem)@, addr as int, *self),
    {
        match self {
            Stmt::StaticData(data) => data.write_into(mem, addr),
            Stmt::Instr(instr) => instr.write_into(mem, addr),
        }
    }
}

/// Writes a run of emit records one after another, returning the address
/// just past the last; the memory afterwards is the whole run's image.
fn write_stmts(stmts: &Vec<Stmt>, mem: &mut Memory, addr: u64) -> (r: Result<u64, OutOfBounds>)
    requires
        stmts_wf(stmts@),
    ensures
        final(mem)@.len() == old(mem)@.len(),
        r is Ok <==> stmts_fit(old(mem)@.len() as int, addr as int, stmts@),
        r matches Ok(next) ==> next == addr + stmts_size(stmts@) && final(mem)@ =~= stmts_written(
            old(mem)@,
            addr as int,
            stmts@,
        ),
{
    let mut cur = addr;
    let mut i: usize = 0;
    proof {
        assert(stmts@.take(0int) =~= Seq::<Stmt>::empty());
    }
    while i < stmts.len()
        invariant
            i <= stmts@.len(),
            stmts_wf(stmts@),
            mem@.len() == old(mem)@.len(),
            cur == addr + stmts_size(stmts@.take(i as int)),
            stmts_fit(old(mem)@.len() as int, addr as int, stmts@.take(i as int)),
            mem@ == stmts_written(old(mem)@, addr as int, stmts@.take(i as int)),
        decreases stmts@.len() - i,
    {
        proof {
            assert(stmts@.take(i + 1 as int).drop_last() =~= stmts@.take(i as int));
            assert(stmts@.take(i + 1 as int).last() == stmts@[i as int]);
            assert(match stmts@[i as int] {
                Stmt::Instr(il) => il.wf(),
                Stmt::StaticData(_) => true,
            });
        }
        cur = match stmts[i].write_into(mem, cur) {
            Ok(next) => next,
            Err(e) => {
                proof {
                    assert(!stmts_fit(old(mem)@.len() as int, addr as int, stmts@)) by {
                        if stmts_fit(old(mem)@.len() as int, addr as int, stmts@) {
                            lemma_stmts_fit_prefix(
                                old(mem)@.len() as int,
                                addr as int,
                                stmts@,
                                i + 1 as int,
                            );
                            assert(stmts_fit(
                                old(mem)@.len() as int,
                                addr as int,
                                stmts@.take(i + 1 as int),
                            ));
                            assert(false);
                        }
                    };
                }
                return Err(e);
            },
        };
        i = i + 1;
    }
    proof {
        assert(stmts@.take(stmts@.len() as int) =~= stmts@);
    }
    Ok(cur)
}

impl Executable {
    /// Blits the executable into memory at the given address: the code
    /// section's records first, then the static section's, each at the
    /// address where the previous one ended. On success the memory holds
    /// the whole image and the returned address is just past it; the write
    /// succeeds exactly when every record fits.
    pub fn write_into(&self, mem: &mut Memory, addr: u64) -> (r: Result<u64, OutOfBounds>)
        requires
            stmts_wf(self.code_section@),
            stmts_wf(self.static_section@),
        ensures
            final(mem)@.len() == old(mem)@.len(),
            r is Ok <==> (stmts_fit(old(mem)@.len() as int, addr as int, self.code_section@)
                && stmts_fit(
                old(mem)@.len() as int,
                addr + stmts_size(self.code_section@),
                self.static_section@,
            )),
            r matches Ok(next) ==> next == addr + stmts_size(self.code_section@) + stmts_size(
                self.static_section@,
            ) && final(mem)@ =~= stmts_written(
                stmts_written(old(mem)@, addr as int, self.code_section@),
                addr + stmts_size(self.code_section@),
                self.static_section@,
            ),
    {
        let addr = match write_stmts(&self.code_section, mem, addr) {
            Ok(next) => next,
            Err(e) => {
                return Err(e);
            },
        };
        write_stmts(&self.static_section, mem, addr)
    }
}

/// An encoded instruction written into memory is fetched back unchanged:
/// reading eight bytes at its address yields exactly the encoded word, so
/// the loaded image feeds the decoder the very words the assembler packed.
pub proof fn lemma_written_instruction_reads_back(s: Seq<u8>, addr: int, il: InstrLayout)
    requires
        il.wf(),
        0 <= addr,
        addr + 8 <= s.len(),
    ensures
        crate::memory::le_at(written(s, addr, 8, il.encode_spec()), addr, 8) == il.encode_spec(),
{
    crate::instr::lemma_instr_round_trip(il);
    crate::memory::lemma_le_round_trip(s, addr, 8, il.encode_spec());
    assert(vstd::arithmetic::power2::pow2(64) == 0x10000000000000000) by {
        vstd::arithmetic::power2::lemma2_to64();
    };
    vstd::arithmetic::div_mod::lemma_small_mod(
        il.encode_spec() as nat,
        0x10000000000000000nat,
    );
}

} // verus!
