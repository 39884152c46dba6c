use vstd::prelude::*;
use crate::diag::Diagnostics;
use crate::ir;
use crate::label_offsets::LabelOffsets;
use crate::layout::InstrLayout;
use crate::validate::program_wf;

verus! {

/// One executable entry: an encoded instruction or a static data directive,
/// with no spans or other source-related information left.
#[derive(Debug, Clone, PartialEq)]
pub enum Stmt {
    StaticData(StaticData),
    Instr(InstrLayout),
}

#[derive(Debug, Clone, PartialEq)]
pub enum StaticData {
    StaticBytes(StaticBytes),
    StaticZero(StaticZero),
    StaticUninit(StaticUninit),
    StaticByteStr(StaticByteStr),
}

/// The `.b1`, `.b2`, `.b4`, or `.b8` static data directive; the value is
/// emitted in little-endian byte order over its width.
#[derive(Debug, Clone, Copy, PartialEq, Eq, Structural)]
pub enum StaticBytes {
    B1(u8),
    B2(u16),
    B4(u32),
    B8(u64),
}

/// The `.zero` directive.
#[derive(Debug, Clone, Copy, PartialEq, Eq, Structural)]
pub struct StaticZero {
    pub nbytes: Size,
}

/// The `.uninit` directive: contributes only to size and address layout.
#[derive(Debug, Clone, Copy, PartialEq, Eq, Structural)]
pub struct StaticUninit {
    pub nbytes: Size,
}

/// The `.bytes` directive.
#[derive(Debug, Clone, PartialEq)]
pub struct StaticByteStr {
    pub bytes: Bytes,
}

pub type Bytes = Vec<u8>;

pub type Size = u64;

/// The static data entry a validated directive becomes.
pub open spec fn static_data_spec(data: ir::StaticData) -> StaticData {
    match data {
        ir::StaticData::StaticBytes(d) => StaticData::StaticBytes(
            match d.value {
                ir::StaticBytesValue::B1(v, _) => StaticBytes::B1(v),
                ir::StaticBytesValue::B2(v, _) => StaticBytes::B2(v),
                ir::StaticBytesValue::B4(v, _) => StaticBytes::B4(v),
                ir::StaticBytesValue::B8(v, _) => StaticBytes::B8(v),
            },
        ),
        ir::StaticData::StaticZero(d) => StaticData::StaticZero(
            StaticZero { nbytes: d.nbytes.value },
        ),
        ir::StaticData::StaticUninit(d) => StaticData::StaticUninit(
            StaticUninit { nbytes: d.nbytes.value },
        ),
        ir::StaticData::StaticByteStr(d) => StaticData::StaticByteStr(
            StaticByteStr { bytes: d.bytes.value },
        ),
    }
}

impl StaticData {
    /// Strips the spans off a validated static data directive.
    pub fn from_ir(data: ir::StaticData) -> (r: StaticData)
        ensures
            r == static_data_spec(data),
    {
        match data {
            ir::StaticData::StaticBytes(d) => StaticData::StaticBytes(
                match d.value {
                    ir::StaticBytesValue::B1(v, _) => StaticBytes::B1(v),
                    ir::StaticBytesValue::B2(v, _) => StaticBytes::B2(v),
                    ir::StaticBytesValue::B4(v, _) => StaticBytes::B4(v),
                    ir::StaticBytesValue::B8(v, _) => StaticBytes::B8(v),
                },
            ),
            ir::StaticData::StaticZero(d) => StaticData::StaticZero(
                StaticZero { nbytes: d.nbytes.value },
            ),
            ir::StaticData::StaticUninit(d) => StaticData::StaticUninit(
                StaticUninit { nbytes: d.nbytes.value },
            ),
            ir::StaticData::StaticByteStr(d) => StaticData::StaticByteStr(
                StaticByteStr { bytes: d.bytes.value },
            ),
        }
    }
}

/// The statements of an optional section: none when the section is absent.
pub open spec fn section_stmts(section: Option<ir::Section>) -> Seq<ir::Stmt> {
    match section {
        Some(s) => s.stmts@,
        None => Seq::empty(),
    }
}

/// The executable entry a validated statement becomes under the given label
/// offsets.
pub open spec fn emit_stmt_spec(stmt: ir::Stmt, m: Map<Seq<u8>, u64>) -> Stmt {
    match stmt.kind {
        ir::StmtKind::StaticData(data) => Stmt::StaticData(static_data_spec(data)),
        ir::StmtKind::Instr(i) => Stmt::Instr(i.layout_instr_spec(m)),
    }
}

/// Every encoded instruction among the entries is well-formed.
pub open spec fn stmts_wf(stmts: Seq<Stmt>) -> bool {
    forall|i: int|
        0 <= i < stmts.len() ==> match #[trigger] stmts[i] {
            Stmt::Instr(il) => il.wf(),
            Stmt::StaticData(_) => true,
        }
}

/// The serializable form of an assembled program: the code section's emit
/// records followed by the static section's, in statement order.
#[derive(Debug, Clone, PartialEq)]
pub struct Executable {
    pub code_section: Vec<Stmt>,
    pub static_section: Vec<Stmt>,
}

impl Executable {
    /// Lays out a validated program: resolves each instruction's labels,
    /// selects its layout, and strips static data down to its emit record.
    /// Entry `i` of each output section is the emitted form of statement `i`
    /// of that section.
    pub fn layout_executable(prog: ir::Program, diag: &mut Diagnostics, labels: &LabelOffsets) -> (r:
        Executable)
        requires
            program_wf(prog),
        ensures
            old(diag).records@.is_prefix_of(final(diag).records@),
            r.code_section@.len() == section_stmts(prog.code_section).len(),
            forall|i: int|
                #![trigger r.code_section@[i]]
                0 <= i < r.code_section@.len() ==> r.code_section@[i] == emit_stmt_spec(
                    section_stmts(prog.code_section)[i],
                    labels@,
                ),
            r.static_section@.len() == section_stmts(prog.static_section).len(),
            forall|i: int|
                #![trigger r.static_section@[i]]
                0 <= i < r.static_section@.len() ==> r.static_section@[i] == emit_stmt_spec(
                    section_stmts(prog.static_section)[i],
                    labels@,
                ),
            stmts_wf(r.code_section@),
            stmts_wf(r.static_section@),
    {
        let ghost all = prog.all_stmts();
        let ghost code_len: int = if prog.code_section is Some {
            prog.code_section->Some_0.stmts@.len() as int
        } else {
            0
        };
        let ir::Program { code_section, static_section } = prog;
        let code_section = match code_section {
            Some(section) => {
                proof {
                    assert forall|i: int|
                        0 <= i < section.stmts@.len() implies match #[trigger] section.stmts@[i].kind {
                        ir::StmtKind::Instr(instr) => instr.wf(),
                        ir::StmtKind::StaticData(_) => true,
                    } by {
                        assert(all[i] == section.stmts@[i]);
                    };
                }
                layout_section(section, diag, labels)
            },
            None => Vec::new(),
        };
        let static_section = match static_section {
            Some(section) => {
                proof {
                    assert forall|i: int|
                        0 <= i < section.stmts@.len() implies match #[trigger] section.stmts@[i].kind {
                        ir::StmtKind::Instr(instr) => instr.wf(),
                        ir::StmtKind::StaticData(_) => true,
                    } by {
                        assert(all[code_len + i] == section.stmts@[i]);
                    };
                }
                layout_section(section, diag, labels)
            },
            None => Vec::new(),
        };
        Executable { code_section, static_section }
    }
}

/// Lays out one section's statements in order.
fn layout_section(section: ir::Section, diag: &mut Diagnostics, labels: &LabelOffsets) -> (r: Vec<
    Stmt,
>)
    requires
        forall|i: int|
            0 <= i < section.stmts@.len() ==> match #[trigger] section.stmts@[i].kind {
                ir::StmtKind::Instr(instr) => instr.wf(),
                ir::StmtKind::StaticData(_) => true,
            },
    ensures
        old(diag).records@.is_prefix_of(final(diag).records@),
        r@.len() == section.stmts@.len(),
        forall|i: int|
            0 <= i < section.stmts@.len() ==> r@[i] == emit_stmt_spec(
                #[trigger] section.stmts@[i],
                labels@,
            ),
        stmts_wf(r@),
{
    let ir::Section { section_header_span: _, stmts } = section;
    let mut out: Vec<Stmt> = Vec::new();
    let mut rest = stmts;
    let ghost orig = rest@;
    let ghost mut i: int = 0;
    proof {
        assert(rest@ =~= orig.skip(0));
    }
    while rest.len() > 0
        invariant
            0 <= i,
            i + rest@.len() == orig.len(),
            rest@ == orig.skip(i),
            out@.len() == i,
            forall|j: int|
                0 <= j < orig.len() ==> match (#[trigger] orig[j]).kind {
                    ir::StmtKind::Instr(instr) => instr.wf(),
                    ir::StmtKind::StaticData(_) => true,
                },
            forall|j: int| 0 <= j < i ==> out@[j] == emit_stmt_spec(#[trigger] orig[j], labels@),
            stmts_wf(out@),
            old(diag).records@.is_prefix_of(diag.records@),
        decreases rest@.len(),
    {
        proof {
            assert(rest@[0] == orig[i]);
        }
        let stmt = rest.remove(0);
        proof {
            assert(rest@ =~= orig.skip(i + 1));
        }
        let emitted: Stmt = match stmt.kind {
            ir::StmtKind::StaticData(data) => Stmt::StaticData(StaticData::from_ir(data)),
            ir::StmtKind::Instr(instr) => Stmt::Instr(instr.layout(diag, labels)),
        };
        out.push(emitted);
        proof {
            i = i + 1;
        }
    }
    out
}

} // verus!
