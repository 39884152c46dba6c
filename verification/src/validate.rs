use vstd::prelude::*;
use crate::ast;
use crate::bytestr::vec_bytes_eq;
use crate::const_table::ConstTable;
use crate::diag::{DiagKind, Diagnostics, error_count};
use crate::ir;

verus! {

/// Every instruction among a validated program's statements is well-formed:
/// its operands fill its kind's declared shape and name registers below 64.
pub open spec fn program_wf(prog: ir::Program) -> bool {
    forall|i: int|
        0 <= i < prog.all_stmts().len() ==> match #[trigger] prog.all_stmts()[i].kind {
            ir::StmtKind::Instr(instr) => instr.wf(),
            ir::StmtKind::StaticData(_) => true,
        }
}

/// Which section receives statements after the first `n` statements have
/// been walked: none yet (0), the code section (1), or the static section
/// (2).
pub open spec fn section_mode(stmts: Seq<ast::Stmt>, n: int) -> int
    decreases n,
{
    if n <= 0 {
        0
    } else {
        match stmts[n - 1] {
            ast::Stmt::Section(s) => match s.kind {
                ast::SectionKind::Code(_) => 1,
                ast::SectionKind::Static(_) => 2,
            },
            _ => section_mode(stmts, n - 1),
        }
    }
}

/// Whether a section header of the given kind occurs among the first `n`
/// statements.
pub open spec fn has_header(stmts: Seq<ast::Stmt>, n: int, wanted: int) -> bool
    decreases n,
{
    if n <= 0 {
        false
    } else {
        has_header(stmts, n - 1, wanted) || (match stmts[n - 1] {
            ast::Stmt::Section(s) => (match s.kind {
                ast::SectionKind::Code(_) => 1int,
                ast::SectionKind::Static(_) => 2int,
            }) == wanted,
            _ => false,
        })
    }
}

/// Whether a statement is a body statement, one that lands in a section.
pub open spec fn is_body_stmt(s: ast::Stmt) -> bool {
    s is StaticData || s is Instr
}

/// The labels pending before statement `n`: label statements stack up and
/// are cleared when a body statement lands in a section. A body statement
/// outside any section keeps them pending.
pub open spec fn pending_at(stmts: Seq<ast::Stmt>, n: int) -> Seq<ast::Ident>
    decreases n,
{
    if n <= 0 {
        Seq::empty()
    } else {
        let pre = pending_at(stmts, n - 1);
        match stmts[n - 1] {
            ast::Stmt::Label(l) => pre.push(l),
            ast::Stmt::StaticData(_) => if section_mode(stmts, n - 1) != 0 {
                Seq::empty()
            } else {
                pre
            },
            ast::Stmt::Instr(_) => if section_mode(stmts, n - 1) != 0 {
                Seq::empty()
            } else {
                pre
            },
            _ => pre,
        }
    }
}

/// The input indices of the body statements that land in the given section
/// among the first `n` statements.
pub open spec fn landed_indices(stmts: Seq<ast::Stmt>, n: int, wanted: int) -> Seq<int>
    decreases n,
{
    if n <= 0 {
        Seq::empty()
    } else {
        let pre = landed_indices(stmts, n - 1, wanted);
        if is_body_stmt(stmts[n - 1]) && section_mode(stmts, n - 1) == wanted {
            pre.push(n - 1)
        } else {
            pre
        }
    }
}

/// One output statement is the checked form of input statement `idx`: it
/// carries the labels that were pending there, and its body is the
/// validated statement — for an instruction, after constant substitution.
pub open spec fn landed_stmt_ok(out: ir::Stmt, stmts: Seq<ast::Stmt>, idx: int) -> bool {
    &&& out.labels@.len() == pending_at(stmts, idx).len()
    &&& (forall|j: int|
        0 <= j < out.labels@.len() ==> (#[trigger] out.labels@[j]).value@ == pending_at(
            stmts,
            idx,
        )[j].value@ && out.labels@[j].span == pending_at(stmts, idx)[j].span)
    &&& match stmts[idx] {
        ast::Stmt::StaticData(d) => out.kind == ir::StmtKind::StaticData(validated_static_data(d)),
        ast::Stmt::Instr(i0) => (out.kind matches ir::StmtKind::Instr(vi)
            && crate::instr::validated_instr_ok(vi, i0, crate::const_table::const_map(stmts))),
        _ => false,
    }
}

/// How many section-discipline faults the driver itself diagnoses among
/// the first `n` statements: a duplicate header, a `.code` header after
/// `.static`, a body statement outside any section, and an include left
/// unexpanded.
pub open spec fn driver_fault_count(stmts: Seq<ast::Stmt>, n: int) -> nat
    decreases n,
{
    if n <= 0 {
        0
    } else {
        driver_fault_count(stmts, n - 1) + match stmts[n - 1] {
            ast::Stmt::Section(s) => match s.kind {
                ast::SectionKind::Code(_) => (if has_header(stmts, n - 1, 2) {
                    1nat
                } else {
                    0nat
                }) + (if has_header(stmts, n - 1, 1) {
                    1nat
                } else {
                    0nat
                }),
                ast::SectionKind::Static(_) => if has_header(stmts, n - 1, 2) {
                    1nat
                } else {
                    0nat
                },
            },
            ast::Stmt::Include(_) => 1nat,
            ast::Stmt::StaticData(_) => if section_mode(stmts, n - 1) == 0 {
                1nat
            } else {
                0nat
            },
            ast::Stmt::Instr(_) => if section_mode(stmts, n - 1) == 0 {
                1nat
            } else {
                0nat
            },
            _ => 0nat,
        }
    }
}

/// Whether one statement passes its own checks without a diagnostic.
pub open spec fn stmt_all_ok(s: ast::Stmt, consts: Map<Seq<u8>, ast::Integer>) -> bool {
    match s {
        ast::Stmt::StaticData(d) => static_data_errors(d) == 0,
        ast::Stmt::Instr(i0) => crate::instr::instr_subst_all_ok(i0, consts),
        _ => true,
    }
}

/// Whether labels, constants, and every statement pass their own checks
/// without a diagnostic; the driver's section-discipline faults are
/// counted separately.
pub open spec fn subvalidators_ok(stmts: Seq<ast::Stmt>) -> bool {
    &&& duplicate_label_count(stmts) == 0
    &&& crate::const_table::const_label_conflicts(stmts, first_labels(stmts)) == 0
    &&& crate::const_table::const_redefinitions(stmts) == 0
    &&& (forall|i: int|
        0 <= i < stmts.len() ==> stmt_all_ok(
            #[trigger] stmts[i],
            crate::const_table::const_map(stmts),
        ))
}

/// Whether the whole program assembles without any diagnostic.
pub open spec fn program_all_ok(stmts: Seq<ast::Stmt>) -> bool {
    subvalidators_ok(stmts) && driver_fault_count(stmts, stmts.len() as int) == 0
}

/// The current section mode implies the matching header was seen.
proof fn lemma_mode_has_header(stmts: Seq<ast::Stmt>, n: int)
    ensures
        section_mode(stmts, n) == 1 ==> has_header(stmts, n, 1),
        section_mode(stmts, n) == 2 ==> has_header(stmts, n, 2),
    decreases n,
{
    if n > 0 {
        lemma_mode_has_header(stmts, n - 1);
    }
}

/// Before the first matching header, nothing has landed in that section.
proof fn lemma_no_header_no_landed(stmts: Seq<ast::Stmt>, n: int, wanted: int)
    requires
        !has_header(stmts, n, wanted),
        wanted == 1 || wanted == 2,
    ensures
        landed_indices(stmts, n, wanted).len() == 0,
    decreases n,
{
    if n > 0 {
        lemma_no_header_no_landed(stmts, n - 1, wanted);
        lemma_mode_has_header(stmts, n - 1);
    }
}

/// The driver fault count never drops as the walk proceeds.
proof fn lemma_driver_fault_count_mono(stmts: Seq<ast::Stmt>, a: int, b: int)
    requires
        a <= b,
    ensures
        driver_fault_count(stmts, a) <= driver_fault_count(stmts, b),
    decreases b - a,
{
    if a < b {
        lemma_driver_fault_count_mono(stmts, a, b - 1);
    }
}

/// Validates the program to ensure that it is valid assembly.
///
/// Statements are grouped into the two sections: each instruction or data
/// directive lands, with its pending labels, in the section whose header
/// most recently preceded it, checked and with constants substituted.
/// Duplicate sections, `.code` after `.static`, statements outside any
/// section, and unexpanded includes are diagnosed, as are duplicate labels,
/// constant faults, and per-statement faults; every fault is recovered
/// from, so one run reports as many distinct faults as possible, and a
/// clean program is diagnosed nothing at all.
pub fn validate_program(prog: ast::Program, diag: &mut Diagnostics) -> (r: ir::Program)
    ensures
        program_wf(r),
        old(diag).records@.is_prefix_of(final(diag).records@),
        r.code_section is Some <==> has_header(prog.stmts@, prog.stmts@.len() as int, 1),
        r.static_section is Some <==> has_header(prog.stmts@, prog.stmts@.len() as int, 2),
        r.code_section matches Some(s) ==> (s.stmts@.len() == landed_indices(
            prog.stmts@,
            prog.stmts@.len() as int,
            1,
        ).len() && (forall|k: int|
            #![trigger s.stmts@[k]]
            0 <= k < s.stmts@.len() ==> landed_stmt_ok(
                s.stmts@[k],
                prog.stmts@,
                landed_indices(prog.stmts@, prog.stmts@.len() as int, 1)[k],
            ))),
        r.static_section matches Some(s) ==> (s.stmts@.len() == landed_indices(
            prog.stmts@,
            prog.stmts@.len() as int,
            2,
        ).len() && (forall|k: int|
            #![trigger s.stmts@[k]]
            0 <= k < s.stmts@.len() ==> landed_stmt_ok(
                s.stmts@[k],
                prog.stmts@,
                landed_indices(prog.stmts@, prog.stmts@.len() as int, 2)[k],
            ))),
        subvalidators_ok(prog.stmts@) ==> error_count(final(diag).records@) == error_count(
            old(diag).records@,
        ) + driver_fault_count(prog.stmts@, prog.stmts@.len() as int),
        program_all_ok(prog.stmts@) ==> final(diag).records@ == old(diag).records@,
{
    let ghost orig = prog.stmts@;
    let labels = unique_labels(&prog, diag);
    // Error recovery: even if the labels or the constant table produced
    // errors, keep validating so more faults surface in the same run.
    let consts = ConstTable::new(&prog, diag, &labels);
    proof {
        if subvalidators_ok(orig) {
            lemma_idents_contain_congruent(labels@, first_labels(orig));
            crate::const_table::lemma_const_label_conflicts_congruent(
                orig,
                labels@,
                first_labels(orig),
            );
        }
    }

    let mut code_section: Option<ir::Section> = None;
    let mut static_section: Option<ir::Section> = None;
    // Which section statements currently land in: none, code, or static.
    let mut in_static: bool = false;
    let mut in_code: bool = false;
    let mut pending_labels: Vec<ast::Ident> = Vec::new();
    let mut rest = prog.stmts;
    proof {
        assert(rest@ =~= orig.skip(0));
    }
    while rest.len() > 0
        invariant
            old(diag).records@.is_prefix_of(diag.records@),
            is_suffix_of(rest@, orig),
            consts@ == crate::const_table::const_map(orig),
            in_code ==> code_section is Some,
            in_static ==> static_section is Some,
            section_mode(orig, orig.len() - rest@.len()) == (if in_static {
                2int
            } else if in_code {
                1int
            } else {
                0int
            }),
            code_section is Some <==> has_header(orig, orig.len() - rest@.len(), 1),
            static_section is Some <==> has_header(orig, orig.len() - rest@.len(), 2),
            pending_labels@.len() == pending_at(orig, orig.len() - rest@.len()).len(),
            forall|j: int|
                0 <= j < pending_labels@.len() ==> (#[trigger] pending_labels@[j]).value@
                    == pending_at(orig, orig.len() - rest@.len())[j].value@
                    && pending_labels@[j].span == pending_at(orig, orig.len() - rest@.len())[j].span,
            code_section matches Some(s) ==> (s.stmts@.len() == landed_indices(
                orig,
                orig.len() - rest@.len(),
                1,
            ).len() && (forall|k: int|
                #![trigger s.stmts@[k]]
                0 <= k < s.stmts@.len() ==> landed_stmt_ok(
                    s.stmts@[k],
                    orig,
                    landed_indices(orig, orig.len() - rest@.len(), 1)[k],
                ))),
            static_section matches Some(s) ==> (s.stmts@.len() == landed_indices(
                orig,
                orig.len() - rest@.len(),
                2,
            ).len() && (forall|k: int|
                #![trigger s.stmts@[k]]
                0 <= k < s.stmts@.len() ==> landed_stmt_ok(
                    s.stmts@[k],
                    orig,
                    landed_indices(orig, orig.len() - rest@.len(), 2)[k],
                ))),
            subvalidators_ok(orig) ==> error_count(diag.records@) == error_count(
                old(diag).records@,
            ) + driver_fault_count(orig, orig.len() - rest@.len()),
            program_all_ok(orig) ==> diag.records@ == old(diag).records@,
        decreases rest@.len(),
    {
        let ghost idx = orig.len() - rest@.len();
        proof {
            assert(rest@ =~= orig.skip(idx));
            assert(rest@[0] == orig[idx]);
        }
        let stmt = rest.remove(0);
        proof {
            assert(rest@ =~= orig.skip(idx + 1));
            if program_all_ok(orig) {
                lemma_driver_fault_count_mono(orig, idx + 1, orig.len() as int);
            }
        }
        match stmt {
            ast::Stmt::Label(label) => {
                pending_labels.push(label);
            },
            ast::Stmt::Section(section) => {
                match section.kind {
                    ast::SectionKind::Code(_) => {
                        if static_section.is_some() {
                            // The `.code` section must precede `.static`.
                            let ghost pre = diag.records@;
                            diag.span_error(DiagKind::SectionOrderError, section.span);
                            proof {
                                crate::diag::lemma_error_count_push(pre, diag.records@.last());
                            }
                        }
                        match &code_section {
                            Some(prev) => {
                                let ghost pre = diag.records@;
                                diag.span_error_note(
                                    DiagKind::DuplicateSection,
                                    section.span,
                                    prev.section_header_span,
                                );
                                proof {
                                    crate::diag::lemma_error_count_push(pre, diag.records@.last());
                                }
                            },
                            None => {
                                proof {
                                    lemma_no_header_no_landed(orig, idx, 1);
                                }
                                code_section = Some(
                                    ir::Section {
                                        section_header_span: section.span,
                                        stmts: Vec::new(),
                                    },
                                );
                            },
                        }
                        in_code = true;
                        in_static = false;
                    },
                    ast::SectionKind::Static(_) => {
                        match &static_section {
                            Some(prev) => {
                                let ghost pre = diag.records@;
                                diag.span_error_note(
                                    DiagKind::DuplicateSection,
                                    section.span,
                                    prev.section_header_span,
                                );
                                proof {
                                    crate::diag::lemma_error_count_push(pre, diag.records@.last());
                                }
                            },
                            None => {
                                proof {
                                    lemma_no_header_no_landed(orig, idx, 2);
                                }
                                static_section = Some(
                                    ir::Section {
                                        section_header_span: section.span,
                                        stmts: Vec::new(),
                                    },
                                );
                            },
                        }
                        in_static = true;
                        in_code = false;
                    },
                }
            },
            ast::Stmt::Include(inc) => {
                // Include directives are expanded before validation; one
                // still present here could not be resolved.
                let ghost pre = diag.records@;
                diag.span_error(DiagKind::IncludeError, inc.path.span);
                proof {
                    crate::diag::lemma_error_count_push(pre, diag.records@.last());
                }
            },
            // Constants were collected into the table above.
            ast::Stmt::Const(_) => (),
            ast::Stmt::StaticData(static_data) => {
                let checked = validate_static_data(static_data, diag);
                let kind = ir::StmtKind::StaticData(checked);
                let span = kind.span();
                land_or_reject(
                    kind,
                    span,
                    &mut pending_labels,
                    &mut code_section,
                    &mut static_section,
                    in_code,
                    in_static,
                    diag,
                    Ghost(orig),
                    Ghost(idx),
                );
            },
            ast::Stmt::Instr(instr0) => {
                let ghost inp = instr0;
                let instr2 = consts.subst_instr(instr0);
                proof {
                    assert(instr2.args@ =~= crate::instr::substituted_args(consts@, inp.args@));
                }
                let vi = crate::instr::Instr::validate(instr2, diag);
                proof {
                    if crate::instr::instr_subst_all_ok(inp, consts@) {
                        assert(crate::instr::args_all_ok(
                            crate::instr::shape_of_spec(vi.kind),
                            instr2.args@,
                        ));
                    }
                    assert(crate::instr::validated_instr_ok(vi, inp, consts@));
                }
                let span = vi.span;
                let kind = ir::StmtKind::Instr(vi);
                land_or_reject(
                    kind,
                    span,
                    &mut pending_labels,
                    &mut code_section,
                    &mut static_section,
                    in_code,
                    in_static,
                    diag,
                    Ghost(orig),
                    Ghost(idx),
                );
            },
        }
    }
    let r = ir::Program { code_section, static_section };
    proof {
        assert(orig.len() - rest@.len() == orig.len());
        lemma_program_wf_from_landed(r, orig);
    }
    r
}

/// Appends a checked statement, with the pending labels, to the receiving
/// section; a statement outside any section is diagnosed instead, its
/// labels kept pending.
fn land_or_reject(
    kind: ir::StmtKind,
    span: crate::span::Span,
    pending_labels: &mut Vec<ast::Ident>,
    code_section: &mut Option<ir::Section>,
    static_section: &mut Option<ir::Section>,
    in_code: bool,
    in_static: bool,
    diag: &mut Diagnostics,
    Ghost(orig): Ghost<Seq<ast::Stmt>>,
    Ghost(idx): Ghost<int>,
)
    requires
        0 <= idx < orig.len(),
        is_body_stmt(orig[idx]),
        section_mode(orig, idx) == (if in_static {
            2int
        } else if in_code {
            1int
        } else {
            0int
        }),
        in_code ==> (*old(code_section)) is Some,
        in_static ==> (*old(static_section)) is Some,
        old(pending_labels)@.len() == pending_at(orig, idx).len(),
        forall|j: int|
            0 <= j < old(pending_labels)@.len() ==> (#[trigger] old(pending_labels)@[j]).value@
                == pending_at(orig, idx)[j].value@ && old(pending_labels)@[j].span == pending_at(
                orig,
                idx,
            )[j].span,
        match orig[idx] {
            ast::Stmt::StaticData(d) => kind == ir::StmtKind::StaticData(validated_static_data(d)),
            ast::Stmt::Instr(i0) => (kind matches ir::StmtKind::Instr(vi)
                && crate::instr::validated_instr_ok(
                vi,
                i0,
                crate::const_table::const_map(orig),
            )),
            _ => false,
        },
        (*old(code_section)) matches Some(s) ==> (s.stmts@.len() == landed_indices(
            orig,
            idx,
            1,
        ).len() && (forall|k: int|
            #![trigger s.stmts@[k]]
            0 <= k < s.stmts@.len() ==> landed_stmt_ok(
                s.stmts@[k],
                orig,
                landed_indices(orig, idx, 1)[k],
            ))),
        (*old(static_section)) matches Some(s) ==> (s.stmts@.len() == landed_indices(
            orig,
            idx,
            2,
        ).len() && (forall|k: int|
            #![trigger s.stmts@[k]]
            0 <= k < s.stmts@.len() ==> landed_stmt_ok(
                s.stmts@[k],
                orig,
                landed_indices(orig, idx, 2)[k],
            ))),
    ensures
        (*final(code_section)) is Some <==> (*old(code_section)) is Some,
        (*final(static_section)) is Some <==> (*old(static_section)) is Some,
        final(pending_labels)@.len() == pending_at(orig, idx + 1).len(),
        forall|j: int|
            0 <= j < final(pending_labels)@.len() ==> (#[trigger] final(pending_labels)@[j]).value@
                == pending_at(orig, idx + 1)[j].value@ && final(pending_labels)@[j].span
                == pending_at(orig, idx + 1)[j].span,
        (*final(code_section)) matches Some(s) ==> (s.stmts@.len() == landed_indices(
            orig,
            idx + 1,
            1,
        ).len() && (forall|k: int|
            #![trigger s.stmts@[k]]
            0 <= k < s.stmts@.len() ==> landed_stmt_ok(
                s.stmts@[k],
                orig,
                landed_indices(orig, idx + 1, 1)[k],
            ))),
        (*final(static_section)) matches Some(s) ==> (s.stmts@.len() == landed_indices(
            orig,
            idx + 1,
            2,
        ).len() && (forall|k: int|
            #![trigger s.stmts@[k]]
            0 <= k < s.stmts@.len() ==> landed_stmt_ok(
                s.stmts@[k],
                orig,
                landed_indices(orig, idx + 1, 2)[k],
            ))),
        old(diag).records@.is_prefix_of(final(diag).records@),
        error_count(final(diag).records@) == error_count(old(diag).records@) + (
        if section_mode(orig, idx) == 0 {
            1nat
        } else {
            0nat
        }),
        section_mode(orig, idx) != 0 ==> final(diag).records@ == old(diag).records@,
{
    // Error recovery: no quitting early when faults were found above, so as
    // many statements as possible are checked.
    if in_static {
        let mut labels_here: Vec<ast::Ident> = Vec::new();
        core::mem::swap(&mut labels_here, pending_labels);
        let out_stmt = ir::Stmt { labels: labels_here, kind };
        let mut taken: Option<ir::Section> = None;
        core::mem::swap(&mut taken, static_section);
        match taken {
            Some(mut s) => {
                s.stmts.push(out_stmt);
                *static_section = Some(s);
            },
            None => {
                unreached::<()>();
            },
        }
    } else if in_code {
        let mut labels_here: Vec<ast::Ident> = Vec::new();
        core::mem::swap(&mut labels_here, pending_labels);
        let out_stmt = ir::Stmt { labels: labels_here, kind };
        let mut taken: Option<ir::Section> = None;
        core::mem::swap(&mut taken, code_section);
        match taken {
            Some(mut s) => {
                s.stmts.push(out_stmt);
                *code_section = Some(s);
            },
            None => {
                unreached::<()>();
            },
        }
    } else {
        // All assembly statements must occur within a section; the pending
        // labels stay for the next statement.
        let ghost pre = diag.records@;
        diag.span_error(DiagKind::SectionOrderError, span);
        proof {
            crate::diag::lemma_error_count_push(pre, diag.records@.last());
        }
    }
}

/// Every landed statement carries a well-formed instruction, so the whole
/// program is well-formed.
proof fn lemma_program_wf_from_landed(prog: ir::Program, orig: Seq<ast::Stmt>)
    requires
        prog.code_section matches Some(s) ==> (s.stmts@.len() == landed_indices(
            orig,
            orig.len() as int,
            1,
        ).len() && (forall|k: int|
            #![trigger s.stmts@[k]]
            0 <= k < s.stmts@.len() ==> landed_stmt_ok(
                s.stmts@[k],
                orig,
                landed_indices(orig, orig.len() as int, 1)[k],
            ))),
        prog.static_section matches Some(s) ==> (s.stmts@.len() == landed_indices(
            orig,
            orig.len() as int,
            2,
        ).len() && (forall|k: int|
            #![trigger s.stmts@[k]]
            0 <= k < s.stmts@.len() ==> landed_stmt_ok(
                s.stmts@[k],
                orig,
                landed_indices(orig, orig.len() as int, 2)[k],
            ))),
    ensures
        program_wf(prog),
{
    let all = prog.all_stmts();
    let code_len: int = match prog.code_section {
        Some(s) => s.stmts@.len() as int,
        None => 0,
    };
    assert forall|i: int| 0 <= i < all.len() implies match #[trigger] all[i].kind {
        ir::StmtKind::Instr(instr) => instr.wf(),
        ir::StmtKind::StaticData(_) => true,
    } by {
        if i < code_len {
            assert(all[i] == prog.code_section.unwrap().stmts@[i]);
            assert(landed_stmt_ok(
                prog.code_section.unwrap().stmts@[i],
                orig,
                landed_indices(orig, orig.len() as int, 1)[i],
            ));
        } else {
            assert(all[i] == prog.static_section.unwrap().stmts@[i - code_len]);
            assert(landed_stmt_ok(
                prog.static_section.unwrap().stmts@[i - code_len],
                orig,
                landed_indices(orig, orig.len() as int, 2)[i - code_len],
            ));
        }
    };
}

/// Whether `s` is a suffix of `longer`.
/// Whether `s` is a suffix of `longer`.
pub open spec fn is_suffix_of(s: Seq<ast::Stmt>, longer: Seq<ast::Stmt>) -> bool {
    s.len() <= longer.len() && s =~= longer.skip(longer.len() - s.len())
}

/// Whether any of the identifiers carries the given name.
pub open spec fn idents_contain(ids: Seq<ast::Ident>, name: Seq<u8>) -> bool {
    exists|i: int| 0 <= i < ids.len() && ids[i].value@ == name
}

/// The first occurrence of each distinct label name of the statement
/// stream, in source order.
pub open spec fn first_labels(stmts: Seq<ast::Stmt>) -> Seq<ast::Ident>
    decreases stmts.len(),
{
    if stmts.len() == 0 {
        Seq::empty()
    } else {
        let pre = first_labels(stmts.drop_last());
        match stmts.last() {
            ast::Stmt::Label(l) => if idents_contain(pre, l.value@) {
                pre
            } else {
                pre.push(l)
            },
            _ => pre,
        }
    }
}

/// How many label statements reuse the name of an earlier label.
pub open spec fn duplicate_label_count(stmts: Seq<ast::Stmt>) -> nat
    decreases stmts.len(),
{
    if stmts.len() == 0 {
        0
    } else {
        duplicate_label_count(stmts.drop_last()) + match stmts.last() {
            ast::Stmt::Label(l) => if idents_contain(first_labels(stmts.drop_last()), l.value@) {
                1nat
            } else {
                0nat
            },
            _ => 0nat,
        }
    }
}

/// Two identifier lists with the same names at the same positions contain
/// the same names.
pub proof fn lemma_idents_contain_congruent(a: Seq<ast::Ident>, b: Seq<ast::Ident>)
    requires
        a.len() == b.len(),
        forall|i: int| 0 <= i < a.len() ==> a[i].value@ == b[i].value@,
    ensures
        forall|name: Seq<u8>| #[trigger]
            idents_contain(a, name) <==> idents_contain(b, name),
{
    assert forall|name: Seq<u8>| #[trigger]
        idents_contain(a, name) <==> idents_contain(b, name) by {
        if idents_contain(a, name) {
            let i = choose|i: int| 0 <= i < a.len() && a[i].value@ == name;
            assert(b[i].value@ == name);
        }
        if idents_contain(b, name) {
            let i = choose|i: int| 0 <= i < b.len() && b[i].value@ == name;
            assert(a[i].value@ == name);
        }
    };
}

/// Collects all label names in the program and diagnoses duplicates,
/// pointing at both occurrences. Returns the first occurrence of each
/// distinct label name, in source order; one error is emitted per
/// duplicate occurrence.
pub fn unique_labels(prog: &ast::Program, diag: &mut Diagnostics) -> (r: Vec<ast::Ident>)
    ensures
        old(diag).records@.is_prefix_of(final(diag).records@),
        r@.len() == first_labels(prog.stmts@).len(),
        forall|i: int|
            0 <= i < r@.len() ==> (#[trigger] r@[i]).value@ == first_labels(prog.stmts@)[i].value@
                && r@[i].span == first_labels(prog.stmts@)[i].span,
        error_count(final(diag).records@) == error_count(old(diag).records@)
            + duplicate_label_count(prog.stmts@),
        duplicate_label_count(prog.stmts@) == 0 ==> final(diag).records@ == old(diag).records@,
{
    let mut labels: Vec<ast::Ident> = Vec::new();
    let mut i: usize = 0;
    proof {
        assert(prog.stmts@.take(0int) =~= Seq::empty());
    }
    while i < prog.stmts.len()
        invariant
            i <= prog.stmts@.len(),
            old(diag).records@.is_prefix_of(diag.records@),
            labels@.len() == first_labels(prog.stmts@.take(i as int)).len(),
            forall|j: int|
                0 <= j < labels@.len() ==> (#[trigger] labels@[j]).value@ == first_labels(
                    prog.stmts@.take(i as int),
                )[j].value@ && labels@[j].span == first_labels(prog.stmts@.take(i as int))[j].span,
            error_count(diag.records@) == error_count(old(diag).records@) + duplicate_label_count(
                prog.stmts@.take(i as int),
            ),
            duplicate_label_count(prog.stmts@.take(i as int)) == 0 ==> diag.records@ == old(
                diag,
            ).records@,
        decreases prog.stmts@.len() - i,
    {
        let ghost pre_stmts = prog.stmts@.take(i as int);
        proof {
            assert(prog.stmts@.take(i + 1 as int).drop_last() =~= pre_stmts);
            assert(prog.stmts@.take(i + 1 as int).last() == prog.stmts@[i as int]);
            lemma_idents_contain_congruent(labels@, first_labels(pre_stmts));
        }
        match &prog.stmts[i] {
            ast::Stmt::Label(label) => {
                let mut j: usize = 0;
                let mut duplicate: Option<crate::span::Span> = None;
                while j < labels.len()
                    invariant
                        j <= labels@.len(),
                        duplicate is Some <==> exists|q: int|
                            0 <= q < j && (#[trigger] labels@[q]).value@ == label.value@,
                    decreases labels@.len() - j,
                {
                    if vec_bytes_eq(&labels[j].value, &label.value) {
                        duplicate = Some(labels[j].span);
                    }
                    j = j + 1;
                }
                proof {
                    assert(duplicate is Some <==> idents_contain(labels@, label.value@));
                }
                match duplicate {
                    Some(first_span) => {
                        let ghost pre = diag.records@;
                        diag.span_error_note(DiagKind::DuplicateName, label.span, first_span);
                        proof {
                            crate::diag::lemma_error_count_push(pre, diag.records@.last());
                        }
                    },
                    None => {
                        labels.push(label.clone_ident());
                    },
                }
            },
            _ => (),
        }
        i = i + 1;
    }
    proof {
        assert(prog.stmts@.take(prog.stmts@.len() as int) =~= prog.stmts@);
    }
    labels
}

/// Whether a `.bN` value lies in the accepted range of its width: from the
/// signed minimum to the unsigned maximum, `[-2^(8n-1), 2^(8n)-1]`.
pub open spec fn static_bytes_in_range(size: u8, v: i128) -> bool {
    if size == 1 {
        -0x80 <= v <= 0xff
    } else if size == 2 {
        -0x8000 <= v <= 0xffff
    } else if size == 4 {
        -0x80000000 <= v <= 0xffffffff
    } else {
        -0x8000000000000000 <= v <= 0xffffffffffffffff
    }
}

/// What `.bN` validation stores: the value truncated to the declared
/// width, kept for little-endian emission.
pub open spec fn validated_static_bytes(sb: ast::StaticBytes) -> ir::StaticBytes {
    ir::StaticBytes {
        value: if sb.size == 1 {
            ir::StaticBytesValue::B1(sb.value.value as u8, sb.value.span)
        } else if sb.size == 2 {
            ir::StaticBytesValue::B2(sb.value.value as u16, sb.value.span)
        } else if sb.size == 4 {
            ir::StaticBytesValue::B4(sb.value.value as u32, sb.value.span)
        } else {
            ir::StaticBytesValue::B8(sb.value.value as u64, sb.value.span)
        },
        span: sb.span,
    }
}

/// Whether a `.zero` or `.uninit` byte count is acceptable.
pub open spec fn size_in_range(v: i128) -> bool {
    0 <= v <= u64::MAX
}

/// What size validation yields: the count itself when acceptable, zero
/// otherwise.
pub open spec fn validated_size(s: ast::Integer) -> ir::Size {
    ir::Size {
        value: if size_in_range(s.value) {
            s.value as u64
        } else {
            0
        },
        span: s.span,
    }
}

/// What static data validation yields, variant by variant.
pub open spec fn validated_static_data(d: ast::StaticData) -> ir::StaticData {
    match d {
        ast::StaticData::StaticBytes(sb) => ir::StaticData::StaticBytes(
            validated_static_bytes(sb),
        ),
        ast::StaticData::StaticZero(sz) => ir::StaticData::StaticZero(
            ir::StaticZero { nbytes: validated_size(sz.nbytes), span: sz.span },
        ),
        ast::StaticData::StaticUninit(su) => ir::StaticData::StaticUninit(
            ir::StaticUninit { nbytes: validated_size(su.nbytes), span: su.span },
        ),
        ast::StaticData::StaticByteStr(sb) => ir::StaticData::StaticByteStr(
            ir::StaticByteStr { bytes: sb.bytes, span: sb.span },
        ),
    }
}

/// How many diagnostics a static data directive earns: one when its value
/// or count is out of range.
pub open spec fn static_data_errors(d: ast::StaticData) -> nat {
    match d {
        ast::StaticData::StaticBytes(sb) => if static_bytes_in_range(sb.size, sb.value.value) {
            0nat
        } else {
            1nat
        },
        ast::StaticData::StaticZero(sz) => if size_in_range(sz.nbytes.value) {
            0nat
        } else {
            1nat
        },
        ast::StaticData::StaticUninit(su) => if size_in_range(su.nbytes.value) {
            0nat
        } else {
            1nat
        },
        ast::StaticData::StaticByteStr(_) => 0nat,
    }
}

/// Validates a static data directive: checks its value or byte count and
/// strips it down to its emission form.
pub fn validate_static_data(stmt: ast::StaticData, diag: &mut Diagnostics) -> (r: ir::StaticData)
    ensures
        r == validated_static_data(stmt),
        old(diag).records@.is_prefix_of(final(diag).records@),
        error_count(final(diag).records@) == error_count(old(diag).records@) + static_data_errors(
            stmt,
        ),
        static_data_errors(stmt) == 0 ==> final(diag).records@ == old(diag).records@,
{
    match stmt {
        ast::StaticData::StaticBytes(static_bytes) => {
            ir::StaticData::StaticBytes(validate_static_bytes(static_bytes, diag))
        },
        ast::StaticData::StaticZero(static_zero) => {
            let ast::StaticZero { nbytes, span } = static_zero;
            ir::StaticData::StaticZero(ir::StaticZero { nbytes: validate_size(nbytes, diag), span })
        },
        ast::StaticData::StaticUninit(static_uninit) => {
            let ast::StaticUninit { nbytes, span } = static_uninit;
            ir::StaticData::StaticUninit(
                ir::StaticUninit { nbytes: validate_size(nbytes, diag), span },
            )
        },
        ast::StaticData::StaticByteStr(ast::StaticByteStr { bytes, span }) => {
            ir::StaticData::StaticByteStr(ir::StaticByteStr { bytes, span })
        },
    }
}

/// Checks a `.bN` value against both the signed minimum and the unsigned
/// maximum of the declared width, `[-2^(8n-1), 2^(8n)-1]`, and stores it
/// for little-endian emission. An out-of-range value is diagnosed and
/// recovers as its truncation to the width; in-range values, negatives
/// included, pass without a diagnostic.
pub fn validate_static_bytes(static_bytes: ast::StaticBytes, diag: &mut Diagnostics) -> (r:
    ir::StaticBytes)
    ensures
        r == validated_static_bytes(static_bytes),
        old(diag).records@.is_prefix_of(final(diag).records@),
        error_count(final(diag).records@) == error_count(old(diag).records@) + (
        if static_bytes_in_range(static_bytes.size, static_bytes.value.value) {
            0nat
        } else {
            1nat
        }),
        static_bytes_in_range(static_bytes.size, static_bytes.value.value) ==> final(diag).records@ == old(diag).records@,
{
    let ast::StaticBytes { size, value, span } = static_bytes;
    let ast::Integer { value, span: value_span } = value;
    // Error recovery: when the value is diagnosed out of range, the stored
    // value is its truncation to the declared width.
    if size == 1 {
        if value < -0x80 || value > 0xff {
            let ghost pre = diag.records@;
            diag.span_error(DiagKind::ImmediateRangeError, span);
            proof {
                crate::diag::lemma_error_count_push(pre, diag.records@.last());
            }
        }
        let stored: u8 = #[verifier::truncate] (value as u8);
        ir::StaticBytes { value: ir::StaticBytesValue::B1(stored, value_span), span }
    } else if size == 2 {
        if value < -0x8000 || value > 0xffff {
            let ghost pre = diag.records@;
            diag.span_error(DiagKind::ImmediateRangeError, span);
            proof {
                crate::diag::lemma_error_count_push(pre, diag.records@.last());
            }
        }
        let stored: u16 = #[verifier::truncate] (value as u16);
        ir::StaticBytes { value: ir::StaticBytesValue::B2(stored, value_span), span }
    } else if size == 4 {
        if value < -0x80000000 || value > 0xffffffff {
            let ghost pre = diag.records@;
            diag.span_error(DiagKind::ImmediateRangeError, span);
            proof {
                crate::diag::lemma_error_count_push(pre, diag.records@.last());
            }
        }
        let stored: u32 = #[verifier::truncate] (value as u32);
        ir::StaticBytes { value: ir::StaticBytesValue::B4(stored, value_span), span }
    } else {
        if value < -0x8000000000000000 || value > 0xffffffffffffffff {
            let ghost pre = diag.records@;
            diag.span_error(DiagKind::ImmediateRangeError, span);
            proof {
                crate::diag::lemma_error_count_push(pre, diag.records@.last());
            }
        }
        let stored: u64 = #[verifier::truncate] (value as u64);
        ir::StaticBytes { value: ir::StaticBytesValue::B8(stored, value_span), span }
    }
}

/// Checks a byte count for `.zero` or `.uninit`: it must be non-negative
/// (and, as every literal is, at most the largest address). An out-of-range
/// count is diagnosed and recovers as zero.
pub fn validate_size(size: ast::Integer, diag: &mut Diagnostics) -> (r: ir::Size)
    ensures
        r == validated_size(size),
        old(diag).records@.is_prefix_of(final(diag).records@),
        error_count(final(diag).records@) == error_count(old(diag).records@) + (
        if size_in_range(size.value) {
            0nat
        } else {
            1nat
        }),
        size_in_range(size.value) ==> final(diag).records@ == old(diag).records@,
{
    // The lexer keeps literals at or below the largest 64-bit value, so in
    // practice only the sign check can fire.
    let value = if size.value >= 0 && size.value <= 0xffffffffffffffff {
        size.value as u64
    } else {
        let ghost pre = diag.records@;
        diag.span_error(DiagKind::ImmediateRangeError, size.span);
        proof {
            crate::diag::lemma_error_count_push(pre, diag.records@.last());
        }
        // Error recovery: treat the size as zero.
        0
    };
    ir::Size { value, span: size.span }
}

} // verus!