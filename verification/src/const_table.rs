use vstd::prelude::*;
use crate::ast;
use crate::bytestr::vec_bytes_eq;
use crate::diag::{DiagKind, Diagnostics, error_count, warning_count};
use crate::validate::idents_contain;

verus! {

/// The constant bound to each name by the `.const` directives among a
/// statement stream, walked front to back; a later directive for the same
/// name wins.
pub open spec fn const_map(stmts: Seq<ast::Stmt>) -> Map<Seq<u8>, ast::Integer>
    decreases stmts.len(),
{
    if stmts.len() == 0 {
        Map::empty()
    } else {
        let rest = const_map(stmts.drop_last());
        match stmts.last() {
            ast::Stmt::Const(c) => rest.insert(c.name.value@, c.value),
            _ => rest,
        }
    }
}

/// Compile-time immediates referenced by name in operand position, built
/// from all `.const` directives in the program.
#[derive(Debug, Clone, PartialEq)]
pub struct ConstTable {
    entries: Vec<(ast::Ident, ast::Integer)>,
}

impl View for ConstTable {
    type V = Map<Seq<u8>, ast::Integer>;

    closed spec fn view(&self) -> Map<Seq<u8>, ast::Integer> {
        entries_map(self.entries@)
    }
}

/// The map an entry list denotes; a later entry for the same name wins.
pub open spec fn entries_map(entries: Seq<(ast::Ident, ast::Integer)>) -> Map<
    Seq<u8>,
    ast::Integer,
>
    decreases entries.len(),
{
    if entries.len() == 0 {
        Map::empty()
    } else {
        entries_map(entries.drop_last()).insert(entries.last().0.value@, entries.last().1)
    }
}

/// How many `.const` directives collide with one of the given label
/// names.
pub open spec fn const_label_conflicts(stmts: Seq<ast::Stmt>, labels: Seq<ast::Ident>) -> nat
    decreases stmts.len(),
{
    if stmts.len() == 0 {
        0
    } else {
        const_label_conflicts(stmts.drop_last(), labels) + match stmts.last() {
            ast::Stmt::Const(c) => if idents_contain(labels, c.name.value@) {
                1nat
            } else {
                0nat
            },
            _ => 0nat,
        }
    }
}

/// How many `.const` directives redefine an earlier constant with a
/// different value.
pub open spec fn const_redefinitions(stmts: Seq<ast::Stmt>) -> nat
    decreases stmts.len(),
{
    if stmts.len() == 0 {
        0
    } else {
        const_redefinitions(stmts.drop_last()) + match stmts.last() {
            ast::Stmt::Const(c) => if const_map(stmts.drop_last()).contains_key(c.name.value@)
                && const_map(stmts.drop_last())[c.name.value@].value != c.value.value {
                1nat
            } else {
                0nat
            },
            _ => 0nat,
        }
    }
}

/// Two label lists that contain the same names collide with the same
/// constants.
pub proof fn lemma_const_label_conflicts_congruent(
    stmts: Seq<ast::Stmt>,
    a: Seq<ast::Ident>,
    b: Seq<ast::Ident>,
)
    requires
        forall|name: Seq<u8>| #[trigger] idents_contain(a, name) <==> idents_contain(b, name),
    ensures
        const_label_conflicts(stmts, a) == const_label_conflicts(stmts, b),
    decreases stmts.len(),
{
    if stmts.len() > 0 {
        lemma_const_label_conflicts_congruent(stmts.drop_last(), a, b);
    }
}

impl ConstTable {
    /// Collects every `.const` directive; a later directive for the same
    /// name wins. A constant whose name collides with one of the given
    /// labels earns an error; a redefinition that changes the value earns a
    /// warning; a clean program earns nothing.
    pub fn new(prog: &ast::Program, diag: &mut Diagnostics, labels: &Vec<ast::Ident>) -> (r:
        ConstTable)
        ensures
            r@ == const_map(prog.stmts@),
            old(diag).records@.is_prefix_of(final(diag).records@),
            error_count(final(diag).records@) == error_count(old(diag).records@)
                + const_label_conflicts(prog.stmts@, labels@),
            warning_count(final(diag).records@) == warning_count(old(diag).records@)
                + const_redefinitions(prog.stmts@),
            const_label_conflicts(prog.stmts@, labels@) == 0 && const_redefinitions(prog.stmts@)
                == 0 ==> final(diag).records@ == old(diag).records@,
    {
        let mut entries: Vec<(ast::Ident, ast::Integer)> = Vec::new();
        let mut i: usize = 0;
        proof {
            assert(prog.stmts@.take(0int) =~= Seq::empty());
        }
        while i < prog.stmts.len()
            invariant
                i <= prog.stmts@.len(),
                entries_map(entries@) == const_map(prog.stmts@.take(i as int)),
                old(diag).records@.is_prefix_of(diag.records@),
                error_count(diag.records@) == error_count(old(diag).records@)
                    + const_label_conflicts(prog.stmts@.take(i as int), labels@),
                warning_count(diag.records@) == warning_count(old(diag).records@)
                    + const_redefinitions(prog.stmts@.take(i as int)),
                const_label_conflicts(prog.stmts@.take(i as int), labels@) == 0
                    && const_redefinitions(prog.stmts@.take(i as int)) == 0 ==> diag.records@
                    == old(diag).records@,
            decreases prog.stmts@.len() - i,
        {
            proof {
                assert(prog.stmts@.take(i + 1 as int).drop_last() =~= prog.stmts@.take(i as int));
                assert(prog.stmts@.take(i + 1 as int).last() == prog.stmts@[i as int]);
            }
            match &prog.stmts[i] {
                ast::Stmt::Const(const_stmt) => {
                    // A constant name that collides with any label is an error.
                    let mut l: usize = 0;
                    let mut conflicting: Option<crate::span::Span> = None;
                    while l < labels.len()
                        invariant
                            l <= labels@.len(),
                            conflicting is Some <==> exists|q: int|
                                0 <= q < l && (#[trigger] labels@[q]).value@
                                    == const_stmt.name.value@,
                        decreases labels@.len() - l,
                    {
                        if vec_bytes_eq(&labels[l].value, &const_stmt.name.value) {
                            conflicting = Some(labels[l].span);
                        }
                        l = l + 1;
                    }
                    proof {
                        assert(conflicting is Some <==> idents_contain(
                            labels@,
                            const_stmt.name.value@,
                        ));
                    }
                    match conflicting {
                        Some(label_span) => {
                            let ghost pre = diag.records@;
                            diag.span_error_note(
                                DiagKind::DuplicateName,
                                const_stmt.span,
                                label_span,
                            );
                            proof {
                                crate::diag::lemma_error_count_push(pre, diag.records@.last());
                                crate::diag::lemma_warning_count_push(pre, diag.records@.last());
                            }
                        },
                        None => (),
                    }
                    // A redefinition with a different value earns a warning.
                    let mut j: usize = 0;
                    let mut previous: Option<ast::Integer> = None;
                    proof {
                        assert(entries@.take(0int) =~= Seq::empty());
                    }
                    while j < entries.len()
                        invariant
                            j <= entries@.len(),
                            previous == (if entries_map(entries@.take(j as int)).contains_key(
                                const_stmt.name.value@,
                            ) {
                                Some(entries_map(entries@.take(j as int))[const_stmt.name.value@])
                            } else {
                                None::<ast::Integer>
                            }),
                        decreases entries@.len() - j,
                    {
                        proof {
                            assert(entries@.take(j + 1 as int).drop_last() =~= entries@.take(
                                j as int,
                            ));
                            assert(entries@.take(j + 1 as int).last() == entries@[j as int]);
                        }
                        if vec_bytes_eq(&entries[j].0.value, &const_stmt.name.value) {
                            previous = Some(entries[j].1);
                        }
                        j = j + 1;
                    }
                    proof {
                        assert(entries@.take(entries@.len() as int) =~= entries@);
                    }
                    match previous {
                        Some(prev) => {
                            if !(prev.value == const_stmt.value.value) {
                                let ghost pre = diag.records@;
                                diag.span_warning(
                                    DiagKind::DuplicateName,
                                    const_stmt.span,
                                    Some(prev.span),
                                );
                                proof {
                                    crate::diag::lemma_error_count_push(
                                        pre,
                                        diag.records@.last(),
                                    );
                                    crate::diag::lemma_warning_count_push(
                                        pre,
                                        diag.records@.last(),
                                    );
                                }
                            }
                        },
                        None => (),
                    }
                    let ghost before = entries@;
                    entries.push((const_stmt.name.clone_ident(), const_stmt.value));
                    proof {
                        assert(entries@.drop_last() =~= before);
                        assert(entries_map(entries@) == entries_map(before).insert(
                            const_stmt.name.value@,
                            const_stmt.value,
                        ));
                    }
                },
                _ => (),
            }
            i = i + 1;
        }
        proof {
            assert(prog.stmts@.take(prog.stmts@.len() as int) =~= prog.stmts@);
        }
        ConstTable { entries }
    }

    /// Looks up the constant bound to a name, if any.
    pub fn get(&self, name: &Vec<u8>) -> (r: Option<ast::Integer>)
        ensures
            r == (if self@.contains_key(name@) {
                Some(self@[name@])
            } else {
                None::<ast::Integer>
            }),
    {
        let mut i: usize = 0;
        let mut found: Option<ast::Integer> = None;
        proof {
            assert(self.entries@.take(0int) =~= Seq::empty());
        }
        while i < self.entries.len()
            invariant
                i <= self.entries@.len(),
                found == (if entries_map(self.entries@.take(i as int)).contains_key(name@) {
                    Some(entries_map(self.entries@.take(i as int))[name@])
                } else {
                    None::<ast::Integer>
                }),
            decreases self.entries@.len() - i,
        {
            proof {
                assert(self.entries@.take(i + 1 as int).drop_last() =~= self.entries@.take(
                    i as int,
                ));
                assert(self.entries@.take(i + 1 as int).last() == self.entries@[i as int]);
            }
            if vec_bytes_eq(&self.entries[i].0.value, name) {
                found = Some(self.entries[i].1);
            }
            i = i + 1;
        }
        proof {
            assert(self.entries@.take(self.entries@.len() as int) =~= self.entries@);
        }
        found
    }

    /// Replaces every constant name among an instruction's arguments with
    /// the immediate value it maps to; other arguments and unknown names are
    /// left as they are.
    pub fn subst_instr(&self, instr: ast::Instr) -> (r: ast::Instr)
        ensures
            r.name == instr.name,
            r.args@.len() == instr.args@.len(),
            forall|i: int|
                0 <= i < instr.args@.len() ==> r.args@[i] == subst_arg_spec(
                    self@,
                    #[trigger] instr.args@[i],
                ),
    {
        let ast::Instr { name, args } = instr;
        let mut out: Vec<ast::InstrArg> = Vec::new();
        let mut rest = args;
        let ghost orig = rest@;
        let ghost mut i: int = 0;
        proof {
            assert(rest@ =~= orig.skip(0));
        }
        while rest.len() > 0
            invariant
                i + rest@.len() == orig.len(),
                rest@ == orig.skip(i),
                out@.len() == i,
                forall|j: int| 0 <= j < i ==> out@[j] == subst_arg_spec(self@, #[trigger] orig[j]),
            decreases rest@.len(),
        {
            proof {
                assert(rest@[0] == orig[i]);
            }
            let arg = rest.remove(0);
            proof {
                assert(rest@ =~= orig.skip(i + 1));
            }
            let replaced: ast::InstrArg = match arg {
                ast::InstrArg::Name(n) => {
                    match self.get(&n.value) {
                        Some(value) => ast::InstrArg::Immediate(value),
                        None => ast::InstrArg::Name(n),
                    }
                },
                other => other,
            };
            out.push(replaced);
            proof {
                i = i + 1;
            }
        }
        proof {
            assert(orig.skip(orig.len() as int).len() == 0);
        }
        ast::Instr { name, args: out }
    }
}

/// What substitution does to one argument: a name bound in the table becomes
/// its immediate, everything else stands.
pub open spec fn subst_arg_spec(m: Map<Seq<u8>, ast::Integer>, arg: ast::InstrArg) -> ast::InstrArg {
    match arg {
        ast::InstrArg::Name(n) => if m.contains_key(n.value@) {
            ast::InstrArg::Immediate(m[n.value@])
        } else {
            arg
        },
        _ => arg,
    }
}

} // verus!
