use vstd::prelude::*;
use crate::ir;
use crate::ast;
use crate::diag::{DiagKind, Diagnostics, error_count};

verus! {

/// The byte offset of statement `i` in the laid-out image: the sum of the
/// sizes of all statements before it, code section first, then static.
pub open spec fn prefix_size(stmts: Seq<ir::Stmt>, i: int) -> int
    decreases i,
{
    if i <= 0 {
        0
    } else {
        prefix_size(stmts, i - 1) + if i - 1 < stmts.len() {
            stmts[i - 1].size_bytes_spec()
        } else {
            0
        }
    }
}

/// Whether statement `i` carries `name` as its `j`-th label.
pub open spec fn label_at(stmts: Seq<ir::Stmt>, i: int, j: int, name: Seq<u8>) -> bool {
    &&& 0 <= i < stmts.len()
    &&& 0 <= j < stmts[i].labels@.len()
    &&& stmts[i].labels@[j].value@ == name
}

/// Whether any label strictly before position `(k, jk)` (statement-major,
/// label-minor order) has the given name.
pub open spec fn has_label_before(
    stmts: Seq<ir::Stmt>,
    k: int,
    jk: int,
    name: Seq<u8>,
) -> bool {
    exists|i: int, j: int| label_at(stmts, i, j, name) && (i < k || (i == k && j < jk))
}

/// Whether any label in the program has the given name.
pub open spec fn has_label(stmts: Seq<ir::Stmt>, name: Seq<u8>) -> bool {
    has_label_before(stmts, stmts.len() as int, 0, name)
}

/// No two labels in the program share a name.
pub open spec fn labels_unique(stmts: Seq<ir::Stmt>) -> bool {
    forall|i1: int, j1: int, i2: int, j2: int|
        label_at(stmts, i1, j1, stmts[i1].labels@[j1].value@) && label_at(
            stmts,
            i2,
            j2,
            stmts[i2].labels@[j2].value@,
        ) && (i1 != i2 || j1 != j2) ==> stmts[i1].labels@[j1].value@ != stmts[i2].labels@[j2].value@
}

/// The map an entry list denotes; a later entry for the same name wins.
pub open spec fn map_of_entries(entries: Seq<(ast::Ident, u64)>) -> Map<Seq<u8>, u64>
    decreases entries.len(),
{
    if entries.len() == 0 {
        Map::empty()
    } else {
        map_of_entries(entries.drop_last()).insert(entries.last().0.value@, entries.last().1)
    }
}

/// The recorded labels up to position `(k, jk)`: the domain is exactly the
/// label names before that position, and under unique labels every recorded
/// label maps to its statement's byte offset.
pub open spec fn entries_inv(
    entries: Seq<(ast::Ident, u64)>,
    all: Seq<ir::Stmt>,
    k: int,
    jk: int,
) -> bool {
    &&& forall|name: Seq<u8>|
        #[trigger] map_of_entries(entries).contains_key(name) <==> has_label_before(
            all,
            k,
            jk,
            name,
        )
    &&& (labels_unique(all) ==> forall|i: int, j: int|
        (#[trigger] label_at(all, i, j, all[i].labels@[j].value@)) && (i < k || (i == k && j < jk))
            ==> map_of_entries(entries).contains_pair(
            all[i].labels@[j].value@,
            prefix_size(all, i) as u64,
        ))
}

/// Byte offsets of every labeled statement in the concatenated code+static
/// image.
#[derive(Debug, Clone, PartialEq)]
pub struct LabelOffsets {
    entries: Vec<(ast::Ident, u64)>,
}

impl View for LabelOffsets {
    type V = Map<Seq<u8>, u64>;

    closed spec fn view(&self) -> Map<Seq<u8>, u64> {
        map_of_entries(self.entries@)
    }
}

impl LabelOffsets {
    /// Walks the code then static statements in order, accumulating byte
    /// sizes, and records each label at the running byte offset. The map
    /// contains exactly the program's label names; since label names are
    /// unique in a checked program, each maps to the byte offset of its
    /// statement: the sum of the sizes of all statements before it.
    pub fn new(prog: &ir::Program) -> (r: LabelOffsets)
        requires
            prefix_size(prog.all_stmts(), prog.all_stmts().len() as int) <= u64::MAX,
        ensures
            forall|name: Seq<u8>| #[trigger]
                r@.contains_key(name) <==> has_label(prog.all_stmts(), name),
            labels_unique(prog.all_stmts()) ==> forall|i: int, j: int|
                (#[trigger] label_at(
                    prog.all_stmts(),
                    i,
                    j,
                    prog.all_stmts()[i].labels@[j].value@,
                )) ==> r@.contains_pair(
                    prog.all_stmts()[i].labels@[j].value@,
                    prefix_size(prog.all_stmts(), i) as u64,
                ),
    {
        let ghost all = prog.all_stmts();
        let mut entries: Vec<(ast::Ident, u64)> = Vec::new();
        let mut offset: u64 = 0;
        let ghost mut done: int = 0;
        proof {
            assert forall|name: Seq<u8>|
                #[trigger] map_of_entries(entries@).contains_key(name) <==> has_label_before(
                    all,
                    0,
                    0,
                    name,
                ) by {
                assert(!map_of_entries(entries@).contains_key(name));
            };
        }
        match &prog.code_section {
            Some(section) => {
                proof {
                    assert(all.subrange(0, section.stmts@.len() as int) =~= section.stmts@);
                }
                let (e, o) = Self::walk_section(&section.stmts, entries, offset, Ghost(all), Ghost(0));
                entries = e;
                offset = o;
                proof {
                    done = section.stmts@.len() as int;
                }
            },
            None => (),
        }
        match &prog.static_section {
            Some(section) => {
                proof {
                    assert(all.subrange(done, done + section.stmts@.len() as int)
                        =~= section.stmts@);
                }
                let (e, o) = Self::walk_section(
                    &section.stmts,
                    entries,
                    offset,
                    Ghost(all),
                    Ghost(done),
                );
                entries = e;
                offset = o;
                proof {
                    done = done + section.stmts@.len() as int;
                }
            },
            None => (),
        }
        proof {
            assert(done == all.len());
            assert forall|name: Seq<u8>|
                has_label_before(all, all.len() as int, 0, name) <==> has_label_before(
                    all,
                    all.len() as int,
                    0,
                    name,
                ) by {};
        }
        LabelOffsets { entries }
    }

    /// Records the labels of one section's statements, starting at the given
    /// running offset.
    fn walk_section(
        stmts: &Vec<ir::Stmt>,
        entries: Vec<(ast::Ident, u64)>,
        offset: u64,
        Ghost(all): Ghost<Seq<ir::Stmt>>,
        Ghost(done): Ghost<int>,
    ) -> (r: (Vec<(ast::Ident, u64)>, u64))
        requires
            0 <= done,
            done + stmts@.len() <= all.len(),
            all.subrange(done, done + stmts@.len() as int) == stmts@,
            offset == prefix_size(all, done),
            prefix_size(all, all.len() as int) <= u64::MAX,
            entries_inv(entries@, all, done, 0),
        ensures
            r.1 == prefix_size(all, done + stmts@.len()),
            entries_inv(r.0@, all, done + stmts@.len() as int, 0),
    {
        let mut entries = entries;
        let mut offset = offset;
        let mut i: usize = 0;
        while i < stmts.len()
            invariant
                i <= stmts@.len(),
                0 <= done,
                done + stmts@.len() <= all.len(),
                all.subrange(done, done + stmts@.len() as int) == stmts@,
                offset == prefix_size(all, done + i),
                prefix_size(all, all.len() as int) <= u64::MAX,
                entries_inv(entries@, all, done + i, 0),
            decreases stmts@.len() - i,
        {
            proof {
                assert(all[done + i] == stmts@[i as int]);
                lemma_prefix_size_nonneg_mono(all, 0, done + i);
                lemma_prefix_size_nonneg_mono(all, done + i + 1, all.len() as int);
            }
            let stmt = &stmts[i];
            let mut j: usize = 0;
            while j < stmt.labels.len()
                invariant
                    j <= stmt.labels@.len(),
                    0 <= done + i < all.len(),
                    all[done + i as int] == *stmt,
                    offset == prefix_size(all, done + i),
                    0 <= offset + all[done + i as int].size_bytes_spec() <= u64::MAX,
                    entries_inv(entries@, all, done + i, j as int),
                decreases stmt.labels@.len() - j,
            {
                let ghost k = done + i;
                let ghost old_entries = entries@;
                let label = stmt.labels[j].clone_ident();
                entries.push((label, offset));
                proof {
                    assert(entries@.drop_last() =~= old_entries);
                    let ghost name_new = all[k].labels@[j as int].value@;
                    assert(map_of_entries(entries@) == map_of_entries(old_entries).insert(
                        name_new,
                        offset,
                    ));
                    assert(label_at(all, k, j as int, name_new));
                    assert forall|name: Seq<u8>|
                        #[trigger] map_of_entries(entries@).contains_key(name) <==>
                        has_label_before(all, k, j + 1 as int, name) by {
                        if map_of_entries(entries@).contains_key(name) {
                            if name == name_new {
                                assert(label_at(all, k, j as int, name));
                                assert(has_label_before(all, k, j + 1 as int, name));
                            } else {
                                assert(map_of_entries(old_entries).contains_key(name));
                                let (i0, j0) = choose|i0: int, j0: int|
                                    label_at(all, i0, j0, name) && (i0 < k || (i0 == k && j0
                                        < j as int));
                                assert(label_at(all, i0, j0, name) && (i0 < k || (i0 == k && j0 < j
                                    + 1)));
                            }
                        } else {
                            if has_label_before(all, k, j + 1 as int, name) {
                                let (i0, j0) = choose|i0: int, j0: int|
                                    label_at(all, i0, j0, name) && (i0 < k || (i0 == k && j0 < j
                                        + 1));
                                if i0 == k && j0 == j as int {
                                    assert(name == name_new);
                                    assert(map_of_entries(entries@).contains_key(name));
                                } else {
                                    assert(label_at(all, i0, j0, name) && (i0 < k || (i0 == k && j0
                                        < j as int)));
                                    assert(has_label_before(all, k, j as int, name));
                                    assert(map_of_entries(old_entries).contains_key(name));
                                    assert(map_of_entries(entries@).contains_key(name));
                                }
                            }
                        }
                    };
                    if labels_unique(all) {
                        assert forall|i2: int, j2: int|
                            (#[trigger] label_at(all, i2, j2, all[i2].labels@[j2].value@)) && (i2
                                < k || (i2 == k && j2 < j + 1)) implies map_of_entries(
                            entries@,
                        ).contains_pair(
                            all[i2].labels@[j2].value@,
                            prefix_size(all, i2) as u64,
                        ) by {
                            let name2 = all[i2].labels@[j2].value@;
                            if i2 == k && j2 == j as int {
                                assert(map_of_entries(entries@).contains_pair(name2, offset));
                            } else {
                                assert(map_of_entries(old_entries).contains_pair(
                                    name2,
                                    prefix_size(all, i2) as u64,
                                ));
                                assert(name2 != name_new);
                            }
                        };
                    }
                }
                j = j + 1;
            }
            proof {
                let ghost k = done + i;
                assert forall|name: Seq<u8>|
                    has_label_before(all, k, stmt.labels@.len() as int, name) <==> has_label_before(
                        all,
                        k + 1,
                        0,
                        name,
                    ) by {
                    if has_label_before(all, k, stmt.labels@.len() as int, name) {
                        let (i0, j0) = choose|i0: int, j0: int|
                            label_at(all, i0, j0, name) && (i0 < k || (i0 == k && j0 < stmt.labels@.len()));
                        assert(label_at(all, i0, j0, name) && i0 < k + 1);
                    }
                    if has_label_before(all, k + 1, 0, name) {
                        let (i0, j0) = choose|i0: int, j0: int|
                            label_at(all, i0, j0, name) && (i0 < k + 1);
                        if i0 == k {
                            assert(label_at(all, i0, j0, name) && (i0 == k && j0 < stmt.labels@.len()));
                        }
                        assert(has_label_before(all, k, stmt.labels@.len() as int, name));
                    }
                };
            }
            offset = offset + stmt.size_bytes();
            i = i + 1;
        }
        (entries, offset)
    }

    /// Looks up a label name, returning the immediate value of its offset.
    /// An unknown label emits a diagnostic and recovers as zero.
    pub fn lookup(&self, name: &ast::Ident, diag: &mut Diagnostics) -> (r: ir::Immediate)
        ensures
            r.span == name.span,
            r.value == lookup_spec(self@, name.value@),
            0 <= r.value <= u64::MAX,
            old(diag).records@.is_prefix_of(final(diag).records@),
            self@.contains_key(name.value@) ==> final(diag).records@ == old(diag).records@,
            error_count(final(diag).records@) == error_count(old(diag).records@) + (
            if self@.contains_key(name.value@) {
                0int
            } else {
                1int
            }),
    {
        let mut i: usize = 0;
        let mut found: Option<u64> = None;
        proof {
            assert(self.entries@.take(0int) =~= Seq::empty());
        }
        while i < self.entries.len()
            invariant
                i <= self.entries@.len(),
                found == (if map_of_entries(self.entries@.take(i as int)).contains_key(
                    name.value@,
                ) {
                    Some(map_of_entries(self.entries@.take(i as int))[name.value@])
                } else {
                    None::<u64>
                }),
            decreases self.entries@.len() - i,
        {
            proof {
                assert(self.entries@.take(i + 1 as int).drop_last() =~= self.entries@.take(
                    i as int,
                ));
                assert(self.entries@.take(i + 1 as int).last() == self.entries@[i as int]);
            }
            if crate::bytestr::vec_bytes_eq(&self.entries[i].0.value, &name.value) {
                found = Some(self.entries[i].1);
            }
            i = i + 1;
        }
        proof {
            assert(self.entries@.take(self.entries@.len() as int) =~= self.entries@);
        }
        let value = match found {
            Some(value) => value,
            None => {
                let ghost pre = diag.records@;
                diag.span_error(DiagKind::UnknownLabel, name.span);
                proof {
                    crate::diag::lemma_error_count_push(pre, diag.records@.last());
                }
                // Error recovery: zero lets checking continue past the fault.
                0
            },
        };
        ir::Integer { value: value as i128, span: name.span }
    }
}

/// The value an offsets map resolves a name to: the recorded offset, or zero
/// for an unknown label.
pub open spec fn lookup_spec(m: Map<Seq<u8>, u64>, name: Seq<u8>) -> int {
    if m.contains_key(name) {
        m[name] as int
    } else {
        0
    }
}

/// Prefix sums of statement sizes are non-negative.
pub proof fn lemma_prefix_size_nonneg(stmts: Seq<ir::Stmt>, b: int)
    ensures
        0 <= prefix_size(stmts, b),
    decreases (if b >= 0 {
        b
    } else {
        0
    }),
{
    if b > 0 {
        lemma_prefix_size_nonneg(stmts, b - 1);
        if b - 1 < stmts.len() {
            crate::ir::lemma_stmt_size_nonneg(stmts[b - 1]);
        }
    }
}

/// Prefix sums of statement sizes are non-negative and monotone.
pub proof fn lemma_prefix_size_nonneg_mono(stmts: Seq<ir::Stmt>, a: int, b: int)
    requires
        a <= b,
    ensures
        prefix_size(stmts, a) <= prefix_size(stmts, b),
        0 <= prefix_size(stmts, b),
    decreases b - a,
{
    lemma_prefix_size_nonneg(stmts, a);
    lemma_prefix_size_nonneg(stmts, b);
    if a < b {
        lemma_prefix_size_nonneg_mono(stmts, a, b - 1);
        if b - 1 < stmts.len() {
            crate::ir::lemma_stmt_size_nonneg(stmts[b - 1]);
        }
    }
}

} // verus!
