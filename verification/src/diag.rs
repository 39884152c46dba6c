use vstd::prelude::*;
use crate::span::Span;

verus! {

/// Severity of a diagnostic record.
#[derive(Debug, Clone, Copy, PartialEq, Eq, Structural)]
pub enum Level {
    Error,
    Warning,
    Note,
}

/// The fault a diagnostic reports.
#[derive(Debug, Clone, Copy, PartialEq, Eq, Structural)]
pub enum DiagKind {
    ParseError,
    IncludeError,
    DuplicateName,
    UnknownMnemonic,
    OperandArityError,
    OperandKindError,
    ImmediateRangeError,
    UnknownLabel,
    SectionOrderError,
    DuplicateSection,
}

/// One diagnostic record: a severity, the fault, a primary span, and an
/// optional secondary span pointing at a prior definition.
#[derive(Debug, Clone, Copy, PartialEq, Eq, Structural)]
pub struct Diagnostic {
    pub level: Level,
    pub kind: DiagKind,
    pub span: Span,
    pub note: Option<Span>,
}

/// Counts the error-level records in a sequence of diagnostics.
pub open spec fn error_count(s: Seq<Diagnostic>) -> nat
    decreases s.len(),
{
    if s.len() == 0 {
        0
    } else {
        error_count(s.drop_last()) + if s.last().level is Error {
            1nat
        } else {
            0nat
        }
    }
}

pub proof fn lemma_error_count_push(s: Seq<Diagnostic>, d: Diagnostic)
    ensures
        error_count(s.push(d)) == error_count(s) + if d.level is Error {
            1nat
        } else {
            0nat
        },
{
    assert(s.push(d).drop_last() =~= s);
}

/// Counts the warning-level records in a sequence of diagnostics.
pub open spec fn warning_count(s: Seq<Diagnostic>) -> nat
    decreases s.len(),
{
    if s.len() == 0 {
        0
    } else {
        warning_count(s.drop_last()) + if s.last().level is Warning {
            1nat
        } else {
            0nat
        }
    }
}

pub proof fn lemma_warning_count_push(s: Seq<Diagnostic>, d: Diagnostic)
    ensures
        warning_count(s.push(d)) == warning_count(s) + if d.level is Warning {
            1nat
        } else {
            0nat
        },
{
    assert(s.push(d).drop_last() =~= s);
}

/// Counting is unchanged along an unchanged sequence and grows stepwise
/// along pushes, so equal sequences have equal counts; prefix growth alone
/// never lowers either count.
pub proof fn lemma_counts_monotone(pre: Seq<Diagnostic>, post: Seq<Diagnostic>)
    requires
        pre.is_prefix_of(post),
    ensures
        error_count(post) >= error_count(pre),
        warning_count(post) >= warning_count(pre),
    decreases post.len(),
{
    if pre.len() == post.len() {
        assert(pre =~= post);
    } else {
        assert(pre.is_prefix_of(post.drop_last()));
        lemma_counts_monotone(pre, post.drop_last());
    }
}

/// Collects the diagnostics a pass emits. The assembler's recover-and-continue
/// discipline appends records here and keeps going; a driver inspects the
/// records afterwards and decides whether to abort.
#[derive(Debug, Clone, PartialEq)]
pub struct Diagnostics {
    pub records: Vec<Diagnostic>,
}

impl Diagnostics {
    pub fn new() -> (r: Diagnostics)
        ensures
            r.records@ =~= Seq::<Diagnostic>::empty(),
    {
        Diagnostics { records: Vec::new() }
    }

    /// Appends an error-level record with a primary span only.
    pub fn span_error(&mut self, kind: DiagKind, span: Span)
        ensures
            final(self).records@ == old(self).records@.push(
                Diagnostic { level: Level::Error, kind, span, note: None },
            ),
    {
        self.records.push(Diagnostic { level: Level::Error, kind, span, note: None });
    }

    /// Appends an error-level record with a secondary span pointing at a
    /// prior definition.
    pub fn span_error_note(&mut self, kind: DiagKind, span: Span, note: Span)
        ensures
            final(self).records@ == old(self).records@.push(
                Diagnostic { level: Level::Error, kind, span, note: Some(note) },
            ),
    {
        self.records.push(Diagnostic { level: Level::Error, kind, span, note: Some(note) });
    }

    /// Appends a warning-level record.
    pub fn span_warning(&mut self, kind: DiagKind, span: Span, note: Option<Span>)
        ensures
            final(self).records@ == old(self).records@.push(
                Diagnostic { level: Level::Warning, kind, span, note },
            ),
    {
        self.records.push(Diagnostic { level: Level::Warning, kind, span, note });
    }

    /// The number of error-level records emitted so far.
    pub fn emitted_errors(&self) -> (r: usize)
        ensures
            r == error_count(self.records@),
    {
        let mut count: usize = 0;
        let mut i: usize = 0;
        while i < self.records.len()
            invariant
                i <= self.records@.len(),
                count == error_count(self.records@.take(i as int)),
                count <= i,
            decreases self.records@.len() - i,
        {
            let is_err = match self.records[i].level {
                Level::Error => true,
                _ => false,
            };
            proof {
                assert(self.records@.take(i + 1 as int).drop_last() =~= self.records@.take(
                    i as int,
                ));
                assert(self.records@.take(i + 1 as int).last() == self.records@[i as int]);
            }
            if is_err {
                count = count + 1;
            }
            i = i + 1;
        }
        proof {
            assert(self.records@.take(self.records@.len() as int) =~= self.records@);
        }
        count
    }
}

} // verus!
