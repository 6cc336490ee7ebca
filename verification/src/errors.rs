//! Located errors and the accumulator that gathers them during one traversal.

use crate::span::Span;
use vstd::prelude::*;
use vstd::std_specs::convert::FromSpecImpl;

verus! {

/// One located error: where it is, and what it says.
#[derive(Clone, Debug)]
pub struct Diagnostic {
    pub span: Span,
    pub message: String,
}

/// What a [`Diagnostic`] is in contracts: its location and the characters of
/// its message.
pub struct DiagnosticView {
    pub span: Span,
    pub message: Seq<char>,
}

impl View for Diagnostic {
    type V = DiagnosticView;

    open spec fn view(&self) -> DiagnosticView {
        DiagnosticView { span: self.span, message: self.message@ }
    }
}

/// The views of a sequence of diagnostics, in the same order.
pub open spec fn views(errors: Seq<Diagnostic>) -> Seq<DiagnosticView> {
    errors.map_values(|d: Diagnostic| d@)
}

/// Adding one diagnostic at the end adds its view at the end.
pub proof fn lemma_views_push(errors: Seq<Diagnostic>, d: Diagnostic)
    ensures
        views(errors.push(d)) == views(errors).push(d@),
{
    assert(views(errors.push(d)) =~= views(errors).push(d@));
}

/// The views of a concatenation are the concatenation of the views.
pub proof fn lemma_views_add(a: Seq<Diagnostic>, b: Seq<Diagnostic>)
    ensures
        views(a + b) == views(a) + views(b),
{
    assert(views(a + b) =~= views(a) + views(b));
}

impl Diagnostic {
    /// The error that says `message` about the region `span`.
    pub fn new(span: Span, message: &str) -> (d: Diagnostic)
        ensures
            d@ == (DiagnosticView { span, message: message@ }),
    {
        Diagnostic { span, message: String::from_str(message) }
    }
}

/// The result of a step that may fail with several located errors at once.
pub type ParseResult<T> = Result<T, SyntaxErrors>;

/// An accumulator of located errors.
///
/// It starts empty, grows by [`add`](SyntaxErrors::add),
/// [`extend`](SyntaxErrors::extend) and [`merge`](SyntaxErrors::merge), which
/// keep every error in the order of arrival, and is sealed by
/// [`finish`](SyntaxErrors::finish).
#[derive(Debug)]
pub struct SyntaxErrors {
    inner: Vec<Diagnostic>,
}

impl View for SyntaxErrors {
    type V = Seq<DiagnosticView>;

    closed spec fn view(&self) -> Seq<DiagnosticView> {
        views(self.inner@)
    }
}

impl Default for SyntaxErrors {
    /// The empty accumulator.
    fn default() -> (errors: SyntaxErrors)
        ensures
            errors@ == Seq::<DiagnosticView>::empty(),
    {
        let errors = SyntaxErrors { inner: Vec::new() };
        assert(errors@ =~= Seq::<DiagnosticView>::empty());
        errors
    }
}

impl From<Vec<Diagnostic>> for SyntaxErrors {
    /// The accumulator that holds exactly `errors`, in their order.
    fn from(errors: Vec<Diagnostic>) -> (res: SyntaxErrors)
        ensures
            res@ == views(errors@),
    {
        SyntaxErrors { inner: errors }
    }
}

impl FromSpecImpl<Vec<Diagnostic>> for SyntaxErrors {
    open spec fn obeys_from_spec() -> bool {
        true
    }

    closed spec fn from_spec(errors: Vec<Diagnostic>) -> SyntaxErrors {
        SyntaxErrors { inner: errors }
    }
}

impl From<SyntaxErrors> for Vec<Diagnostic> {
    /// The errors that the accumulator holds, in the order of arrival.
    fn from(errors: SyntaxErrors) -> (res: Vec<Diagnostic>)
        ensures
            views(res@) == errors@,
    {
        errors.inner
    }
}

impl FromSpecImpl<SyntaxErrors> for Vec<Diagnostic> {
    open spec fn obeys_from_spec() -> bool {
        true
    }

    closed spec fn from_spec(errors: SyntaxErrors) -> Vec<Diagnostic> {
        errors.inner
    }
}

impl SyntaxErrors {
    /// Records the error that says `description` about the region `span`.
    pub fn add(&mut self, span: Span, description: &str)
        ensures
            final(self)@ == old(self)@.push(DiagnosticView { span, message: description@ }),
    {
        let d = Diagnostic::new(span, description);
        proof {
            lemma_views_push(self.inner@, d);
        }
        self.inner.push(d);
    }

    /// Records all of `errors`, in their order, after what is already held.
    pub fn extend(&mut self, errors: Vec<Diagnostic>)
        ensures
            final(self)@ == old(self)@ + views(errors@),
    {
        let mut errors = errors;
        proof {
            lemma_views_add(self.inner@, errors@);
        }
        self.inner.append(&mut errors);
    }

    /// Records all the errors of `other`, in their order, after what is
    /// already held.
    pub fn merge(&mut self, other: SyntaxErrors)
        ensures
            final(self)@ == old(self)@ + other@,
    {
        self.extend(other.inner);
    }

    /// Whether no error has been recorded.
    pub fn is_empty(&self) -> (empty: bool)
        ensures
            empty == (self@.len() == 0),
    {
        self.inner.is_empty()
    }

    /// The number of errors recorded.
    pub fn len(&self) -> (n: usize)
        ensures
            n == self@.len(),
    {
        self.inner.len()
    }

    /// Seals the accumulator: `Ok` if nothing was recorded, else every
    /// recorded error, in the order of arrival.
    pub fn finish(self) -> (res: Result<(), SyntaxErrors>)
        ensures
            match res {
                Ok(_) => self@.len() == 0,
                Err(errors) => self@.len() > 0 && errors@ == self@,
            },
    {
        if self.inner.is_empty() {
            Ok(())
        } else {
            Err(self)
        }
    }
}

} // verus!
