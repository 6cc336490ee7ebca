//! The directive grammar: what may stand in the body of a `builder(...)`
//! annotation.
//!
//! A body is one parenthesized group that holds a comma-separated list of
//! keywords. A trailing comma is allowed and so is the empty list. The only
//! keyword is `required`.

use crate::errors::{Diagnostic, DiagnosticView};
use crate::span::Span;
use crate::token::{Delimiter, Token};
use vstd::prelude::*;

verus! {

/// The one keyword of the grammar.
pub open spec fn keyword_required() -> Seq<char> {
    "required"@
}

/// What is reported of a token that stands where a keyword must stand: the
/// keyword that was expected, and the token that was found, quoted.
pub open spec fn msg_expected_required(found: Seq<char>) -> Seq<char> {
    "expected `required`, found `"@ + found + "`"@
}

/// What is reported of a token that stands where a comma must stand.
pub open spec fn msg_expected_comma() -> Seq<char> {
    "expected `,`"@
}

/// What is reported of a body that is not a parenthesized group.
pub open spec fn msg_expected_parentheses() -> Seq<char> {
    "expected parentheses"@
}

/// What is reported of a token that follows the parenthesized group.
pub open spec fn msg_unexpected_token() -> Seq<char> {
    "unexpected token"@
}

/// A directive: one recognized instruction of an annotation.
#[derive(Clone, Copy, Debug, PartialEq, Eq, Structural)]
pub enum BuilderAttribute {
    /// The field must be set before the builder is finalized. Carries the
    /// location of the keyword.
    Required(Span),
}

impl BuilderAttribute {
    /// The location of the keyword that the directive was read from.
    pub open spec fn spec_span(self) -> Span {
        match self {
            BuilderAttribute::Required(span) => span,
        }
    }

    /// The location of the keyword that the directive was read from.
    pub fn span(&self) -> (span: Span)
        ensures
            span == self.spec_span(),
    {
        match self {
            BuilderAttribute::Required(span) => *span,
        }
    }

    /// The directive that `token` stands for, or the error located at `token`
    /// if it is anything but the word `required`.
    pub open spec fn spec_parse(token: Token) -> Result<BuilderAttribute, DiagnosticView> {
        if token.spec_is_ident(keyword_required()) {
            Ok(BuilderAttribute::Required(token.spec_span()))
        } else {
            Err(
                DiagnosticView {
                    span: token.spec_span(),
                    message: msg_expected_required(token.spec_text()),
                },
            )
        }
    }

    /// Reads one keyword.
    pub fn parse(token: &Token) -> (res: Result<BuilderAttribute, Diagnostic>)
        ensures
            outcome(res) == Self::spec_parse(*token),
    {
        if token.is_ident("required") {
            Ok(BuilderAttribute::Required(token.span()))
        } else {
            let mut message = String::from_str("expected `required`, found `");
            message.append(token.text().as_str());
            message.append("`");
            Err(Diagnostic { span: token.span(), message })
        }
    }
}

/// A result as contracts see it: the value as it is, the error by its view.
pub open spec fn outcome<T>(res: Result<T, Diagnostic>) -> Result<T, DiagnosticView> {
    match res {
        Ok(value) => Ok(value),
        Err(error) => Err(error@),
    }
}

/// Whether the token at position `i` of a list is what the grammar wants
/// there: a keyword at the even positions, a comma at the odd ones.
pub open spec fn fits(inner: Seq<Token>, i: int) -> bool {
    if i % 2 == 0 {
        inner[i].spec_is_ident(keyword_required())
    } else {
        inner[i].spec_is_punct(',')
    }
}

/// Whether every token of the list is what the grammar wants at its position.
pub open spec fn well_formed(inner: Seq<Token>) -> bool {
    forall|i: int| 0 <= i < inner.len() ==> fits(inner, i)
}

/// Whether `i` is the first position of the list whose token does not fit.
pub open spec fn first_misfit(inner: Seq<Token>, i: int) -> bool {
    &&& 0 <= i < inner.len()
    &&& !fits(inner, i)
    &&& forall|j: int| 0 <= j < i ==> fits(inner, j)
}

/// The error reported of the token at position `i`, which does not fit.
pub open spec fn misfit_error(inner: Seq<Token>, i: int) -> DiagnosticView {
    DiagnosticView {
        span: inner[i].spec_span(),
        message: if i % 2 == 0 {
            msg_expected_required(inner[i].spec_text())
        } else {
            msg_expected_comma()
        },
    }
}

/// The directives of the first `n` tokens of a list: one for each keyword, in
/// order, located at its keyword.
pub open spec fn listed(inner: Seq<Token>, n: int) -> Seq<BuilderAttribute> {
    Seq::new(
        ((n + 1) / 2) as nat,
        |k: int| BuilderAttribute::Required(inner[2 * k].spec_span()),
    )
}

/// What a comma-separated list of keywords means: its directives if it is
/// well formed, else the error at the first token that does not fit.
pub open spec fn spec_parse_list(inner: Seq<Token>) -> Result<
    Seq<BuilderAttribute>,
    DiagnosticView,
> {
    if well_formed(inner) {
        Ok(listed(inner, inner.len() as int))
    } else {
        Err(misfit_error(inner, choose|i: int| first_misfit(inner, i)))
    }
}

/// Whether the token is a group in round brackets.
pub open spec fn is_parenthesized(token: Token) -> bool {
    token matches Token::Group { delimiter, .. } && delimiter == Delimiter::Parenthesis
}

/// What the raw tokens of an annotation's body mean. `entry` is the location of
/// the whole annotation, where the error goes if there are no tokens at all.
pub open spec fn spec_parse_body(tokens: Seq<Token>, entry: Span) -> Result<
    Seq<BuilderAttribute>,
    DiagnosticView,
> {
    if tokens.len() == 0 {
        Err(DiagnosticView { span: entry, message: msg_expected_parentheses() })
    } else if !is_parenthesized(tokens[0]) {
        Err(DiagnosticView { span: tokens[0].spec_span(), message: msg_expected_parentheses() })
    } else {
        match spec_parse_list(tokens[0]->Group_tokens@) {
            Err(error) => Err(error),
            Ok(list) => if tokens.len() > 1 {
                Err(DiagnosticView { span: tokens[1].spec_span(), message: msg_unexpected_token() })
            } else {
                Ok(list)
            },
        }
    }
}

/// At most one position is the first that does not fit.
pub proof fn lemma_first_misfit_unique(inner: Seq<Token>, i: int, j: int)
    requires
        first_misfit(inner, i),
        first_misfit(inner, j),
    ensures
        i == j,
{
    if i < j {
        assert(fits(inner, i));
    } else if j < i {
        assert(fits(inner, j));
    }
}

/// The directives of one annotation body, in the order in which they were
/// written.
#[derive(Clone, Debug)]
pub struct BuilderAttributeBody(pub Vec<BuilderAttribute>);

/// Reads a comma-separated list of keywords.
pub fn parse_list(inner: &Vec<Token>) -> (res: Result<Vec<BuilderAttribute>, Diagnostic>)
    ensures
        match res {
            Ok(list) => spec_parse_list(inner@) == Ok::<_, DiagnosticView>(list@),
            Err(error) => spec_parse_list(inner@) == Err::<Seq<BuilderAttribute>, _>(error@),
        },
{
    let mut list: Vec<BuilderAttribute> = Vec::new();
    let mut i: usize = 0;
    while i < inner.len()
        invariant
            i <= inner.len(),
            forall|j: int| 0 <= j < i ==> fits(inner@, j),
            list@ =~= listed(inner@, i as int),
        decreases inner.len() - i,
    {
        if i % 2 == 0 {
            match BuilderAttribute::parse(&inner[i]) {
                Ok(attribute) => {
                    list.push(attribute);
                },
                Err(error) => {
                    proof {
                        assert(first_misfit(inner@, i as int));
                        lemma_first_misfit_unique(
                            inner@,
                            i as int,
                            choose|k: int| first_misfit(inner@, k),
                        );
                    }
                    return Err(error);
                },
            }
        } else if !inner[i].is_punct(',') {
            proof {
                assert(first_misfit(inner@, i as int));
                lemma_first_misfit_unique(
                    inner@,
                    i as int,
                    choose|k: int| first_misfit(inner@, k),
                );
            }
            return Err(Diagnostic::new(inner[i].span(), "expected `,`"));
        }
        i += 1;
    }
    Ok(list)
}

impl BuilderAttributeBody {
    /// Reads the raw tokens of one annotation's body. `entry` is the location
    /// of the whole annotation.
    pub fn parse(tokens: &Vec<Token>, entry: Span) -> (res: Result<BuilderAttributeBody, Diagnostic>)
        ensures
            match res {
                Ok(body) => spec_parse_body(tokens@, entry) == Ok::<_, DiagnosticView>(body.0@),
                Err(error) => spec_parse_body(tokens@, entry) == Err::<
                    Seq<BuilderAttribute>,
                    _,
                >(error@),
            },
    {
        if tokens.len() == 0 {
            return Err(Diagnostic::new(entry, "expected parentheses"));
        }
        match &tokens[0] {
            Token::Group { delimiter: Delimiter::Parenthesis, tokens: inner, .. } => {
                match parse_list(inner) {
                    Err(error) => Err(error),
                    Ok(list) => {
                        if tokens.len() > 1 {
                            Err(Diagnostic::new(tokens[1].span(), "unexpected token"))
                        } else {
                            Ok(BuilderAttributeBody(list))
                        }
                    },
                }
            },
            other => Err(Diagnostic::new(other.span(), "expected parentheses")),
        }
    }
}

} // verus!
