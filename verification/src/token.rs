//! The token trees that annotation bodies are made of.

use crate::span::Span;
use vstd::prelude::*;

verus! {

/// The brackets around a group of tokens.
#[derive(Clone, Copy, Debug, PartialEq, Eq, Structural)]
pub enum Delimiter {
    /// `( ... )`
    Parenthesis,
    /// `{ ... }`
    Brace,
    /// `[ ... ]`
    Bracket,
    /// A group without visible brackets.
    Invisible,
}

/// One token tree, with the region of the source it came from.
#[derive(Debug)]
pub enum Token {
    /// A word: a keyword or a name.
    Ident { name: String, span: Span },
    /// A single punctuation character.
    Punct { ch: char, span: Span },
    /// A literal, as it was written.
    Literal { text: String, span: Span },
    /// A bracketed sequence of token trees.
    Group { delimiter: Delimiter, tokens: Vec<Token>, span: Span },
}

/// `String::push` appends the character to the end of the string and changes
/// nothing else.
pub assume_specification[ String::push ](text: &mut String, ch: char)
    ensures
        final(text)@ == old(text)@.push(ch),
;

impl Delimiter {
    /// The opening bracket, as it is written; nothing for a group without
    /// visible brackets.
    pub open spec fn spec_opening(self) -> Seq<char> {
        match self {
            Delimiter::Parenthesis => "("@,
            Delimiter::Brace => "{"@,
            Delimiter::Bracket => "["@,
            Delimiter::Invisible => ""@,
        }
    }

    /// The opening bracket, as it is written.
    pub fn opening(self) -> (text: &'static str)
        ensures
            text@ == self.spec_opening(),
    {
        match self {
            Delimiter::Parenthesis => "(",
            Delimiter::Brace => "{",
            Delimiter::Bracket => "[",
            Delimiter::Invisible => "",
        }
    }
}

impl Token {
    /// How the token is quoted in a message: a word, a punctuation character
    /// or a literal as it was written, a group by its opening bracket.
    pub open spec fn spec_text(&self) -> Seq<char> {
        match self {
            Token::Ident { name, .. } => name@,
            Token::Punct { ch, .. } => seq![*ch],
            Token::Literal { text, .. } => text@,
            Token::Group { delimiter, .. } => delimiter.spec_opening(),
        }
    }

    /// How the token is quoted in a message.
    pub fn text(&self) -> (text: String)
        ensures
            text@ == self.spec_text(),
    {
        match self {
            Token::Ident { name, .. } => name.clone(),
            Token::Punct { ch, .. } => {
                let mut text = String::new();
                text.push(*ch);
                assert(text@ =~= seq![*ch]);
                text
            },
            Token::Literal { text, .. } => text.clone(),
            Token::Group { delimiter, .. } => String::from_str(delimiter.opening()),
        }
    }

    /// The region of the source that the token covers.
    pub open spec fn spec_span(&self) -> Span {
        match self {
            Token::Ident { span, .. } => *span,
            Token::Punct { span, .. } => *span,
            Token::Literal { span, .. } => *span,
            Token::Group { span, .. } => *span,
        }
    }

    /// The region of the source that the token covers.
    pub fn span(&self) -> (span: Span)
        ensures
            span == self.spec_span(),
    {
        match self {
            Token::Ident { span, .. } => *span,
            Token::Punct { span, .. } => *span,
            Token::Literal { span, .. } => *span,
            Token::Group { span, .. } => *span,
        }
    }

    /// Whether the token is the word `word`, letter for letter.
    pub open spec fn spec_is_ident(&self, word: Seq<char>) -> bool {
        self matches Token::Ident { name, .. } && name@ == word
    }

    /// Whether the token is the word `word`, letter for letter.
    pub fn is_ident(&self, word: &str) -> (res: bool)
        ensures
            res == self.spec_is_ident(word@),
    {
        match self {
            Token::Ident { name, .. } => {
                let word = String::from_str(word);
                *name == word
            },
            _ => false,
        }
    }

    /// Whether the token is the punctuation character `ch`.
    pub open spec fn spec_is_punct(&self, ch: char) -> bool {
        self matches Token::Punct { ch: c, .. } && c == ch
    }

    /// Whether the token is the punctuation character `ch`.
    pub fn is_punct(&self, ch: char) -> (res: bool)
        ensures
            res == self.spec_is_punct(ch),
    {
        match self {
            Token::Punct { ch: c, .. } => *c == ch,
            _ => false,
        }
    }
}

} // verus!
