//! The errors that translating a line can end in.

use vstd::prelude::*;

use crate::data::{Preposition, Verb};

verus! {

/// What went wrong in the structure of a sentence.
#[derive(Clone, Copy, Debug, PartialEq, Eq, Structural)]
pub enum SyntaxReason {
    /// A label that is not followed by `:` where a verb was expected.
    ExpectedLabelDefinition,
    /// A token that can start neither a sentence nor a label definition.
    ExpectedVerbOrLabel,
    /// A preposition with no object after it.
    PrepositionWithoutObject,
}

/// Why a line could not be translated.
#[derive(Debug)]
pub enum AsmError {
    /// A memory operand whose `@[` has no closing `]`.
    LexError { line: usize, column: usize },
    /// A structural failure, at the token where it was found.
    SyntaxError { line: usize, column: usize, reason: SyntaxReason },
    /// The operands' widths do not agree; both operands' texts are given.
    SizeMismatchError { object: String, other: String },
    /// Phrases that the verb does not accept were left over.
    UnexpectedModifierError { verb: Verb, prepositions: Vec<Preposition> },
    /// A phrase that the verb requires is absent.
    MissingModifierError { verb: Verb, preposition: Preposition },
    /// The verb's object or one of its phrases is absent where it is
    /// required, present where it is not allowed, or of the wrong kind.
    OperandError { verb: Verb },
}

/// `AsmError` with its texts and lists as sequences.
pub enum ErrorView {
    LexError { line: usize, column: usize },
    SyntaxError { line: usize, column: usize, reason: SyntaxReason },
    SizeMismatchError { object: Seq<char>, other: Seq<char> },
    UnexpectedModifierError { verb: Verb, prepositions: Seq<Preposition> },
    MissingModifierError { verb: Verb, preposition: Preposition },
    OperandError { verb: Verb },
}

impl View for AsmError {
    type V = ErrorView;

    open spec fn view(&self) -> ErrorView {
        match self {
            AsmError::LexError { line, column } => ErrorView::LexError {
                line: *line,
                column: *column,
            },
            AsmError::SyntaxError { line, column, reason } => ErrorView::SyntaxError {
                line: *line,
                column: *column,
                reason: *reason,
            },
            AsmError::SizeMismatchError { object, other } => ErrorView::SizeMismatchError {
                object: object@,
                other: other@,
            },
            AsmError::UnexpectedModifierError { verb, prepositions } =>
                ErrorView::UnexpectedModifierError { verb: *verb, prepositions: prepositions@ },
            AsmError::MissingModifierError { verb, preposition } =>
                ErrorView::MissingModifierError { verb: *verb, preposition: *preposition },
            AsmError::OperandError { verb } => ErrorView::OperandError { verb: *verb },
        }
    }
}

/// The view of a result whose success value has a view.
pub open spec fn result_view<T: View>(r: Result<T, AsmError>) -> Result<T::V, ErrorView> {
    match r {
        Ok(v) => Ok(v@),
        Err(e) => Err(e@),
    }
}

} // verus!
