use vstd::prelude::*;

verus! {

/// A failure of one of the pipeline stages. A failure from an earlier stage
/// propagates unchanged through the later stages; no stage wraps or
/// reinterprets it.
#[derive(Debug, PartialEq)]
pub enum CompileError {
    /// A character of the input is neither part of any token nor whitespace.
    LexError { ch: char },
    /// The token in operator position matches no supported operator.
    UnsupportedOperatorError { op: String },
    /// The token sequence is too short to hold an operator and two operands.
    StructuralError,
}

/// The mathematical shape of a `CompileError`, with the offending operator
/// text as a sequence of characters.
pub enum ErrorModel {
    LexError { ch: char },
    UnsupportedOperatorError { op: Seq<char> },
    StructuralError,
}

impl View for CompileError {
    type V = ErrorModel;

    open spec fn view(&self) -> ErrorModel {
        match self {
            CompileError::LexError { ch } => ErrorModel::LexError { ch: *ch },
            CompileError::UnsupportedOperatorError { op } => ErrorModel::UnsupportedOperatorError {
                op: op@,
            },
            CompileError::StructuralError => ErrorModel::StructuralError,
        }
    }
}

} // verus!
