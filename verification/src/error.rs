use vstd::prelude::*;

verus! {

/// Mathematical image of a `ParseError`.
pub ghost enum ErrorView {
    MalformedXml,
    UnknownVariant { choice: Seq<char>, tag: Seq<char> },
    MissingField { entity: Seq<char>, field: Seq<char> },
    InvalidDate,
    InvalidTimestamp,
    InvalidAmount,
}

/// The single terminal error a parse can end in: the first failure wins,
/// nothing is aggregated and no partial model is handed out.
#[derive(Debug, Clone)]
pub enum ParseError {
    /// The input is not well-formed XML; reported by the tokenizer.
    MalformedXml,
    /// A choice point saw a child tag outside its recognized set.
    /// `tag` is empty when the choice element had no child at all.
    UnknownVariant { choice: String, tag: String },
    /// A required element or attribute is absent.
    MissingField { entity: String, field: String },
    /// A calendar date's text does not parse.
    InvalidDate,
    /// A creation timestamp's text does not parse.
    InvalidTimestamp,
    /// A monetary value's text does not parse.
    InvalidAmount,
}

impl DeepView for ParseError {
    type V = ErrorView;

    open spec fn deep_view(&self) -> ErrorView {
        match self {
            ParseError::MalformedXml => ErrorView::MalformedXml,
            ParseError::UnknownVariant { choice, tag } => ErrorView::UnknownVariant {
                choice: choice@,
                tag: tag@,
            },
            ParseError::MissingField { entity, field } => ErrorView::MissingField {
                entity: entity@,
                field: field@,
            },
            ParseError::InvalidDate => ErrorView::InvalidDate,
            ParseError::InvalidTimestamp => ErrorView::InvalidTimestamp,
            ParseError::InvalidAmount => ErrorView::InvalidAmount,
        }
    }
}

} // verus!
