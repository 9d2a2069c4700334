//! What can go wrong while a configuration is read.

use crate::float::FloatFault;
use crate::integer::IntegerFault;
use vstd::prelude::*;

verus! {

/// A variable that is missing or that cannot be read as what it has to be.
#[derive(Debug)]
pub enum Error {
    /// A variable that has to be set is not. The text names it.
    MissingEnvVar(&'static str),
    /// The variable named by the text is set, but not to an unsigned 16-bit
    /// integer.
    ParseIntWithMetadata(IntegerFault, String),
    /// The variable named by the text is set, but not to a floating-point
    /// number.
    ParseFloatWithMetadata(FloatFault, String),
}

/// An [`Error`] as a plain value.
pub enum ErrorView {
    MissingEnvVar(Seq<char>),
    ParseIntWithMetadata(IntegerFault, Seq<char>),
    ParseFloatWithMetadata(FloatFault, Seq<char>),
}

impl View for Error {
    type V = ErrorView;

    open spec fn view(&self) -> ErrorView {
        match self {
            Error::MissingEnvVar(name) => ErrorView::MissingEnvVar(name@),
            Error::ParseIntWithMetadata(fault, key) => ErrorView::ParseIntWithMetadata(
                *fault,
                key@,
            ),
            Error::ParseFloatWithMetadata(fault, key) => ErrorView::ParseFloatWithMetadata(
                *fault,
                key@,
            ),
        }
    }
}

impl Error {
    /// The name of the variable that the error is about.
    pub fn key(&self) -> (key: &str)
        ensures
            key@ == match self@ {
                ErrorView::MissingEnvVar(name) => name,
                ErrorView::ParseIntWithMetadata(_, key) => key,
                ErrorView::ParseFloatWithMetadata(_, key) => key,
            },
    {
        match self {
            Error::MissingEnvVar(name) => name,
            Error::ParseIntWithMetadata(_, key) => key.as_str(),
            Error::ParseFloatWithMetadata(_, key) => key.as_str(),
        }
    }
}

} // verus!
