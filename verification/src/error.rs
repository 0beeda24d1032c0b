//! The failures that the generator reports to its driver.

use vstd::prelude::*;
use vstd::string::StringExecFns;

verus! {

/// A failure of the generator that its driver can recover from.
#[derive(Debug, Clone, PartialEq, Eq)]
pub enum Error {
    /// A dependency was asked for and the context has no dependency manager.
    DependencyManagerUnset,
    /// The linker symbol instruction has no literal for the path of the library.
    LinkerSymbolMissing,
    /// The constructor was to be emitted and has not been declared.
    ConstructorNotFound,
    /// The selector was to be emitted and has not been declared.
    SelectorNotFound,
    /// The text is not the hexadecimal literal of a word.
    InvalidConstant(String),
    /// The function of this name has a block that does not end in its one terminator.
    Verification(String),
    /// The dependency manager, or the node being lowered, failed with this message.
    Other(String),
}

/// A failure as a mathematical value.
pub enum ErrorView {
    /// A dependency was asked for and the context has no dependency manager.
    DependencyManagerUnset,
    /// The linker symbol instruction has no literal for the path of the library.
    LinkerSymbolMissing,
    /// The constructor was to be emitted and has not been declared.
    ConstructorNotFound,
    /// The selector was to be emitted and has not been declared.
    SelectorNotFound,
    /// The text is not the hexadecimal literal of a word.
    InvalidConstant(Seq<char>),
    /// The function of this name has a block that does not end in its one terminator.
    Verification(Seq<char>),
    /// The dependency manager, or the node being lowered, failed with this message.
    Other(Seq<char>),
}

impl View for Error {
    type V = ErrorView;

    open spec fn view(&self) -> ErrorView {
        match *self {
            Error::DependencyManagerUnset => ErrorView::DependencyManagerUnset,
            Error::LinkerSymbolMissing => ErrorView::LinkerSymbolMissing,
            Error::ConstructorNotFound => ErrorView::ConstructorNotFound,
            Error::SelectorNotFound => ErrorView::SelectorNotFound,
            Error::InvalidConstant(text) => ErrorView::InvalidConstant(text@),
            Error::Verification(name) => ErrorView::Verification(name@),
            Error::Other(message) => ErrorView::Other(message@),
        }
    }
}

impl ErrorView {
    /// The message of the failure.
    pub open spec fn message(self) -> Seq<char> {
        match self {
            ErrorView::DependencyManagerUnset => "The dependency manager is unset"@,
            ErrorView::LinkerSymbolMissing => "Linker symbol literal is missing"@,
            ErrorView::ConstructorNotFound => "Contract constructor not found"@,
            ErrorView::SelectorNotFound => "Contract selector not found"@,
            ErrorView::InvalidConstant(text) => "Invalid string constant `"@ + text + "`"@,
            ErrorView::Verification(name) => "Malformed block in function `"@ + name + "`"@,
            ErrorView::Other(message) => message,
        }
    }
}

impl Error {
    /// The message of the failure.
    pub fn message(&self) -> (result: String)
        ensures
            result@ == self@.message(),
    {
        match self {
            Error::DependencyManagerUnset => String::from_str("The dependency manager is unset"),
            Error::LinkerSymbolMissing => String::from_str("Linker symbol literal is missing"),
            Error::ConstructorNotFound => String::from_str("Contract constructor not found"),
            Error::SelectorNotFound => String::from_str("Contract selector not found"),
            Error::InvalidConstant(text) => String::from_str("Invalid string constant `").concat(
                text.as_str(),
            ).concat("`"),
            Error::Verification(name) => String::from_str("Malformed block in function `").concat(
                name.as_str(),
            ).concat("`"),
            Error::Other(message) => message.clone(),
        }
    }
}

} // verus!
